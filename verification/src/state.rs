//! The table of running jobs.
//!
//! A key is computed by one owner at a time. The first request for a key
//! enters a job for it and makes the requester its owner. A request for a key
//! whose job is still running joins that job: under cooperative scheduling
//! nobody else could be advancing it, so the request closes a cycle; under
//! parallel scheduling the requester is parked on the job until its owner
//! completes or poisons it, unless the job itself waits for the requester.

use crate::caches::QueryCache;
use crate::config::QueryError;
use crate::dep_graph::DepNodeIndex;
use crate::job::{
    cycle_from, is_job_stack, parent_at, position_of, usage_of, CycleError, QueryJob, QueryJobId,
    QueryJobInfo, QueryStackFrame, QueryWaiter, Span,
};
use crate::waiting::{chain_report, find_wait_cycle, wait_chain};
use std::collections::HashMap;
use vstd::prelude::*;

verus! {

broadcast use vstd::std_specs::hash::group_hash_axioms;

/// The running jobs of one query kind, keyed by the query's key.
pub struct QueryState {
    active: HashMap<usize, QueryJob>,
    order: Vec<usize>,
    jobs: u64,
    parallel: bool,
}

/// The responsibility to finish the job of one key. It is given up by
/// completing the job or by poisoning it.
#[derive(Debug)]
pub struct JobOwner {
    key: usize,
    id: QueryJobId,
}

/// How a job ended, as told to those parked on it.
#[derive(Clone, Copy, Debug, PartialEq, Eq, Structural, Hash)]
pub enum JobSignal {
    /// The result is in the cache.
    Completed,
    /// The computation was abandoned; there is no result.
    Poisoned,
}

/// Those parked on a job that ended, and what they are to be told.
#[derive(Debug)]
pub struct Released {
    pub signal: JobSignal,
    pub waiters: Vec<QueryWaiter>,
}

/// The answer to a request to start the job of a key.
#[derive(Debug)]
pub enum TryGetJob {
    /// No job was running: the requester now owns a new one.
    NotYetStarted(JobOwner),
    /// A job is running elsewhere: the requester was parked on it.
    Parked(QueryJobId),
    /// A job is running below the requester: the request closes a cycle.
    Cycle(CycleError),
    /// No job identity is left to give out.
    Exhausted,
}

/// What a report says of the running job `job` of `key`.
pub open spec fn job_info(dep_kind: u16, key: usize, job: QueryJob) -> QueryJobInfo {
    QueryJobInfo {
        query: QueryStackFrame { dep_kind, key },
        id: job.id,
        span: job.span,
        parent: job.parent,
    }
}

/// The identity of the job at position `i` of the start order.
pub open spec fn id_at(active: Map<usize, QueryJob>, order: Seq<usize>, i: int) -> QueryJobId {
    active[order[i]].id
}

/// Whether the job at position `i` was asked for by the job before it, or
/// from outside if it is the first, and nobody is parked on it.
pub open spec fn linked_at(active: Map<usize, QueryJob>, order: Seq<usize>, i: int) -> bool {
    &&& active[order[i]].parent == (if i == 0 {
        None
    } else {
        Some(id_at(active, order, i - 1))
    })
    &&& active[order[i]].waiters@.len() == 0
}

/// The invariant of a job table: `order` names each running key once; the
/// identities of running jobs are distinct and among the `jobs` given out;
/// and under cooperative scheduling the running jobs form a stack on which
/// nobody is parked.
pub open spec fn table_wf(
    active: Map<usize, QueryJob>,
    order: Seq<usize>,
    jobs: u64,
    parallel: bool,
) -> bool {
    &&& order.no_duplicates()
    &&& forall|k: usize| order.contains(k) <==> active.contains_key(k)
    &&& forall|i: int| 0 <= i < order.len() ==> 1 <= (#[trigger] id_at(active, order, i)).0 <= jobs
    &&& forall|i: int, j: int|
        0 <= i < j < order.len() ==> #[trigger] id_at(active, order, i) != #[trigger] id_at(
            active,
            order,
            j,
        )
    &&& !parallel ==> forall|i: int| 0 <= i < order.len() ==> #[trigger] linked_at(active, order, i)
}

impl JobOwner {
    /// The key whose job this owner must finish.
    pub closed spec fn key_spec(&self) -> usize {
        self.key
    }

    /// The identity of the job.
    pub closed spec fn id_spec(&self) -> QueryJobId {
        self.id
    }

    /// The key whose job this owner must finish.
    pub fn key(&self) -> (k: usize)
        ensures
            k == self.key_spec(),
    {
        self.key
    }

    /// The identity of the job.
    pub fn id(&self) -> (id: QueryJobId)
        ensures
            id == self.id_spec(),
    {
        self.id
    }
}

impl QueryState {
    /// The running jobs by key.
    pub closed spec fn active(&self) -> Map<usize, QueryJob> {
        self.active@
    }

    /// The keys of the running jobs in the order in which they were started.
    pub closed spec fn order(&self) -> Seq<usize> {
        self.order@
    }

    /// How many job identities have been given out.
    pub closed spec fn jobs(&self) -> u64 {
        self.jobs
    }

    /// Whether a request that joins a running job is parked.
    pub closed spec fn is_parallel(&self) -> bool {
        self.parallel
    }

    /// The running jobs as a report lists them, in start order.
    pub open spec fn stack(&self, dep_kind: u16) -> Seq<QueryJobInfo> {
        Seq::new(
            self.order().len(),
            |i: int| job_info(dep_kind, self.order()[i], self.active()[self.order()[i]]),
        )
    }

    /// The job that is running innermost, if any.
    pub open spec fn current(&self) -> Option<QueryJobId> {
        if self.order().len() == 0 {
            None
        } else {
            Some(self.active()[self.order().last()].id)
        }
    }

    /// The invariant of the table: see `table_wf`.
    pub open spec fn wf(&self) -> bool {
        table_wf(self.active(), self.order(), self.jobs(), self.is_parallel())
    }

    /// Whether `owner` is responsible for a job that is running in this table.
    pub open spec fn owns(&self, owner: &JobOwner) -> bool {
        &&& self.active().contains_key(owner.key_spec())
        &&& self.active()[owner.key_spec()].id == owner.id_spec()
    }

    /// A table with no running job. `parallel` selects what happens to a
    /// request that joins a running job: it is parked, or it closes a cycle.
    pub fn new(parallel: bool) -> (state: QueryState)
        ensures
            state.wf(),
            state.active() == Map::<usize, QueryJob>::empty(),
            state.order() == Seq::<usize>::empty(),
            state.jobs() == 0,
            state.is_parallel() == parallel,
    {
        let state = QueryState { active: HashMap::new(), order: Vec::new(), jobs: 0, parallel };
        assert(state.active@ =~= Map::<usize, QueryJob>::empty());
        state
    }

    /// A table with no running job that counts `jobs` identities as given
    /// out already, so that it goes on with the next one.
    pub fn continuing(parallel: bool, jobs: u64) -> (state: QueryState)
        ensures
            state.wf(),
            state.active() == Map::<usize, QueryJob>::empty(),
            state.order() == Seq::<usize>::empty(),
            state.jobs() == jobs,
            state.is_parallel() == parallel,
    {
        let state = QueryState { active: HashMap::new(), order: Vec::new(), jobs, parallel };
        assert(state.active@ =~= Map::<usize, QueryJob>::empty());
        state
    }

    /// Whether no job is running.
    pub fn all_inactive(&self) -> (inactive: bool)
        requires
            self.wf(),
        ensures
            inactive == (self.active() == Map::<usize, QueryJob>::empty()),
            inactive == (self.order().len() == 0),
    {
        let inactive = self.order.len() == 0;
        proof {
            if inactive {
                assert forall|k: usize| !self.active@.contains_key(k) by {
                    if self.active@.contains_key(k) {
                        assert(self.order@.contains(k));
                    }
                }
                assert(self.active@ =~= Map::<usize, QueryJob>::empty());
            } else {
                assert(self.order@.contains(self.order@[0]));
            }
        }
        inactive
    }

    /// Whether requests that join a running job are parked.
    pub fn parallel(&self) -> (p: bool)
        ensures
            p == self.is_parallel(),
    {
        self.parallel
    }

    /// How many jobs are running.
    pub fn running(&self) -> (n: usize)
        ensures
            n == self.order().len(),
    {
        self.order.len()
    }

    /// The key of the running job that was started as number `i` among
    /// those that are still running.
    pub fn key_at(&self, i: usize) -> (key: usize)
        requires
            self.wf(),
            i < self.order().len(),
        ensures
            key == self.order()[i as int],
            self.active().contains_key(key),
    {
        let key = self.order[i];
        assert(self.order@.contains(key));
        key
    }

    /// The running job of `key`, if there is one.
    pub fn job(&self, key: usize) -> (job: Option<&QueryJob>)
        ensures
            match job {
                Some(job) => self.active().contains_key(key) && *job == self.active()[key],
                None => !self.active().contains_key(key),
            },
    {
        self.active.get(&key)
    }

    /// How many job identities have been given out.
    pub fn jobs_started(&self) -> (n: u64)
        ensures
            n == self.jobs(),
    {
        self.jobs
    }

    /// Whether a job is running for `key`.
    pub fn is_active(&self, key: usize) -> (running: bool)
        ensures
            running == self.active().contains_key(key),
    {
        self.active.contains_key(&key)
    }

    /// The job that is running innermost, if any.
    pub fn current_query_job(&self) -> (job: Option<QueryJobId>)
        requires
            self.wf(),
        ensures
            job == self.current(),
    {
        let n = self.order.len();
        if n == 0 {
            None
        } else {
            let key = self.order[n - 1];
            assert(self.order@.contains(key));
            match self.active.get(&key) {
                Some(job) => Some(job.id),
                None => {
                    assert(false);
                    None
                },
            }
        }
    }

    /// Appends to `jobs` a report entry for every running job, in the order
    /// in which the jobs were started.
    pub fn try_collect_active_jobs(&self, dep_kind: u16, jobs: &mut Vec<QueryJobInfo>) -> (done:
        Option<()>)
        requires
            self.wf(),
        ensures
            done is Some,
            final(jobs)@ == old(jobs)@ + self.stack(dep_kind),
    {
        let mut i: usize = 0;
        while i < self.order.len()
            invariant
                self.wf(),
                i <= self.order@.len(),
                jobs@ == old(jobs)@ + self.stack(dep_kind).take(i as int),
            decreases self.order@.len() - i,
        {
            let key = self.order[i];
            assert(self.order@.contains(key));
            match self.active.get(&key) {
                Some(job) => {
                    jobs.push(
                        QueryJobInfo {
                            query: QueryStackFrame { dep_kind, key },
                            id: job.id,
                            span: job.span,
                            parent: job.parent,
                        },
                    );
                },
                None => {
                    assert(false);
                },
            }
            proof {
                let stack = self.stack(dep_kind);
                assert(stack.take(i as int + 1) =~= stack.take(i as int).push(stack[i as int]));
                assert(jobs@ =~= old(jobs)@ + stack.take(i as int + 1));
            }
            i += 1;
        }
        proof {
            let stack = self.stack(dep_kind);
            assert(stack.take(i as int) =~= stack);
        }
        Some(())
    }
}

/// Whether `after` holds the running jobs of `before` unchanged, but for
/// the job of `key`.
pub open spec fn same_jobs_but(before: &QueryState, after: &QueryState, key: usize) -> bool {
    forall|k: usize|
        k != key ==> (#[trigger] after.active().contains_key(k) == before.active().contains_key(k))
            && (before.active().contains_key(k) ==> after.active()[k] == before.active()[k])
}

/// Whether `after` is `before` with the job of `key` taken out.
pub open spec fn job_removed(before: &QueryState, after: &QueryState, key: usize) -> bool {
    &&& after.active() == before.active().remove(key)
    &&& after.order() == before.order().remove(before.order().index_of(key))
    &&& after.jobs() == before.jobs()
    &&& after.is_parallel() == before.is_parallel()
}

/// Removing one element of a sequence without repetitions leaves the others,
/// each once.
pub proof fn lemma_remove_key(order: Seq<usize>, key: usize)
    requires
        order.no_duplicates(),
        order.contains(key),
    ensures
        0 <= order.index_of(key) < order.len(),
        order[order.index_of(key)] == key,
        order.remove(order.index_of(key)).no_duplicates(),
        forall|k: usize|
            order.remove(order.index_of(key)).contains(k) <==> (order.contains(k) && k != key),
        order.index_of(key) == order.len() - 1 ==> order.remove(order.index_of(key))
            == order.drop_last(),
{
    let at = order.index_of(key);
    let rest = order.remove(at);
    assert forall|k: usize| rest.contains(k) <==> (order.contains(k) && k != key) by {
        if rest.contains(k) {
            let j = choose|j: int| 0 <= j < rest.len() && rest[j] == k;
            if j < at {
                assert(order[j] == k);
            } else {
                assert(order[j + 1] == k);
            }
        }
        if order.contains(k) && k != key {
            let j = choose|j: int| 0 <= j < order.len() && order[j] == k;
            if j < at {
                assert(rest[j] == k);
            } else {
                assert(rest[j - 1] == k);
            }
        }
    }
    if at == order.len() - 1 {
        assert(rest =~= order.drop_last());
    }
}

/// The invariant survives taking a job out: any job under parallel
/// scheduling, the innermost one under cooperative scheduling.
pub proof fn lemma_table_remove(
    active: Map<usize, QueryJob>,
    order: Seq<usize>,
    jobs: u64,
    parallel: bool,
    key: usize,
)
    requires
        table_wf(active, order, jobs, parallel),
        active.contains_key(key),
        !parallel ==> order.len() > 0 && order.last() == key,
    ensures
        table_wf(active.remove(key), order.remove(order.index_of(key)), jobs, parallel),
{
    assert(order.contains(key));
    lemma_remove_key(order, key);
    let at = order.index_of(key);
    let rest = order.remove(at);
    let left = active.remove(key);
    assert forall|k: usize| rest.contains(k) <==> left.contains_key(k) by {
        assert(rest.contains(k) <==> (order.contains(k) && k != key));
        assert(order.contains(k) <==> active.contains_key(k));
    }
    assert forall|i: int| 0 <= i < rest.len() implies id_at(left, rest, i) == id_at(
        active,
        order,
        if i < at {
            i
        } else {
            i + 1
        },
    ) by {
        assert(rest.contains(rest[i]));
    }
    assert forall|i: int| 0 <= i < rest.len() implies 1 <= (#[trigger] id_at(left, rest, i)).0
        <= jobs by {
        let oi = if i < at {
            i
        } else {
            i + 1
        };
        assert(1 <= id_at(active, order, oi).0 <= jobs);
    }
    assert forall|i: int, j: int| 0 <= i < j < rest.len() implies #[trigger] id_at(left, rest, i)
        != #[trigger] id_at(left, rest, j) by {
        let oi = if i < at {
            i
        } else {
            i + 1
        };
        let oj = if j < at {
            j
        } else {
            j + 1
        };
        assert(id_at(active, order, oi) != id_at(active, order, oj));
    }
    if !parallel {
        assert(at == order.len() - 1);
        assert forall|i: int| 0 <= i < rest.len() implies #[trigger] linked_at(left, rest, i) by {
            assert(linked_at(active, order, i));
            assert(rest.contains(rest[i]));
            if i > 0 {
                assert(rest.contains(rest[i - 1]));
            }
        }
    }
}

/// The invariant survives entering a new job that carries the next identity
/// and, under cooperative scheduling, names the innermost job as its parent.
pub proof fn lemma_table_push(
    active: Map<usize, QueryJob>,
    order: Seq<usize>,
    jobs: u64,
    parallel: bool,
    key: usize,
    job: QueryJob,
)
    requires
        table_wf(active, order, jobs, parallel),
        !active.contains_key(key),
        jobs < u64::MAX,
        job.id == QueryJobId((jobs + 1) as u64),
        job.waiters@.len() == 0,
        !parallel ==> job.parent == (if order.len() == 0 {
            None
        } else {
            Some(active[order.last()].id)
        }),
    ensures
        table_wf(active.insert(key, job), order.push(key), (jobs + 1) as u64, parallel),
{
    let now = order.push(key);
    let more = active.insert(key, job);
    assert(!order.contains(key));
    assert forall|k: usize| now.contains(k) <==> more.contains_key(k) by {
        if k == key {
            assert(now[order.len() as int] == key);
        } else if order.contains(k) {
            let i = choose|i: int| 0 <= i < order.len() && order[i] == k;
            assert(now[i] == k);
        }
    }
    assert forall|i: int| 0 <= i < order.len() implies id_at(more, now, i) == id_at(
        active,
        order,
        i,
    ) by {
        assert(order.contains(order[i]));
    }
    assert forall|i: int| 0 <= i < now.len() implies 1 <= (#[trigger] id_at(more, now, i)).0 <= jobs
        + 1 by {
        if i < order.len() {
            assert(1 <= id_at(active, order, i).0 <= jobs);
        }
    }
    assert forall|i: int, j: int| 0 <= i < j < now.len() implies #[trigger] id_at(more, now, i)
        != #[trigger] id_at(more, now, j) by {
        assert(1 <= id_at(active, order, i).0 <= jobs);
        if j < order.len() {
            assert(id_at(active, order, i) != id_at(active, order, j));
        }
    }
    if !parallel {
        assert forall|i: int| 0 <= i < now.len() implies #[trigger] linked_at(more, now, i) by {
            if i < order.len() {
                assert(linked_at(active, order, i));
                assert(order.contains(order[i]));
                if i > 0 {
                    assert(order.contains(order[i - 1]));
                }
            } else if i > 0 {
                assert(order.contains(order[i - 1]));
                assert(id_at(more, now, i - 1) == id_at(active, order, i - 1));
            }
        }
    }
}

/// Under parallel scheduling the invariant survives replacing a running job
/// by one of the same identity.
pub proof fn lemma_table_park(
    active: Map<usize, QueryJob>,
    order: Seq<usize>,
    jobs: u64,
    key: usize,
    job: QueryJob,
)
    requires
        table_wf(active, order, jobs, true),
        active.contains_key(key),
        job.id == active[key].id,
    ensures
        table_wf(active.insert(key, job), order, jobs, true),
{
    let more = active.insert(key, job);
    assert forall|i: int| 0 <= i < order.len() implies id_at(more, order, i) == id_at(
        active,
        order,
        i,
    ) by {}
    assert forall|i: int| 0 <= i < order.len() implies 1 <= (#[trigger] id_at(more, order, i)).0
        <= jobs by {
        assert(1 <= id_at(active, order, i).0 <= jobs);
    }
    assert forall|i: int, j: int| 0 <= i < j < order.len() implies #[trigger] id_at(more, order, i)
        != #[trigger] id_at(more, order, j) by {
        assert(id_at(active, order, i) != id_at(active, order, j));
    }
}

/// Under cooperative scheduling the running jobs, as a report lists them,
/// form a stack.
pub proof fn lemma_stack_is_job_stack(state: &QueryState, dep_kind: u16)
    requires
        state.wf(),
        !state.is_parallel(),
    ensures
        is_job_stack(state.stack(dep_kind)),
{
    let stack = state.stack(dep_kind);
    let active = state.active();
    let order = state.order();
    assert forall|i: int| 0 <= i < stack.len() implies (#[trigger] stack[i]).parent == parent_at(
        stack,
        i,
    ) by {
        assert(linked_at(active, order, i));
    }
    assert forall|i: int, j: int| 0 <= i < j < stack.len() implies (#[trigger] stack[i]).id != (
    #[trigger] stack[j]).id by {
        assert(id_at(active, order, i) != id_at(active, order, j));
    }
}

/// The job of a running key stands in the report at the key's position in
/// the start order.
pub proof fn lemma_position(state: &QueryState, dep_kind: u16, key: usize)
    requires
        state.wf(),
        state.active().contains_key(key),
    ensures
        0 <= state.order().index_of(key) < state.order().len(),
        state.order()[state.order().index_of(key)] == key,
        position_of(state.stack(dep_kind), state.active()[key].id) == state.order().index_of(key),
{
    let stack = state.stack(dep_kind);
    let active = state.active();
    let order = state.order();
    let id = active[key].id;
    assert(order.contains(key));
    let at = order.index_of(key);
    assert(stack[at].id == id);
    let p = position_of(stack, id);
    assert(0 <= p < stack.len() && stack[p].id == id);
    if p < at {
        assert(id_at(active, order, p) != id_at(active, order, at));
    } else if at < p {
        assert(id_at(active, order, at) != id_at(active, order, p));
    }
}

/// Whether a request for the running `key` on behalf of `current` would
/// make the requester wait for itself: the job of `key` waits, directly or
/// through others, for the job `current`.
pub open spec fn closes_wait_cycle(state: &QueryState, current: Option<QueryJobId>, key: usize) -> bool {
    current matches Some(requester) && wait_chain(state, key, requester, state.order().len())
        is Some
}

/// What holds after a request to start the job of `key`, made on behalf of
/// the running job `current` at `span`, was answered with `got`.
///
/// A key without a running job gets a new one under the next identity, and
/// the requester owns it; where no identity is left nothing changes. A key
/// with a running job keeps it: under cooperative scheduling the answer is
/// the cycle from that job up to the innermost one; under parallel
/// scheduling the requester is added to those parked on the job, unless
/// the job waits for the requester, which is answered with the chain of
/// waiting as a cycle.
pub open spec fn try_started(
    before: &QueryState,
    after: &QueryState,
    current: Option<QueryJobId>,
    span: Span,
    key: usize,
    dep_kind: u16,
    got: TryGetJob,
) -> bool {
    &&& after.wf()
    &&& after.is_parallel() == before.is_parallel()
    &&& same_jobs_but(before, after, key)
    &&& match got {
        TryGetJob::NotYetStarted(owner) => {
            &&& !before.active().contains_key(key)
            &&& before.jobs() < u64::MAX
            &&& after.jobs() == before.jobs() + 1
            &&& after.order() == before.order().push(key)
            &&& after.owns(&owner)
            &&& owner.key_spec() == key
            &&& owner.id_spec() == QueryJobId((before.jobs() + 1) as u64)
            &&& after.active()[key].span == span
            &&& after.active()[key].parent == current
            &&& after.active()[key].waiters@ == Seq::<QueryWaiter>::empty()
        },
        TryGetJob::Exhausted => {
            &&& !before.active().contains_key(key)
            &&& before.jobs() == u64::MAX
            &&& *after == *before
        },
        TryGetJob::Cycle(error) => {
            &&& before.active().contains_key(key)
            &&& *after == *before
            &&& if before.is_parallel() {
                &&& closes_wait_cycle(before, current, key)
                &&& error.cycle@ == chain_report(
                    before,
                    wait_chain(before, key, current->0, before.order().len())->0,
                    span,
                    dep_kind,
                )
                &&& error.usage is None
            } else {
                &&& error.cycle@ == cycle_from(
                    before.stack(dep_kind),
                    before.order().index_of(key),
                    span,
                )
                &&& error.usage == usage_of(before.stack(dep_kind), before.order().index_of(key))
            }
        },
        TryGetJob::Parked(id) => {
            &&& before.active().contains_key(key)
            &&& before.is_parallel()
            &&& !closes_wait_cycle(before, current, key)
            &&& after.order() == before.order()
            &&& after.jobs() == before.jobs()
            &&& after.active().contains_key(key)
            &&& id == before.active()[key].id
            &&& after.active()[key].id == id
            &&& after.active()[key].span == before.active()[key].span
            &&& after.active()[key].parent == before.active()[key].parent
            &&& after.active()[key].waiters@ == before.active()[key].waiters@.push(
                QueryWaiter { query: current, span },
            )
        },
    }
}

impl QueryState {
    /// Takes the job of `key` out of the table and hands its parked waiters
    /// out.
    fn remove_job(&mut self, key: usize) -> (waiters: Vec<QueryWaiter>)
        requires
            old(self).wf(),
            old(self).active().contains_key(key),
            !old(self).is_parallel() ==> old(self).order().last() == key,
        ensures
            final(self).wf(),
            job_removed(old(self), final(self), key),
            waiters@ == old(self).active()[key].waiters@,
    {
        proof {
            assert(self.order@.contains(key));
            lemma_remove_key(self.order@, key);
            lemma_table_remove(self.active@, self.order@, self.jobs, self.parallel, key);
        }
        let mut at: usize = 0;
        while self.order[at] != key
            invariant
                self.order == old(self).order,
                self.order@.no_duplicates(),
                0 <= at <= self.order@.index_of(key) < self.order@.len(),
                self.order@[self.order@.index_of(key)] == key,
            decreases self.order@.len() - at,
        {
            assert(at < self.order@.index_of(key));
            assert(self.order@.len() == self.order.len());
            at += 1;
        }
        self.order.remove(at);
        let job = self.active.remove(&key);
        match job {
            Some(job) => job.waiters,
            None => {
                assert(false);
                Vec::new()
            },
        }
    }

    /// Parks a waiter on the running job of `key`.
    fn park(&mut self, key: usize, waiter: QueryWaiter) -> (id: QueryJobId)
        requires
            old(self).wf(),
            old(self).is_parallel(),
            old(self).active().contains_key(key),
        ensures
            final(self).wf(),
            final(self).is_parallel(),
            same_jobs_but(old(self), final(self), key),
            final(self).order() == old(self).order(),
            final(self).jobs() == old(self).jobs(),
            final(self).active().contains_key(key),
            id == old(self).active()[key].id,
            final(self).active()[key].id == id,
            final(self).active()[key].span == old(self).active()[key].span,
            final(self).active()[key].parent == old(self).active()[key].parent,
            final(self).active()[key].waiters@ == old(self).active()[key].waiters@.push(waiter),
    {
        let job = self.active.remove(&key);
        match job {
            Some(mut job) => {
                let id = job.id;
                job.waiters.push(waiter);
                proof {
                    lemma_table_park(old(self).active@, self.order@, self.jobs, key, job);
                    assert(self.active@.insert(key, job) =~= old(self).active@.insert(key, job));
                }
                self.active.insert(key, job);
                id
            },
            None => {
                assert(false);
                QueryJobId(0)
            },
        }
    }

    /// Enters a new job for `key` under the next identity.
    fn enter(&mut self, key: usize, span: Span, parent: Option<QueryJobId>) -> (id: QueryJobId)
        requires
            old(self).wf(),
            !old(self).active().contains_key(key),
            old(self).jobs() < u64::MAX,
            !old(self).is_parallel() ==> parent == old(self).current(),
        ensures
            final(self).wf(),
            final(self).is_parallel() == old(self).is_parallel(),
            same_jobs_but(old(self), final(self), key),
            final(self).jobs() == old(self).jobs() + 1,
            final(self).order() == old(self).order().push(key),
            final(self).active().contains_key(key),
            id == QueryJobId((old(self).jobs() + 1) as u64),
            final(self).active()[key].id == id,
            final(self).active()[key].span == span,
            final(self).active()[key].parent == parent,
            final(self).active()[key].waiters@ == Seq::<QueryWaiter>::empty(),
    {
        let id = QueryJobId(self.jobs + 1);
        let job = QueryJob::new(id, span, parent);
        proof {
            lemma_table_push(self.active@, self.order@, self.jobs, self.parallel, key, job);
        }
        self.jobs = self.jobs + 1;
        self.active.insert(key, job);
        self.order.push(key);
        id
    }

    /// The cycle that a request for the running `key` closes.
    fn cycle_on(&self, key: usize, span: Span, dep_kind: u16) -> (error: CycleError)
        requires
            self.wf(),
            !self.is_parallel(),
            self.active().contains_key(key),
        ensures
            error.cycle@ == cycle_from(self.stack(dep_kind), self.order().index_of(key), span),
            error.usage == usage_of(self.stack(dep_kind), self.order().index_of(key)),
            error.cycle@.len() >= 1,
    {
        let id = match self.active.get(&key) {
            Some(job) => job.id,
            None => {
                assert(false);
                QueryJobId(0)
            },
        };
        let mut jobs: Vec<QueryJobInfo> = Vec::new();
        self.try_collect_active_jobs(dep_kind, &mut jobs);
        proof {
            assert(jobs@ =~= self.stack(dep_kind));
            lemma_stack_is_job_stack(self, dep_kind);
            lemma_position(self, dep_kind, key);
            let at = self.order().index_of(key);
            assert(jobs@[at].id == id);
        }
        id.find_cycle_in_stack(&jobs, span)
    }
}

impl JobOwner {
    /// Asks to start the job of `key` on behalf of the running job `current`,
    /// at `span`.
    ///
    /// Where no job is running for the key, a new one is entered and the
    /// requester becomes its owner. Where one is running, the request joins
    /// it: under cooperative scheduling it closes a cycle, which is reported
    /// from the job of `key` up to the innermost job; under parallel
    /// scheduling the requester is parked on the job, unless that job waits
    /// for the requester's own, which is reported as a cycle.
    pub fn try_start(
        state: &mut QueryState,
        current: Option<QueryJobId>,
        span: Span,
        key: usize,
        dep_kind: u16,
    ) -> (got: TryGetJob)
        requires
            old(state).wf(),
            !old(state).is_parallel() ==> current == old(state).current(),
        ensures
            try_started(old(state), final(state), current, span, key, dep_kind, got),
    {
        if state.active.contains_key(&key) {
            if state.parallel {
                let cycle = match current {
                    Some(requester) => find_wait_cycle(state, key, requester, span, dep_kind),
                    None => None,
                };
                match cycle {
                    Some(error) => TryGetJob::Cycle(error),
                    None => {
                        let id = state.park(key, QueryWaiter { query: current, span });
                        TryGetJob::Parked(id)
                    },
                }
            } else {
                TryGetJob::Cycle(state.cycle_on(key, span, dep_kind))
            }
        } else if state.jobs == u64::MAX {
            TryGetJob::Exhausted
        } else {
            let id = state.enter(key, span, current);
            TryGetJob::NotYetStarted(JobOwner { key, id })
        }
    }

    /// Ends the job with a result: the job leaves the table, the result
    /// enters the cache under the job's key, and those parked on the job are
    /// handed out to be told that it completed.
    pub fn complete<C: QueryCache>(
        self,
        state: &mut QueryState,
        cache: &mut C,
        result: C::Value,
        dep_node_index: DepNodeIndex,
    ) -> (done: (C::Stored, Released))
        requires
            old(state).wf(),
            old(cache).wf(),
            old(state).owns(&self),
            !old(state).is_parallel() ==> old(state).order().last() == self.key_spec(),
        ensures
            final(state).wf(),
            final(cache).wf(),
            job_removed(old(state), final(state), self.key_spec()),
            final(cache).entries() == old(cache).entries().insert(
                self.key_spec(),
                (result, dep_node_index),
            ),
            final(cache).valid(done.0),
            final(cache).resolve(done.0) == result,
            forall|s: C::Stored| #[trigger]
                old(cache).valid(s) ==> final(cache).valid(s) && final(cache).resolve(s) == old(
                    cache,
                ).resolve(s),
            done.1.signal == JobSignal::Completed,
            done.1.waiters@ == old(state).active()[self.key_spec()].waiters@,
    {
        let waiters = state.remove_job(self.key);
        let stored = cache.complete(self.key, result, dep_node_index);
        (stored, Released { signal: JobSignal::Completed, waiters })
    }

    /// Abandons the job: it leaves the table without a result, so that a
    /// later request for the key starts afresh, and those parked on the job
    /// are handed out to be told that it was poisoned.
    pub fn poison(self, state: &mut QueryState) -> (released: Released)
        requires
            old(state).wf(),
            old(state).owns(&self),
            !old(state).is_parallel() ==> old(state).order().last() == self.key_spec(),
        ensures
            final(state).wf(),
            job_removed(old(state), final(state), self.key_spec()),
            released.signal == JobSignal::Poisoned,
            released.waiters@ == old(state).active()[self.key_spec()].waiters@,
    {
        let waiters = state.remove_job(self.key);
        Released { signal: JobSignal::Poisoned, waiters }
    }
}

/// While the job of a key is running, a request for the key never yields
/// a second owner. Under cooperative scheduling it closes a cycle. Under
/// parallel scheduling it is parked on the job, unless the job waits for
/// the requester, which is a cycle too.
pub proof fn lemma_running_key_has_one_owner(
    before: &QueryState,
    after: &QueryState,
    current: Option<QueryJobId>,
    span: Span,
    key: usize,
    dep_kind: u16,
    got: TryGetJob,
)
    requires
        before.active().contains_key(key),
        try_started(before, after, current, span, key, dep_kind, got),
    ensures
        !(got is NotYetStarted),
        before.is_parallel() && !closes_wait_cycle(before, current, key) ==> got is Parked
            && got->Parked_0 == before.active()[key].id,
        !before.is_parallel() || closes_wait_cycle(before, current, key) ==> got is Cycle,
        after.active().contains_key(key),
        after.active()[key].id == before.active()[key].id,
{
}

/// Whether `answers` are the answers to successive requests for `key` that
/// took the table from `states[0]` through to the last of `states`, the
/// request number `i` made on behalf of `currents[i]` at `spans[i]`.
pub open spec fn requests_answered(
    states: Seq<QueryState>,
    answers: Seq<TryGetJob>,
    currents: Seq<Option<QueryJobId>>,
    spans: Seq<Span>,
    key: usize,
    dep_kind: u16,
) -> bool {
    &&& states.len() == answers.len() + 1
    &&& currents.len() == answers.len()
    &&& spans.len() == answers.len()
    &&& forall|i: int|
        0 <= i < answers.len() ==> try_started(
            &states[i],
            &states[i + 1],
            currents[i],
            spans[i],
            key,
            dep_kind,
            #[trigger] answers[i],
        )
}

/// Of any number of requests for one key that reach a table under parallel
/// scheduling before the key's job ends, the first alone becomes the owner.
/// Each later one, made on behalf of no running job, is parked on the
/// owner's job, in the order of arrival.
pub proof fn lemma_one_owner_among_requests(
    states: Seq<QueryState>,
    answers: Seq<TryGetJob>,
    currents: Seq<Option<QueryJobId>>,
    spans: Seq<Span>,
    key: usize,
    dep_kind: u16,
    n: int,
)
    requires
        requests_answered(states, answers, currents, spans, key, dep_kind),
        1 <= n <= answers.len(),
        states[0].wf(),
        states[0].is_parallel(),
        !states[0].active().contains_key(key),
        states[0].jobs() < u64::MAX,
        forall|i: int| 1 <= i < answers.len() ==> currents[i] is None,
    ensures
        answers[0] is NotYetStarted,
        forall|i: int|
            1 <= i < n ==> (#[trigger] answers[i]) is Parked && answers[i]->Parked_0
                == answers[0]->NotYetStarted_0.id_spec(),
        states[n].wf(),
        states[n].is_parallel(),
        states[n].active().contains_key(key),
        states[n].active()[key].id == answers[0]->NotYetStarted_0.id_spec(),
        states[n].active()[key].waiters@.len() == n - 1,
        forall|i: int|
            1 <= i < n ==> states[n].active()[key].waiters@[i - 1] == (QueryWaiter {
                query: currents[i],
                span: spans[i],
            }),
    decreases n,
{
    if n == 1 {
        let got = answers[0];
        assert(try_started(&states[0], &states[1], currents[0], spans[0], key, dep_kind, got));
    } else {
        lemma_one_owner_among_requests(states, answers, currents, spans, key, dep_kind, n - 1);
        let got = answers[n - 1];
        assert(try_started(
            &states[n - 1],
            &states[n - 1 + 1],
            currents[n - 1],
            spans[n - 1],
            key,
            dep_kind,
            got,
        ));
    }
}

/// Poisoning leaves the key free: the next request for it starts a fresh
/// job, under an identity that was not used before.
pub proof fn lemma_poisoned_key_can_be_retried(
    running: &QueryState,
    poisoned: &QueryState,
    retried: &QueryState,
    owner: &JobOwner,
    current: Option<QueryJobId>,
    span: Span,
    dep_kind: u16,
    got: TryGetJob,
)
    requires
        running.wf(),
        running.owns(owner),
        job_removed(running, poisoned, owner.key_spec()),
        poisoned.jobs() < u64::MAX,
        try_started(poisoned, retried, current, span, owner.key_spec(), dep_kind, got),
    ensures
        !poisoned.active().contains_key(owner.key_spec()),
        got is NotYetStarted,
        got->NotYetStarted_0.id_spec() != owner.id_spec(),
{
    let key = owner.key_spec();
    assert(running.order().contains(key));
    let at = running.order().index_of(key);
    assert(1 <= id_at(running.active(), running.order(), at).0 <= running.jobs());
}

/// What holds of what a requester that was parked on the job of `key`
/// obtained from `cache` after it was told `signal`.
pub open spec fn waited<C: QueryCache>(
    cache: &C,
    key: usize,
    signal: JobSignal,
    found: Result<(C::Stored, DepNodeIndex), QueryError>,
) -> bool {
    match found {
        Ok((stored, index)) => {
            &&& signal == JobSignal::Completed
            &&& cache.entries().contains_key(key)
            &&& cache.valid(stored)
            &&& cache.resolve(stored) == cache.entries()[key].0
            &&& index == cache.entries()[key].1
        },
        Err(e) => e == (QueryError::Poisoned { key }) && (signal == JobSignal::Poisoned
            || !cache.entries().contains_key(key)),
    }
}

/// Everyone parked on a job that completed with `result` obtains `result`,
/// as long as the entry of the key stays in the cache; everyone parked on a
/// job that was poisoned fails.
pub proof fn lemma_parked_requesters_share_the_outcome<C: QueryCache>(
    cache: &C,
    key: usize,
    result: C::Value,
    index: DepNodeIndex,
    signal: JobSignal,
    found: Result<(C::Stored, DepNodeIndex), QueryError>,
)
    requires
        waited(cache, key, signal, found),
        signal == JobSignal::Completed ==> cache.entries().contains_key(key)
            && cache.entries()[key] == (result, index),
    ensures
        signal == JobSignal::Completed ==> found is Ok && cache.resolve((found->Ok_0).0) == result
            && (found->Ok_0).1 == index,
        signal == JobSignal::Poisoned ==> found is Err && found->Err_0 == (QueryError::Poisoned {
            key,
        }),
{
}

/// What a requester that was parked on the job of `key` obtains once it is
/// told how the job ended: the cached result where the job completed, and
/// a failure where it was poisoned or left no result.
pub fn wait_result<C: QueryCache>(cache: &C, key: usize, signal: JobSignal) -> (found: Result<
    (C::Stored, DepNodeIndex),
    QueryError,
>)
    requires
        cache.wf(),
    ensures
        waited(cache, key, signal, found),
{
    match signal {
        JobSignal::Poisoned => Err(QueryError::Poisoned { key }),
        JobSignal::Completed => match cache.lookup(&key) {
            Some(found) => Ok(found),
            None => Err(QueryError::Poisoned { key }),
        },
    }
}

/// Of any number of requests for one key that reach a table under parallel
/// scheduling before the key's job ends, all but the first are handed out
/// when the owner completes the job, in the order of arrival, and each of
/// them then finds the owner's result in the cache.
pub proof fn lemma_requesters_share_one_result<C: QueryCache>(
    states: Seq<QueryState>,
    answers: Seq<TryGetJob>,
    currents: Seq<Option<QueryJobId>>,
    spans: Seq<Span>,
    key: usize,
    dep_kind: u16,
    completed: &QueryState,
    cache: &C,
    result: C::Value,
    index: DepNodeIndex,
    released: Released,
    found: Result<(C::Stored, DepNodeIndex), QueryError>,
)
    requires
        requests_answered(states, answers, currents, spans, key, dep_kind),
        answers.len() >= 1,
        states[0].wf(),
        states[0].is_parallel(),
        !states[0].active().contains_key(key),
        states[0].jobs() < u64::MAX,
        forall|i: int| 1 <= i < answers.len() ==> currents[i] is None,
        job_removed(&states.last(), completed, key),
        released.signal == JobSignal::Completed,
        released.waiters@ == states.last().active()[key].waiters@,
        cache.entries().contains_key(key),
        cache.entries()[key] == (result, index),
        waited(cache, key, released.signal, found),
    ensures
        answers[0] is NotYetStarted,
        forall|i: int| 1 <= i < answers.len() ==> (#[trigger] answers[i]) is Parked,
        released.waiters@.len() == answers.len() - 1,
        forall|i: int|
            1 <= i < answers.len() ==> released.waiters@[i - 1] == (QueryWaiter {
                query: currents[i],
                span: spans[i],
            }),
        !completed.active().contains_key(key),
        found is Ok,
        cache.resolve((found->Ok_0).0) == result,
{
    lemma_one_owner_among_requests(
        states,
        answers,
        currents,
        spans,
        key,
        dep_kind,
        answers.len() as int,
    );
}

} // verus!
