//! Who waits for whom among running jobs.
//!
//! A running job waits for the job that it asked for and that is still
//! running, and for the job on which the one who runs it is parked. A
//! requester that is parked on a job which, directly or through others,
//! waits for the requester's own job would never be woken. Such a request
//! is found out before the requester is parked, by following the chain of
//! waiting from the job asked for.

use crate::job::{CycleError, QueryInfo, QueryJob, QueryJobId, QueryStackFrame, Span};
use crate::state::QueryState;
use vstd::prelude::*;

verus! {

/// Whether the job `id` waits for `job`: it asked for `job`, or the one who
/// runs it is parked on `job`.
pub open spec fn holds_up(job: QueryJob, id: QueryJobId) -> bool {
    job.parent == Some(id) || exists|i: int|
        0 <= i < job.waiters@.len() && (#[trigger] job.waiters@[i]).query == Some(id)
}

/// The key of the first running job from position `from` of the start
/// order on that the job `id` waits for, if there is one.
pub open spec fn first_held_up(state: &QueryState, id: QueryJobId, from: int) -> Option<usize>
    decreases state.order().len() - from,
{
    if from < 0 || from >= state.order().len() {
        None
    } else if holds_up(state.active()[state.order()[from]], id) {
        Some(state.order()[from])
    } else {
        first_held_up(state, id, from + 1)
    }
}

/// The keys of the jobs along the chain of waiting from the job of `key`
/// to the job `target`: the job of `key`, the job it waits for, and so on.
/// There is no such chain where a job on the way waits for nothing. A chain
/// of more than `fuel` steps is cut off there and counts as reaching the
/// target.
pub open spec fn wait_chain(state: &QueryState, key: usize, target: QueryJobId, fuel: nat) -> Option<
    Seq<usize>,
>
    decreases fuel,
{
    if state.active()[key].id == target || fuel == 0 {
        Some(seq![key])
    } else {
        match first_held_up(state, state.active()[key].id, 0) {
            Some(next) => match wait_chain(state, next, target, (fuel - 1) as nat) {
                Some(rest) => Some(seq![key] + rest),
                None => None,
            },
            None => None,
        }
    }
}

/// The report of a chain of waiting that a request at `span` would close:
/// the queries along the chain, the first with `span` as the place that
/// asked and each other with the place where it was asked for.
pub open spec fn chain_report(state: &QueryState, keys: Seq<usize>, span: Span, dep_kind: u16) -> Seq<
    QueryInfo,
> {
    Seq::new(
        keys.len(),
        |i: int|
            QueryInfo {
                span: if i == 0 {
                    span
                } else {
                    state.active()[keys[i]].span
                },
                query: QueryStackFrame { dep_kind, key: keys[i] },
            },
    )
}

/// Whether the job `id` waits for `job`.
pub fn is_held_up(job: &QueryJob, id: QueryJobId) -> (held: bool)
    ensures
        held == holds_up(*job, id),
{
    match job.parent {
        Some(parent) => {
            if parent.0 == id.0 {
                return true;
            }
        },
        None => {},
    }
    let mut i: usize = 0;
    while i < job.waiters.len()
        invariant
            i <= job.waiters@.len(),
            job.parent != Some(id),
            forall|j: int| 0 <= j < i ==> (#[trigger] job.waiters@[j]).query != Some(id),
        decreases job.waiters@.len() - i,
    {
        match job.waiters[i].query {
            Some(waiting) => {
                if waiting.0 == id.0 {
                    return true;
                }
            },
            None => {},
        }
        i += 1;
    }
    false
}

/// The key of the first running job in start order that the job `id`
/// waits for, if there is one.
pub fn find_held_up(state: &QueryState, id: QueryJobId) -> (found: Option<usize>)
    requires
        state.wf(),
    ensures
        found == first_held_up(state, id, 0),
        found matches Some(key) ==> state.active().contains_key(key),
{
    let mut i: usize = 0;
    while i < state.running()
        invariant
            state.wf(),
            i <= state.order().len(),
            first_held_up(state, id, i as int) == first_held_up(state, id, 0),
        decreases state.order().len() - i,
    {
        let key = state.key_at(i);
        match state.job(key) {
            Some(job) => {
                if is_held_up(job, id) {
                    return Some(key);
                }
            },
            None => {
                assert(false);
            },
        }
        i += 1;
    }
    None
}

/// Looks for the chain of waiting from the running job of `key` to the job
/// `target`, following it for as many steps as there are running jobs, and
/// reports it as the cycle that a request for `key` at `span` on behalf of
/// `target` would close.
pub fn find_wait_cycle(
    state: &QueryState,
    key: usize,
    target: QueryJobId,
    span: Span,
    dep_kind: u16,
) -> (cycle: Option<CycleError>)
    requires
        state.wf(),
        state.active().contains_key(key),
    ensures
        match wait_chain(state, key, target, state.order().len()) {
            Some(keys) => cycle is Some && cycle->0.cycle@ == chain_report(
                state,
                keys,
                span,
                dep_kind,
            ) && cycle->0.usage is None,
            None => cycle is None,
        },
{
    let mut report: Vec<QueryInfo> = Vec::new();
    report.push(QueryInfo { span, query: QueryStackFrame { dep_kind, key } });
    let ghost mut keys: Seq<usize> = seq![key];
    let mut at: usize = key;
    let mut fuel: usize = state.running();
    loop
        invariant
            state.wf(),
            state.active().contains_key(at),
            state.active().contains_key(key),
            keys.len() >= 1,
            keys.last() == at,
            report@ == chain_report(state, keys, span, dep_kind),
            match wait_chain(state, at, target, fuel as nat) {
                Some(rest) => wait_chain(state, key, target, state.order().len()) == Some(
                    keys.drop_last() + rest,
                ),
                None => wait_chain(state, key, target, state.order().len()) is None,
            },
        decreases fuel,
    {
        let id = match state.job(at) {
            Some(job) => job.id,
            None => {
                assert(false);
                target
            },
        };
        if id.0 == target.0 || fuel == 0 {
            assert(keys.drop_last() + seq![at] =~= keys);
            return Some(CycleError { usage: None, cycle: report });
        }
        match find_held_up(state, id) {
            Some(next) => {
                let next_span = match state.job(next) {
                    Some(job) => job.span,
                    None => {
                        assert(false);
                        span
                    },
                };
                report.push(
                    QueryInfo { span: next_span, query: QueryStackFrame { dep_kind, key: next } },
                );
                proof {
                    let longer = keys.push(next);
                    assert(report@ =~= chain_report(state, longer, span, dep_kind));
                    assert forall|rest: Seq<usize>| keys.drop_last() + (seq![at] + rest)
                        == longer.drop_last() + rest by {
                        assert(keys.drop_last() + (seq![at] + rest) =~= longer.drop_last() + rest);
                    }
                    keys = longer;
                }
                at = next;
                fuel = fuel - 1;
            },
            None => {
                return None;
            },
        }
    }
}

} // verus!
