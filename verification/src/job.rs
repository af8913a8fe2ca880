//! Running queries: their identities, the stack they form, and the cycle
//! that is reported when a query asks for its own result.

use vstd::prelude::*;

verus! {

/// A region of source text, given by its two ends.
#[derive(Clone, Copy, Debug, PartialEq, Eq, Structural, Hash)]
pub struct Span {
    pub lo: u32,
    pub hi: u32,
}

/// The span used where no source location applies.
pub open spec fn dummy_span() -> Span {
    Span { lo: 0, hi: 0 }
}

/// The span used where no source location applies.
pub fn dummy_sp() -> (s: Span)
    ensures
        s == dummy_span(),
{
    Span { lo: 0, hi: 0 }
}

/// The span between two ends, whichever of them comes first.
pub open spec fn span_between(a: u32, b: u32) -> Span {
    if a <= b {
        Span { lo: a, hi: b }
    } else {
        Span { lo: b, hi: a }
    }
}

impl Span {
    /// The span with its upper end moved to `hi`.
    pub fn with_hi(self, hi: u32) -> (moved: Span)
        ensures
            moved == span_between(self.lo, hi),
    {
        if self.lo <= hi {
            Span { lo: self.lo, hi }
        } else {
            Span { lo: hi, hi: self.lo }
        }
    }
}

/// Identifies one job among all jobs started in a session.
#[derive(Clone, Copy, Debug, PartialEq, Eq, Structural, Hash)]
pub struct QueryJobId(pub u64);

/// Describes a query instance for reports: its kind and its key.
#[derive(Clone, Copy, Debug, PartialEq, Eq, Structural, Hash)]
pub struct QueryStackFrame {
    pub dep_kind: u16,
    pub key: usize,
}

/// One entry of a cycle report: a query and the place that asked for it.
#[derive(Clone, Copy, Debug, PartialEq, Eq, Structural, Hash)]
pub struct QueryInfo {
    pub span: Span,
    pub query: QueryStackFrame,
}

/// Someone parked on a running job: the job that asked, if any, and where.
#[derive(Clone, Copy, Debug, PartialEq, Eq, Structural, Hash)]
pub struct QueryWaiter {
    pub query: Option<QueryJobId>,
    pub span: Span,
}

/// A running computation of one query instance.
#[derive(Debug)]
pub struct QueryJob {
    pub id: QueryJobId,
    /// Where the query was asked for.
    pub span: Span,
    /// The job that asked for it, if any.
    pub parent: Option<QueryJobId>,
    /// Those parked until this job ends.
    pub waiters: Vec<QueryWaiter>,
}

impl QueryJob {
    /// A job that nobody waits for yet.
    pub fn new(id: QueryJobId, span: Span, parent: Option<QueryJobId>) -> (job: QueryJob)
        ensures
            job.id == id,
            job.span == span,
            job.parent == parent,
            job.waiters@ == Seq::<QueryWaiter>::empty(),
    {
        QueryJob { id, span, parent, waiters: Vec::new() }
    }
}

/// What a report needs to know of a running job.
#[derive(Clone, Copy, Debug, PartialEq, Eq, Structural, Hash)]
pub struct QueryJobInfo {
    pub query: QueryStackFrame,
    pub id: QueryJobId,
    pub span: Span,
    pub parent: Option<QueryJobId>,
}

/// A cycle among running queries.
#[derive(Debug)]
pub struct CycleError {
    /// The query that used the cycle from outside, and where, if there is one.
    pub usage: Option<(Span, QueryStackFrame)>,
    /// The queries of the cycle, each with the place that asked for it,
    /// starting at the query that was asked for twice.
    pub cycle: Vec<QueryInfo>,
}

/// Whether `jobs` is a stack of running jobs: the first was asked for from
/// outside, each later one by the job below it, and no identity occurs twice.
pub open spec fn is_job_stack(jobs: Seq<QueryJobInfo>) -> bool {
    &&& forall|i: int| 0 <= i < jobs.len() ==> (#[trigger] jobs[i]).parent == parent_at(jobs, i)
    &&& forall|i: int, j: int|
        0 <= i < j < jobs.len() ==> (#[trigger] jobs[i]).id != (#[trigger] jobs[j]).id
}

/// The parent that the job at position `i` of a stack must name.
pub open spec fn parent_at(jobs: Seq<QueryJobInfo>, i: int) -> Option<QueryJobId> {
    if i == 0 {
        None
    } else {
        Some(jobs[i - 1].id)
    }
}

/// The cycle closed when the job at position `at` of the stack `jobs` is
/// asked for again at `span`: the jobs from `at` to the top, the first with
/// `span` as the place that asked.
pub open spec fn cycle_from(jobs: Seq<QueryJobInfo>, at: int, span: Span) -> Seq<QueryInfo> {
    Seq::new(
        (jobs.len() - at) as nat,
        |j: int|
            QueryInfo {
                span: if j == 0 {
                    span
                } else {
                    jobs[at + j].span
                },
                query: jobs[at + j].query,
            },
    )
}

/// Who used the cycle that starts at position `at`: the job below it.
pub open spec fn usage_of(jobs: Seq<QueryJobInfo>, at: int) -> Option<(Span, QueryStackFrame)> {
    if at == 0 {
        None
    } else {
        Some((jobs[at].span, jobs[at - 1].query))
    }
}

/// The position of the job with identity `id` in `jobs`.
pub open spec fn position_of(jobs: Seq<QueryJobInfo>, id: QueryJobId) -> int {
    choose|i: int| 0 <= i < jobs.len() && jobs[i].id == id
}

impl QueryJobId {
    /// Reports the cycle that is closed when the running job `self` is asked
    /// for again at `span` by the job on top of the stack `jobs`.
    ///
    /// The report lists every job from `self` up to the top of the stack.
    pub fn find_cycle_in_stack(&self, jobs: &Vec<QueryJobInfo>, span: Span) -> (error: CycleError)
        requires
            is_job_stack(jobs@),
            exists|i: int| 0 <= i < jobs@.len() && jobs@[i].id == *self,
        ensures
            error.cycle@ == cycle_from(jobs@, position_of(jobs@, *self), span),
            error.usage == usage_of(jobs@, position_of(jobs@, *self)),
            error.cycle@.len() >= 1,
    {
        let ghost at = position_of(jobs@, *self);
        let mut top: usize = jobs.len() - 1;
        while jobs[top].id.0 != self.0
            invariant
                is_job_stack(jobs@),
                0 <= at <= top < jobs@.len(),
                jobs@[at].id == *self,
            decreases top,
        {
            top -= 1;
        }
        assert(top == at);
        let mut cycle: Vec<QueryInfo> = Vec::new();
        cycle.push(QueryInfo { span, query: jobs[top].query });
        let mut i: usize = top + 1;
        while i < jobs.len()
            invariant
                top == at,
                top < i <= jobs@.len(),
                cycle@.len() == i - top,
                forall|j: int|
                    0 <= j < cycle@.len() ==> cycle@[j] == cycle_from(jobs@, at, span)[j],
            decreases jobs@.len() - i,
        {
            cycle.push(QueryInfo { span: jobs[i].span, query: jobs[i].query });
            i += 1;
        }
        assert(cycle@ =~= cycle_from(jobs@, at, span));
        let usage = if top == 0 {
            None
        } else {
            Some((jobs[top].span, jobs[top - 1].query))
        };
        CycleError { usage, cycle }
    }
}

} // verus!
