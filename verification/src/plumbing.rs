//! The executor: it answers a query from the cache, or becomes the owner of
//! its job and computes it, reusing the result of an earlier session where
//! the dependency graph allows it.

use crate::caches::QueryCache;
use crate::config::{HandleCycleError, IchFailure, QueryError, QueryMode, QueryVTable};
use crate::dep_graph::{DepNode, DepNodeIndex, Fingerprint, SerializedDepNodeIndex};
use crate::job::{
    cycle_from, dummy_sp, dummy_span, usage_of, CycleError, QueryInfo, QueryJobId, Span,
};
use crate::state::{
    job_removed, lemma_position, lemma_remove_key, same_jobs_but, JobOwner, QueryState, TryGetJob,
};
use vstd::prelude::*;

verus! {

/// A message that a provider emitted while it ran.
#[derive(Clone, Copy, Debug, PartialEq, Eq, Structural, Hash)]
pub struct Diagnostic {
    pub code: u32,
    pub span: Span,
}

/// What a computation did besides producing its value.
#[derive(Debug)]
pub struct QuerySideEffects {
    /// The messages emitted, to be replayed when the value is reused.
    pub diagnostics: Vec<Diagnostic>,
}

/// What running a provider as a task of the dependency graph yields.
#[derive(Debug)]
pub struct TaskResult<V> {
    pub value: V,
    /// The provenance stamp that the dependency graph gave the task.
    pub index: DepNodeIndex,
    /// The messages that the provider emitted.
    pub diagnostics: Vec<Diagnostic>,
}

/// How a provider was run.
#[derive(Clone, Copy, Debug, PartialEq, Eq, Structural, Hash)]
pub enum Tracking {
    /// Without recording what it reads.
    Untracked,
    /// As the task of a node of the dependency graph.
    Task(DepNode),
    /// As a task without an identity across sessions, of the given kind.
    Anon(u16),
}

/// One invocation of a provider: for which key, how it was run, and
/// whether under the recursion limit.
#[derive(Clone, Copy, Debug, PartialEq, Eq, Structural, Hash)]
pub struct ProviderCall {
    pub key: usize,
    pub tracking: Tracking,
    pub depth_limit: bool,
}

/// The cache and the job table of one query kind, under cooperative
/// scheduling.
pub struct QueryEngine<C: QueryCache> {
    pub cache: C,
    pub state: QueryState,
    /// Set once a fingerprint mismatch has been reported.
    pub inside_verify_panic: bool,
}

impl<C: QueryCache> QueryEngine<C> {
    /// The invariant of the engine.
    pub open spec fn wf(&self) -> bool {
        &&& self.cache.wf()
        &&& self.state.wf()
        &&& !self.state.is_parallel()
    }

    /// An engine around an empty or refilled cache, with no job running.
    pub fn new(cache: C) -> (engine: Self)
        requires
            cache.wf(),
        ensures
            engine.wf(),
            engine.cache == cache,
            engine.state.active() == Map::<usize, crate::job::QueryJob>::empty(),
            engine.state.order() == Seq::<usize>::empty(),
            engine.state.jobs() == 0,
            !engine.inside_verify_panic,
    {
        QueryEngine { cache, state: QueryState::new(false), inside_verify_panic: false }
    }
}

/// What holds of the engine after any use that leaves no job behind: the
/// running jobs are those that were running, no cache entry was lost, and
/// every stored form handed out earlier still stands for its value.
pub open spec fn engine_kept<C: QueryCache>(before: &QueryEngine<C>, after: &QueryEngine<C>) -> bool {
    &&& after.wf()
    &&& after.state.active() == before.state.active()
    &&& after.state.order() == before.state.order()
    &&& after.state.jobs() >= before.state.jobs()
    &&& forall|k: usize| #[trigger]
        before.cache.entries().contains_key(k) ==> after.cache.entries().contains_key(k)
    &&& forall|s: C::Stored| #[trigger]
        before.cache.valid(s) ==> after.cache.valid(s) && after.cache.resolve(s)
            == before.cache.resolve(s)
}

/// Whether the provider was invoked as `call` says between two records of
/// the invocations: the later record continues the earlier one, first with
/// `call`.
pub open spec fn invoked(before: Seq<ProviderCall>, after: Seq<ProviderCall>, call: ProviderCall) -> bool {
    &&& before.len() < after.len()
    &&& forall|i: int| 0 <= i < before.len() ==> after[i] == before[i]
    &&& after[before.len() as int] == call
}

/// Whether the later of two records of invocations continues the earlier one.
pub open spec fn continues(before: Seq<ProviderCall>, after: Seq<ProviderCall>) -> bool {
    &&& before.len() <= after.len()
    &&& forall|i: int| 0 <= i < before.len() ==> after[i] == before[i]
}

/// The collaborators of the executor, supplied by the surrounding program:
/// the providers, the dependency graph, the on-disk cache of the earlier
/// session, the hashing of results and the diagnostics.
///
/// The contracts below are what the executor relies on; an implementor owes
/// them. A provider receives the engine so that it can ask for further
/// queries; it must leave no job of its own behind. The specification
/// functions say what the collaborators record and what they would answer;
/// an implementation that is verified defines them, and they are left
/// unspecified where it does not.
pub trait QueryContext<C: QueryCache>: Sized {
    /// The invocations of providers, in order.
    open spec fn provider_calls(&self) -> Seq<ProviderCall> {
        arbitrary()
    }

    /// The provenance stamps that were recorded as read, in order.
    open spec fn reads(&self) -> Seq<DepNodeIndex> {
        arbitrary()
    }

    /// The keys for which a value was noted as inconsistent with the one
    /// already recorded, in order.
    open spec fn inconsistencies(&self) -> Seq<usize> {
        arbitrary()
    }

    /// The values that were entered into the dependency graph as fed, in
    /// order: each with its node, its key and its fingerprint, where the
    /// kind hashes its results.
    open spec fn fed_values(&self) -> Seq<(DepNode, usize, C::Value, Option<Fingerprint>)> {
        arbitrary()
    }

    /// The cycles that were reported to the user, in order.
    open spec fn emitted_cycles(&self) -> Seq<Seq<QueryInfo>> {
        arbitrary()
    }

    /// The cycles that were noted as delayed internal errors, in order.
    open spec fn delayed_cycles(&self) -> Seq<Seq<QueryInfo>> {
        arbitrary()
    }

    /// The fingerprint mismatches that were reported to the user, in order,
    /// each with the value that hashed otherwise than recorded.
    open spec fn ich_failures(&self) -> Seq<(IchFailure, C::Value)> {
        arbitrary()
    }

    /// The side effects that were kept, in order: the stamp of the
    /// computation, its messages, and whether it was anonymous.
    open spec fn kept_side_effects(&self) -> Seq<(DepNodeIndex, Seq<Diagnostic>, bool)> {
        arbitrary()
    }

    /// The crate being compiled, where it has a name.
    open spec fn crate_name_spec(&self) -> Option<String> {
        arbitrary()
    }

    /// Whether the dependency graph holds the node green.
    open spec fn green(&self, node: DepNode) -> bool {
        arbitrary()
    }

    /// The fingerprint that the earlier session recorded for the node.
    open spec fn prev_fingerprint(&self, node: DepNode) -> Option<Fingerprint> {
        arbitrary()
    }

    /// Whether dependencies are tracked at all in this session.
    open spec fn fully_enabled(&self) -> bool {
        arbitrary()
    }

    /// Whether every loaded result is to be re-hashed and compared.
    open spec fn verify_ich(&self) -> bool {
        arbitrary()
    }

    /// What an attempt to mark the node green yields: nothing where an input
    /// changed or the node is new, else the node's positions in the earlier
    /// and in the current graph.
    open spec fn marks_green(&self, node: DepNode) -> Option<(SerializedDepNodeIndex, DepNodeIndex)> {
        arbitrary()
    }

    /// The value that the earlier session stored on disk for `key` at the
    /// position `prev_index`, if it can be loaded.
    open spec fn on_disk(&self, key: usize, prev_index: SerializedDepNodeIndex) -> Option<C::Value> {
        arbitrary()
    }

    /// Whether results for `key` are stored on disk for a later session.
    open spec fn caches_on_disk(&self, key: usize) -> bool {
        arbitrary()
    }

    /// Whether the value that the earlier session stored for `key` at the
    /// position `prev_index` can be loaded.
    open spec fn loadable(&self, key: usize, prev_index: SerializedDepNodeIndex) -> bool {
        arbitrary()
    }

    /// The fingerprint of a value.
    open spec fn hash_spec(value: C::Value) -> Fingerprint {
        arbitrary()
    }

    /// The identity across sessions of the query of `dep_kind` for `key`.
    open spec fn dep_node_spec(dep_kind: u16, key: usize) -> DepNode {
        arbitrary()
    }

    /// The placeholder that stands for the result of a query on the cycle.
    open spec fn cycle_value(&self, cycle: Seq<QueryInfo>) -> C::Value {
        arbitrary()
    }

    fn is_fully_enabled(&self) -> (enabled: bool)
        ensures
            enabled == self.fully_enabled(),
    ;

    fn incremental_verify_ich_enabled(&self) -> (enabled: bool)
        ensures
            enabled == self.verify_ich(),
    ;

    fn crate_name(&self) -> (name: Option<String>)
        ensures
            name == self.crate_name_spec(),
    ;

    fn to_dep_node(&self, dep_kind: u16, key: &usize) -> (node: DepNode)
        ensures
            node == Self::dep_node_spec(dep_kind, *key),
    ;

    fn hash_result(&self, value: &C::Value) -> (hash: Fingerprint)
        ensures
            hash == Self::hash_spec(*value),
    ;

    fn cache_on_disk(&self, key: &usize) -> (cached: bool)
        ensures
            cached == self.caches_on_disk(*key),
    ;

    fn loadable_from_disk(&self, key: &usize, prev_index: SerializedDepNodeIndex) -> (loadable:
        bool)
        ensures
            loadable == self.loadable(*key, prev_index),
    ;

    fn is_green(&self, node: &DepNode) -> (green: bool)
        ensures
            green == self.green(*node),
    ;

    fn prev_fingerprint_of(&self, node: &DepNode) -> (recorded: Option<Fingerprint>)
        ensures
            recorded == self.prev_fingerprint(*node),
    ;

    fn value_from_cycle_error(&self, cycle: &Vec<QueryInfo>) -> (value: C::Value)
        ensures
            value == self.cycle_value(cycle@),
    ;

    /// Tries to establish that all inputs of the node are unchanged. On
    /// success the node is green and its positions in the earlier and in the
    /// current graph are returned.
    fn try_mark_green(&mut self, node: &DepNode) -> (marked: Option<
        (SerializedDepNodeIndex, DepNodeIndex),
    >)
        ensures
            final(self).provider_calls() == old(self).provider_calls(),
            final(self).reads() == old(self).reads(),
            marked == old(self).marks_green(*node),
            marked is Some ==> final(self).green(*node),
            forall|k: usize, p: SerializedDepNodeIndex| #[trigger]
                final(self).loadable(k, p) == old(self).loadable(k, p),
            final(self).verify_ich() == old(self).verify_ich(),
            forall|n: DepNode| #[trigger]
                final(self).prev_fingerprint(n) == old(self).prev_fingerprint(n),
            forall|k: usize, p: SerializedDepNodeIndex| #[trigger]
                final(self).on_disk(k, p) == old(self).on_disk(k, p),
    ;

    /// Records that the running query read the result stamped `index`.
    fn read_index(&mut self, index: DepNodeIndex)
        ensures
            final(self).provider_calls() == old(self).provider_calls(),
            final(self).reads() == old(self).reads().push(index),
            final(self).inconsistencies() == old(self).inconsistencies(),
            final(self).fed_values() == old(self).fed_values(),
            forall|k: usize, p: SerializedDepNodeIndex| #[trigger]
                final(self).loadable(k, p) == old(self).loadable(k, p),
            forall|n: DepNode| final(self).green(n) == old(self).green(n),
            forall|n: DepNode| final(self).prev_fingerprint(n) == old(self).prev_fingerprint(n),
    ;

    /// A fresh provenance stamp for a computation that is not tracked.
    fn next_virtual_depnode_index(&mut self) -> (index: DepNodeIndex)
        ensures
            final(self).provider_calls() == old(self).provider_calls(),
            final(self).reads() == old(self).reads(),
    ;

    /// Tries to load the value that the earlier session stored for the key.
    fn try_load_from_disk(
        &mut self,
        key: &usize,
        prev_index: SerializedDepNodeIndex,
        index: DepNodeIndex,
    ) -> (loaded: Option<C::Value>)
        ensures
            final(self).provider_calls() == old(self).provider_calls(),
            final(self).reads() == old(self).reads(),
            loaded == old(self).on_disk(*key, prev_index),
            forall|n: DepNode| final(self).green(n) == old(self).green(n),
            final(self).verify_ich() == old(self).verify_ich(),
            forall|n: DepNode| #[trigger]
                final(self).prev_fingerprint(n) == old(self).prev_fingerprint(n),
            forall|k: usize, p: SerializedDepNodeIndex| #[trigger]
                final(self).on_disk(k, p) == old(self).on_disk(k, p),
    ;

    /// Runs the provider for `key` as the job `job`, untracked.
    /// `None` says that the provider abandoned the computation.
    fn compute(
        &mut self,
        engine: &mut QueryEngine<C>,
        job: QueryJobId,
        key: usize,
        depth_limit: bool,
    ) -> (value: Option<C::Value>)
        requires
            old(engine).wf(),
            old(engine).state.current() == Some(job),
        ensures
            engine_kept(old(engine), final(engine)),
            invoked(
                old(self).provider_calls(),
                final(self).provider_calls(),
                ProviderCall { key, tracking: Tracking::Untracked, depth_limit },
            ),
    ;

    /// Runs the provider for `key` as the job `job`, as the task of `node`:
    /// what it reads is recorded as the dependencies of the node.
    /// `None` says that the provider abandoned the computation.
    fn with_task(
        &mut self,
        engine: &mut QueryEngine<C>,
        job: QueryJobId,
        node: DepNode,
        key: usize,
        depth_limit: bool,
    ) -> (done: Option<TaskResult<C::Value>>)
        requires
            old(engine).wf(),
            old(engine).state.current() == Some(job),
        ensures
            engine_kept(old(engine), final(engine)),
            invoked(
                old(self).provider_calls(),
                final(self).provider_calls(),
                ProviderCall { key, tracking: Tracking::Task(node), depth_limit },
            ),
    ;

    /// Runs the provider for `key` as the job `job`, as a task without an
    /// identity across sessions.
    /// `None` says that the provider abandoned the computation.
    fn with_anon_task(
        &mut self,
        engine: &mut QueryEngine<C>,
        job: QueryJobId,
        dep_kind: u16,
        key: usize,
        depth_limit: bool,
    ) -> (done: Option<TaskResult<C::Value>>)
        requires
            old(engine).wf(),
            old(engine).state.current() == Some(job),
        ensures
            engine_kept(old(engine), final(engine)),
            invoked(
                old(self).provider_calls(),
                final(self).provider_calls(),
                ProviderCall { key, tracking: Tracking::Anon(dep_kind), depth_limit },
            ),
    ;

    /// Enters a fed value into the dependency graph as the result of `node`.
    fn with_feed_task(&mut self, node: DepNode, key: usize, value: &C::Value, hash: Option<
        Fingerprint,
    >) -> (index: DepNodeIndex)
        ensures
            final(self).provider_calls() == old(self).provider_calls(),
            final(self).reads() == old(self).reads(),
            final(self).inconsistencies() == old(self).inconsistencies(),
            final(self).fed_values() == old(self).fed_values().push((node, key, *value, hash)),
    ;

    /// Keeps the side effects of the computation stamped `index`.
    fn store_side_effects(&mut self, index: DepNodeIndex, side_effects: QuerySideEffects)
        ensures
            final(self).provider_calls() == old(self).provider_calls(),
            final(self).reads() == old(self).reads(),
            final(self).kept_side_effects() == old(self).kept_side_effects().push(
                (index, side_effects.diagnostics@, false),
            ),
    ;

    /// Keeps the side effects of the anonymous computation stamped `index`.
    fn store_side_effects_for_anon_node(
        &mut self,
        index: DepNodeIndex,
        side_effects: QuerySideEffects,
    )
        ensures
            final(self).provider_calls() == old(self).provider_calls(),
            final(self).reads() == old(self).reads(),
            final(self).kept_side_effects() == old(self).kept_side_effects().push(
                (index, side_effects.diagnostics@, true),
            ),
    ;

    /// Reports a cycle to the user.
    fn emit_cycle_error(&mut self, error: &CycleError)
        ensures
            final(self).provider_calls() == old(self).provider_calls(),
            final(self).reads() == old(self).reads(),
            final(self).emitted_cycles() == old(self).emitted_cycles().push(error.cycle@),
            final(self).delayed_cycles() == old(self).delayed_cycles(),
    ;

    /// Notes a cycle as an internal error to be reported unless another
    /// error is.
    fn delay_cycle_as_bug(&mut self, error: &CycleError)
        ensures
            final(self).provider_calls() == old(self).provider_calls(),
            final(self).reads() == old(self).reads(),
            final(self).emitted_cycles() == old(self).emitted_cycles(),
            final(self).delayed_cycles() == old(self).delayed_cycles().push(error.cycle@),
    ;

    /// Notes as an internal error, to be reported unless another error is,
    /// that a value fed or computed for `key` hashes otherwise than the one
    /// already recorded.
    fn delay_inconsistent_value(&mut self, key: usize, recorded: Fingerprint, given: Fingerprint)
        ensures
            final(self).provider_calls() == old(self).provider_calls(),
            final(self).reads() == old(self).reads(),
            final(self).inconsistencies() == old(self).inconsistencies().push(key),
            final(self).fed_values() == old(self).fed_values(),
            forall|n: DepNode| final(self).green(n) == old(self).green(n),
            forall|n: DepNode| final(self).prev_fingerprint(n) == old(self).prev_fingerprint(n),
    ;

    /// Reports to the user that `result` hashes otherwise than recorded.
    fn emit_ich_failure(&mut self, failure: &IchFailure, result: &C::Value)
        ensures
            final(self).provider_calls() == old(self).provider_calls(),
            final(self).reads() == old(self).reads(),
            final(self).ich_failures() == old(self).ich_failures().push((*failure, *result)),
    ;
}

/// The configuration under which the query for `key` runs: that of its
/// kind, with loading from disk left on only where results for the key are
/// stored on disk.
pub open spec fn vtable_for<C: QueryCache, Ctx: QueryContext<C>>(
    ctx: &Ctx,
    kind: &QueryVTable,
    key: usize,
) -> QueryVTable {
    QueryVTable {
        try_load_from_disk: kind.try_load_from_disk && ctx.caches_on_disk(key),
        ..*kind
    }
}

/// Makes the configuration under which the query for `key` runs.
pub fn make_vtable<C: QueryCache, Ctx: QueryContext<C>>(
    ctx: &Ctx,
    kind: &QueryVTable,
    key: &usize,
) -> (query: QueryVTable)
    ensures
        query == vtable_for::<C, Ctx>(ctx, kind, *key),
{
    QueryVTable {
        anon: kind.anon,
        dep_kind: kind.dep_kind,
        eval_always: kind.eval_always,
        depth_limit: kind.depth_limit,
        feedable: kind.feedable,
        hash_result: kind.hash_result,
        handle_cycle_error: kind.handle_cycle_error,
        try_load_from_disk: kind.try_load_from_disk && ctx.cache_on_disk(key),
    }
}

/// Looks `key` up in `cache`. A hit is recorded with the dependency graph
/// as a read of the cached result.
pub fn try_get_cached<C: QueryCache, Ctx: QueryContext<C>>(
    ctx: &mut Ctx,
    cache: &C,
    key: &usize,
) -> (hit: Option<C::Stored>)
    requires
        cache.wf(),
    ensures
        final(ctx).provider_calls() == old(ctx).provider_calls(),
        final(ctx).inconsistencies() == old(ctx).inconsistencies(),
        final(ctx).fed_values() == old(ctx).fed_values(),
        match hit {
            Some(stored) => {
                &&& cache.entries().contains_key(*key)
                &&& cache.valid(stored)
                &&& cache.resolve(stored) == cache.entries()[*key].0
                &&& final(ctx).reads() == old(ctx).reads().push(cache.entries()[*key].1)
            },
            None => !cache.entries().contains_key(*key) && *final(ctx) == *old(ctx),
        },
{
    match cache.lookup(key) {
        Some((stored, index)) => {
            ctx.read_index(index);
            Some(stored)
        },
        None => None,
    }
}

/// How a cycle reaches the user: it is noted as a delayed internal error
/// under `DelayBug`, and reported under the other two policies.
pub open spec fn cycle_reported<C: QueryCache, Ctx: QueryContext<C>>(
    before: &Ctx,
    after: &Ctx,
    cycle: Seq<QueryInfo>,
    handler: HandleCycleError,
) -> bool {
    if handler == HandleCycleError::DelayBug {
        &&& after.delayed_cycles() == before.delayed_cycles().push(cycle)
        &&& after.emitted_cycles() == before.emitted_cycles()
    } else {
        &&& after.emitted_cycles() == before.emitted_cycles().push(cycle)
        &&& after.delayed_cycles() == before.delayed_cycles()
    }
}

/// Deals with a cycle as the query kind asks: `Error` reports it, `DelayBug`
/// notes it as a delayed internal error, and both go on with the placeholder
/// value of the cycle; `Fatal` reports it and gives up.
pub fn handle_cycle_error<C: QueryCache, Ctx: QueryContext<C>>(
    ctx: &mut Ctx,
    cycle_error: CycleError,
    handler: HandleCycleError,
) -> (value: Result<C::Value, QueryError>)
    ensures
        final(ctx).provider_calls() == old(ctx).provider_calls(),
        final(ctx).reads() == old(ctx).reads(),
        match value {
            Ok(v) => handler != HandleCycleError::Fatal && v == old(ctx).cycle_value(
                cycle_error.cycle@,
            ),
            Err(e) => handler == HandleCycleError::Fatal && e == QueryError::FatalCycle(cycle_error),
        },
        cycle_reported::<C, Ctx>(old(ctx), final(ctx), cycle_error.cycle@, handler),
{
    match handler {
        HandleCycleError::Error => {
            let value = ctx.value_from_cycle_error(&cycle_error.cycle);
            ctx.emit_cycle_error(&cycle_error);
            Ok(value)
        },
        HandleCycleError::Fatal => {
            ctx.emit_cycle_error(&cycle_error);
            Err(QueryError::FatalCycle(cycle_error))
        },
        HandleCycleError::DelayBug => {
            let value = ctx.value_from_cycle_error(&cycle_error.cycle);
            ctx.delay_cycle_as_bug(&cycle_error);
            Ok(value)
        },
    }
}

/// Turns a cycle into the stored form of its placeholder value, which does
/// not enter the cache under any key.
pub fn mk_cycle<C: QueryCache, Ctx: QueryContext<C>>(
    ctx: &mut Ctx,
    cycle_error: CycleError,
    handler: HandleCycleError,
    cache: &mut C,
) -> (stored: Result<C::Stored, QueryError>)
    requires
        old(cache).wf(),
    ensures
        final(ctx).provider_calls() == old(ctx).provider_calls(),
        final(ctx).reads() == old(ctx).reads(),
        final(cache).wf(),
        final(cache).entries() == old(cache).entries(),
        forall|s: C::Stored| #[trigger]
            old(cache).valid(s) ==> final(cache).valid(s) && final(cache).resolve(s) == old(cache).resolve(s),
        cycle_reported::<C, Ctx>(old(ctx), final(ctx), cycle_error.cycle@, handler),
        match stored {
            Ok(s) => {
                &&& handler != HandleCycleError::Fatal
                &&& final(cache).valid(s)
                &&& final(cache).resolve(s) == old(ctx).cycle_value(cycle_error.cycle@)
            },
            Err(e) => handler == HandleCycleError::Fatal && e == QueryError::FatalCycle(
                cycle_error,
            ) && *final(cache) == *old(cache),
        },
{
    match handle_cycle_error::<C, Ctx>(ctx, cycle_error, handler) {
        Ok(value) => Ok(cache.store_nocache(value)),
        Err(e) => Err(e),
    }
}

/// Whether a result loaded from disk is re-hashed: always where `always`
/// asks for it, and else for the results whose recorded fingerprint has a
/// second half divisible by 32, a fixed subset that keeps the cost down.
/// A result without a recorded fingerprint counts as having the zero one.
pub open spec fn verify_loaded(recorded: Option<Fingerprint>, always: bool) -> bool {
    always || (match recorded {
        Some(f) => f.1 % 32 == 0,
        None => true,
    })
}

/// Decides whether a result loaded from disk is re-hashed.
pub fn should_verify(recorded: Option<Fingerprint>, always: bool) -> (verify: bool)
    ensures
        verify == verify_loaded(recorded, always),
{
    let second: u64 = match recorded {
        Some(f) => f.1,
        None => 0,
    };
    second % 32 == 0 || always
}

/// The fingerprint of a result of a kind: its hash where the kind hashes its
/// results, and the zero fingerprint where it does not.
pub open spec fn result_fingerprint<C: QueryCache, Ctx: QueryContext<C>>(
    hash_result: bool,
    value: C::Value,
) -> Fingerprint {
    if hash_result {
        Ctx::hash_spec(value)
    } else {
        Fingerprint::zero()
    }
}

/// Chooses what to say about a fingerprint mismatch. The first mismatch
/// gets the full message; one found after that, while `inside` is set, gets
/// the terse one. `inside` is set from then on.
pub fn incremental_verify_ich_failed(
    inside: &mut bool,
    crate_name: Option<String>,
    dep_node: DepNode,
) -> (failure: IchFailure)
    ensures
        *final(inside),
        *old(inside) ==> failure == IchFailure::Reentrant,
        !*old(inside) ==> failure == (IchFailure::IncrementCompilation { crate_name, dep_node }),
{
    let old_in_panic = *inside;
    *inside = true;
    if old_in_panic {
        IchFailure::Reentrant
    } else {
        IchFailure::IncrementCompilation { crate_name, dep_node }
    }
}

/// Checks a result that the dependency graph holds unchanged against the
/// fingerprint that the earlier session recorded for its node.
///
/// Succeeds with the fingerprint of the result exactly when the node is
/// green and that fingerprint is the recorded one. A mismatch is reported
/// and returned as an error.
pub fn incremental_verify_ich<C: QueryCache, Ctx: QueryContext<C>>(
    ctx: &mut Ctx,
    inside: &mut bool,
    result: &C::Value,
    dep_node: &DepNode,
    hash_result: bool,
) -> (checked: Result<Fingerprint, QueryError>)
    ensures
        final(ctx).provider_calls() == old(ctx).provider_calls(),
        final(ctx).reads() == old(ctx).reads(),
        match checked {
            Ok(hash) => {
                &&& old(ctx).green(*dep_node)
                &&& hash == result_fingerprint::<C, Ctx>(hash_result, *result)
                &&& old(ctx).prev_fingerprint(*dep_node) == Some(hash)
                &&& *final(ctx) == *old(ctx)
                &&& *final(inside) == *old(inside)
            },
            Err(QueryError::NotGreen { dep_node: node }) => {
                &&& !old(ctx).green(*dep_node)
                &&& node == *dep_node
                &&& *final(ctx) == *old(ctx)
                &&& *final(inside) == *old(inside)
            },
            Err(QueryError::FingerprintMismatch { dep_node: node, recorded, computed }) => {
                &&& old(ctx).green(*dep_node)
                &&& node == *dep_node
                &&& recorded == old(ctx).prev_fingerprint(*dep_node)
                &&& computed == result_fingerprint::<C, Ctx>(hash_result, *result)
                &&& recorded != Some(computed)
                &&& *final(inside)
                &&& final(ctx).ich_failures() == old(ctx).ich_failures().push(
                    (
                        if *old(inside) {
                            IchFailure::Reentrant
                        } else {
                            IchFailure::IncrementCompilation {
                                crate_name: old(ctx).crate_name_spec(),
                                dep_node: *dep_node,
                            }
                        },
                        *result,
                    ),
                )
            },
            Err(_) => false,
        },
{
    if !ctx.is_green(dep_node) {
        return Err(QueryError::NotGreen { dep_node: *dep_node });
    }
    let new_hash = if hash_result {
        ctx.hash_result(result)
    } else {
        crate::dep_graph::zero_fingerprint()
    };
    let old_hash = ctx.prev_fingerprint_of(dep_node);
    let matches = match old_hash {
        Some(f) => f.0 == new_hash.0 && f.1 == new_hash.1,
        None => false,
    };
    if !matches {
        let failure = incremental_verify_ich_failed(inside, ctx.crate_name(), *dep_node);
        ctx.emit_ich_failure(&failure, result);
        return Err(
            QueryError::FingerprintMismatch {
                dep_node: *dep_node,
                recorded: old_hash,
                computed: new_hash,
            },
        );
    }
    Ok(new_hash)
}

/// Whether a query that is only to be made sure of is known unchanged and
/// need not run: its kind is not always evaluated, its node can be marked
/// green and, where `check_cache` asks for it, the result of the earlier
/// session can be loaded.
pub open spec fn known_unchanged<C: QueryCache, Ctx: QueryContext<C>>(
    ctx: &Ctx,
    key: usize,
    query: &QueryVTable,
    check_cache: bool,
) -> bool {
    let node = Ctx::dep_node_spec(query.dep_kind, key);
    &&& !query.eval_always
    &&& ctx.marks_green(node) is Some
    &&& check_cache ==> ctx.loadable(key, (ctx.marks_green(node)->0).0)
}

/// Decides whether a query that is only to be made sure of must run. It
/// need not where it is known unchanged. Where its node is green the query
/// counts as read; where it must run although it has a node, the node is
/// handed back for the run.
pub fn ensure_must_run<C: QueryCache, Ctx: QueryContext<C>>(
    ctx: &mut Ctx,
    key: &usize,
    query: &QueryVTable,
    check_cache: bool,
) -> (run: (bool, Option<DepNode>))
    requires
        query.eval_always || !query.anon,
    ensures
        final(ctx).provider_calls() == old(ctx).provider_calls(),
        run.0 == !known_unchanged::<C, Ctx>(old(ctx), *key, query, check_cache),
        run.1 == if query.eval_always || (!run.0 && !check_cache) {
            None
        } else {
            Some(Ctx::dep_node_spec(query.dep_kind, *key))
        },
        query.eval_always ==> *final(ctx) == *old(ctx),
        final(ctx).reads() == match old(ctx).marks_green(Ctx::dep_node_spec(query.dep_kind, *key)) {
            Some(marked) if !query.eval_always => old(ctx).reads().push(marked.1),
            _ => old(ctx).reads(),
        },
{
    if query.eval_always {
        return (true, None);
    }
    let dep_node = ctx.to_dep_node(query.dep_kind, key);
    match ctx.try_mark_green(&dep_node) {
        None => (true, Some(dep_node)),
        Some((serialized_dep_node_index, dep_node_index)) => {
            ctx.read_index(dep_node_index);
            if !check_cache {
                return (false, None);
            }
            let loadable = ctx.loadable_from_disk(key, serialized_dep_node_index);
            (!loadable, Some(dep_node))
        },
    }
}

/// The node of a query: the one the caller already built, or else the one
/// of its kind and key.
pub open spec fn node_of<C: QueryCache, Ctx: QueryContext<C>>(
    given: Option<DepNode>,
    dep_kind: u16,
    key: usize,
) -> DepNode {
    match given {
        Some(node) => node,
        None => Ctx::dep_node_spec(dep_kind, key),
    }
}

/// Whether the value of the earlier session can stand for the result of the
/// query with node `node`: the node can be marked green, the kind loads
/// from disk, and the value is there.
pub open spec fn on_disk_and_green<C: QueryCache, Ctx: QueryContext<C>>(
    ctx: &Ctx,
    node: DepNode,
    key: usize,
    query: &QueryVTable,
) -> bool {
    &&& query.try_load_from_disk
    &&& ctx.marks_green(node) is Some
    &&& ctx.on_disk(key, (ctx.marks_green(node)->0).0) is Some
}

/// The value of the earlier session for the query with node `node`.
pub open spec fn disk_value<C: QueryCache, Ctx: QueryContext<C>>(
    ctx: &Ctx,
    node: DepNode,
    key: usize,
) -> C::Value {
    ctx.on_disk(key, (ctx.marks_green(node)->0).0)->0
}

/// Whether the value loaded for `node` passes the fingerprint check: it is
/// not among those checked, or it hashes as the earlier session recorded.
pub open spec fn disk_value_accepted<C: QueryCache, Ctx: QueryContext<C>>(
    ctx: &Ctx,
    node: DepNode,
    key: usize,
    query: &QueryVTable,
) -> bool {
    verify_loaded(ctx.prev_fingerprint(node), ctx.verify_ich()) ==> ctx.prev_fingerprint(node)
        == Some(result_fingerprint::<C, Ctx>(query.hash_result, disk_value::<C, Ctx>(ctx, node, key)))
}

/// What loading from disk yields where the value is there: the value with
/// the node's provenance stamp where it passes the fingerprint check, and
/// the mismatch where it does not.
pub open spec fn disk_outcome<C: QueryCache, Ctx: QueryContext<C>>(
    ctx: &Ctx,
    node: DepNode,
    key: usize,
    query: &QueryVTable,
    result: Result<(C::Value, DepNodeIndex), QueryError>,
) -> bool {
    if disk_value_accepted::<C, Ctx>(ctx, node, key, query) {
        result == Ok::<(C::Value, DepNodeIndex), QueryError>(
            (disk_value::<C, Ctx>(ctx, node, key), (ctx.marks_green(node)->0).1),
        )
    } else {
        result == Err::<(C::Value, DepNodeIndex), QueryError>(
            QueryError::FingerprintMismatch {
                dep_node: node,
                recorded: ctx.prev_fingerprint(node),
                computed: result_fingerprint::<C, Ctx>(
                    query.hash_result,
                    disk_value::<C, Ctx>(ctx, node, key),
                ),
            },
        )
    }
}

/// What running the provider again for a green node yields: the provider
/// is invoked, and a value is accepted only where it hashes as the earlier
/// session recorded; it then carries the stamp that marking the node green
/// gave. The run fails where the provider abandons it or the value hashes
/// otherwise.
pub open spec fn recomputed_outcome<C: QueryCache, Ctx: QueryContext<C>>(
    before: &Ctx,
    after: &Ctx,
    node: DepNode,
    key: usize,
    query: &QueryVTable,
    result: Result<(C::Value, DepNodeIndex), QueryError>,
) -> bool {
    &&& invoked(
        before.provider_calls(),
        after.provider_calls(),
        ProviderCall { key, tracking: Tracking::Untracked, depth_limit: false },
    )
    &&& match result {
        Ok((value, index)) => {
            &&& index == (before.marks_green(node)->0).1
            &&& after.green(node)
            &&& after.prev_fingerprint(node) == Some(
                result_fingerprint::<C, Ctx>(query.hash_result, value),
            )
        },
        Err(QueryError::Poisoned { key: k }) => k == key,
        Err(QueryError::FingerprintMismatch { dep_node, recorded, computed }) => dep_node == node
            && recorded != Some(computed),
        Err(QueryError::NotGreen { dep_node }) => dep_node == node,
        Err(_) => false,
    }
}

/// How the provider of a query is run where nothing of an earlier session
/// stands in for it: untracked where dependencies are not tracked, and else
/// as a task, anonymous or of the query's node.
pub open spec fn tracking_of<C: QueryCache, Ctx: QueryContext<C>>(
    ctx: &Ctx,
    node: DepNode,
    query: &QueryVTable,
) -> Tracking {
    if !ctx.fully_enabled() {
        Tracking::Untracked
    } else if query.anon {
        Tracking::Anon(query.dep_kind)
    } else {
        Tracking::Task(node)
    }
}

/// What running the provider as a task, or untracked, yields: the provider
/// is invoked, and the run fails only where the provider abandons it.
pub open spec fn computed_outcome<C: QueryCache, Ctx: QueryContext<C>>(
    before: &Ctx,
    after: &Ctx,
    node: DepNode,
    key: usize,
    query: &QueryVTable,
    result: Result<(C::Value, DepNodeIndex), QueryError>,
) -> bool {
    &&& invoked(
        before.provider_calls(),
        after.provider_calls(),
        ProviderCall {
            key,
            tracking: tracking_of::<C, Ctx>(before, node, query),
            depth_limit: query.depth_limit,
        },
    )
    &&& result matches Err(e) ==> e == (QueryError::Poisoned { key })
}

/// What a load that found something or failed came to, and nothing for a
/// load that found nothing to reuse.
pub open spec fn load_outcome<V>(loaded: Result<Option<(V, DepNodeIndex)>, QueryError>) -> Option<
    Result<(V, DepNodeIndex), QueryError>,
> {
    match loaded {
        Ok(Some(found)) => Some(Ok(found)),
        Ok(None) => None,
        Err(e) => Some(Err(e)),
    }
}

/// Tries to reuse the result of the earlier session for the query with node
/// `dep_node`.
///
/// Where the node cannot be marked green there is nothing to reuse. Where it
/// can and the value is on disk, the value is returned without the provider
/// being invoked, after the fingerprint check where it applies. Where it can
/// but no value is loaded, the provider runs again and its result must hash
/// as the earlier session recorded.
pub fn try_load_from_disk_and_cache_in_memory<C: QueryCache, Ctx: QueryContext<C>>(
    ctx: &mut Ctx,
    engine: &mut QueryEngine<C>,
    job_id: QueryJobId,
    key: &usize,
    dep_node: &DepNode,
    query: &QueryVTable,
) -> (loaded: Result<Option<(C::Value, DepNodeIndex)>, QueryError>)
    requires
        old(engine).wf(),
        old(engine).state.current() == Some(job_id),
    ensures
        engine_kept(old(engine), final(engine)),
        continues(old(ctx).provider_calls(), final(ctx).provider_calls()),
        old(ctx).marks_green(*dep_node) is None ==> loaded == Ok::<
            Option<(C::Value, DepNodeIndex)>,
            QueryError,
        >(None) && final(ctx).provider_calls() == old(ctx).provider_calls(),
        old(ctx).marks_green(*dep_node) is Some ==> load_outcome(loaded) is Some,
        on_disk_and_green::<C, Ctx>(old(ctx), *dep_node, *key, query) ==> {
            &&& final(ctx).provider_calls() == old(ctx).provider_calls()
            &&& final(engine).cache == old(engine).cache
            &&& disk_outcome::<C, Ctx>(old(ctx), *dep_node, *key, query, load_outcome(loaded)->0)
        },
        old(ctx).marks_green(*dep_node) is Some && !on_disk_and_green::<C, Ctx>(
            old(ctx),
            *dep_node,
            *key,
            query,
        ) ==> recomputed_outcome::<C, Ctx>(
            old(ctx),
            final(ctx),
            *dep_node,
            *key,
            query,
            load_outcome(loaded)->0,
        ),
{
    let (prev_dep_node_index, dep_node_index) = match ctx.try_mark_green(dep_node) {
        Some(marked) => marked,
        None => {
            return Ok(None);
        },
    };
    if query.try_load_from_disk {
        let result = ctx.try_load_from_disk(key, prev_dep_node_index, dep_node_index);
        if let Some(result) = result {
            let prev_fingerprint = ctx.prev_fingerprint_of(dep_node);
            if should_verify(prev_fingerprint, ctx.incremental_verify_ich_enabled()) {
                match incremental_verify_ich::<C, Ctx>(
                    ctx,
                    &mut engine.inside_verify_panic,
                    &result,
                    dep_node,
                    query.hash_result,
                ) {
                    Ok(_) => {},
                    Err(e) => {
                        return Err(e);
                    },
                }
            }
            return Ok(Some((result, dep_node_index)));
        }
    }
    let result = match ctx.compute(engine, job_id, *key, false) {
        Some(result) => result,
        None => {
            return Err(QueryError::Poisoned { key: *key });
        },
    };
    match incremental_verify_ich::<C, Ctx>(
        ctx,
        &mut engine.inside_verify_panic,
        &result,
        dep_node,
        query.hash_result,
    ) {
        Ok(_) => Ok(Some((result, dep_node_index))),
        Err(e) => Err(e),
    }
}

/// Whether the result of the earlier session is reused for the query:
/// dependencies are tracked, the kind has an identity across sessions and
/// is not always evaluated, and the value is on disk under a node that can
/// be marked green.
pub open spec fn reuses<C: QueryCache, Ctx: QueryContext<C>>(
    ctx: &Ctx,
    node: DepNode,
    key: usize,
    query: &QueryVTable,
) -> bool {
    &&& ctx.fully_enabled()
    &&& !query.anon
    &&& !query.eval_always
    &&& on_disk_and_green::<C, Ctx>(ctx, node, key, query)
}

/// Whether the provider runs again for a green node: dependencies are
/// tracked, the kind has an identity across sessions and is not always
/// evaluated, and the node can be marked green, but no value is loaded.
pub open spec fn recomputes<C: QueryCache, Ctx: QueryContext<C>>(
    ctx: &Ctx,
    node: DepNode,
    key: usize,
    query: &QueryVTable,
) -> bool {
    &&& ctx.fully_enabled()
    &&& !query.anon
    &&& !query.eval_always
    &&& ctx.marks_green(node) is Some
    &&& !on_disk_and_green::<C, Ctx>(ctx, node, key, query)
}

/// What the owner of a job obtains for its key: the value of the earlier
/// session where that is reused, and else what a run of the provider yields.
pub open spec fn job_outcome<C: QueryCache, Ctx: QueryContext<C>>(
    before: &Ctx,
    after: &Ctx,
    node: DepNode,
    key: usize,
    query: &QueryVTable,
    result: Result<(C::Value, DepNodeIndex), QueryError>,
) -> bool {
    if reuses::<C, Ctx>(before, node, key, query) {
        &&& after.provider_calls() == before.provider_calls()
        &&& disk_outcome::<C, Ctx>(before, node, key, query, result)
    } else if recomputes::<C, Ctx>(before, node, key, query) {
        recomputed_outcome::<C, Ctx>(before, after, node, key, query, result)
    } else {
        computed_outcome::<C, Ctx>(before, after, node, key, query, result)
    }
}

/// Takes what a task yielded apart: the messages that the provider emitted
/// are kept with the task's provenance stamp where there are any, and the
/// value is handed on with the stamp.
pub fn finish_task<C: QueryCache, Ctx: QueryContext<C>>(
    ctx: &mut Ctx,
    task: TaskResult<C::Value>,
    anon: bool,
) -> (done: (C::Value, DepNodeIndex))
    ensures
        done == (task.value, task.index),
        final(ctx).provider_calls() == old(ctx).provider_calls(),
        final(ctx).reads() == old(ctx).reads(),
        task.diagnostics@.len() == 0 ==> *final(ctx) == *old(ctx),
        task.diagnostics@.len() > 0 ==> final(ctx).kept_side_effects() == old(ctx).kept_side_effects().push((task.index, task.diagnostics@, anon)),
{
    let TaskResult { value, index, diagnostics } = task;
    if diagnostics.len() > 0 {
        let side_effects = QuerySideEffects { diagnostics };
        if anon {
            ctx.store_side_effects_for_anon_node(index, side_effects);
        } else {
            ctx.store_side_effects(index, side_effects);
        }
    }
    (value, index)
}

/// Obtains the value of `key` as the owner of the job `job_id`.
///
/// Where dependencies are not tracked the provider simply runs. Else, for a
/// kind with an identity across sessions that is not always evaluated, the
/// result of the earlier session is reused where its node can be marked
/// green. Else the provider runs as a task of the dependency graph, and the
/// messages it emitted are kept with the task's provenance stamp.
pub fn execute_job<C: QueryCache, Ctx: QueryContext<C>>(
    ctx: &mut Ctx,
    engine: &mut QueryEngine<C>,
    key: usize,
    dep_node_opt: Option<DepNode>,
    query: &QueryVTable,
    job_id: QueryJobId,
) -> (done: Result<(C::Value, DepNodeIndex), QueryError>)
    requires
        old(engine).wf(),
        old(engine).state.current() == Some(job_id),
    ensures
        engine_kept(old(engine), final(engine)),
        continues(old(ctx).provider_calls(), final(ctx).provider_calls()),
        job_outcome::<C, Ctx>(
            old(ctx),
            final(ctx),
            node_of::<C, Ctx>(dep_node_opt, query.dep_kind, key),
            key,
            query,
            done,
        ),
        reuses::<C, Ctx>(
            old(ctx),
            node_of::<C, Ctx>(dep_node_opt, query.dep_kind, key),
            key,
            query,
        ) ==> final(engine).cache == old(engine).cache,
{
    if !ctx.is_fully_enabled() {
        return match ctx.compute(engine, job_id, key, query.depth_limit) {
            Some(result) => {
                let dep_node_index = ctx.next_virtual_depnode_index();
                Ok((result, dep_node_index))
            },
            None => Err(QueryError::Poisoned { key }),
        };
    }
    if !query.anon && !query.eval_always {
        let dep_node = match dep_node_opt {
            Some(node) => node,
            None => ctx.to_dep_node(query.dep_kind, &key),
        };
        match try_load_from_disk_and_cache_in_memory::<C, Ctx>(
            ctx,
            engine,
            job_id,
            &key,
            &dep_node,
            query,
        ) {
            Ok(Some(ret)) => {
                return Ok(ret);
            },
            Ok(None) => {},
            Err(e) => {
                return Err(e);
            },
        }
    }
    let done = if query.anon {
        ctx.with_anon_task(engine, job_id, query.dep_kind, key, query.depth_limit)
    } else {
        let dep_node = match dep_node_opt {
            Some(node) => node,
            None => ctx.to_dep_node(query.dep_kind, &key),
        };
        ctx.with_task(engine, job_id, dep_node, key, query.depth_limit)
    };
    match done {
        Some(task) => Ok(finish_task::<C, Ctx>(ctx, task, query.anon)),
        None => Err(QueryError::Poisoned { key }),
    }
}

/// Entering a job for a key and taking it out again leaves the table as it
/// was, but for the count of identities given out.
pub proof fn lemma_job_balanced(
    before: &QueryState,
    entered: &QueryState,
    after: &QueryState,
    key: usize,
)
    requires
        before.wf(),
        entered.wf(),
        !before.active().contains_key(key),
        entered.active().contains_key(key),
        same_jobs_but(before, entered, key),
        entered.order() == before.order().push(key),
        job_removed(entered, after, key),
    ensures
        after.active() == before.active(),
        after.order() == before.order(),
{
    let order = entered.order();
    assert(order[order.len() - 1] == key);
    assert(order.contains(key));
    lemma_remove_key(order, key);
    let at = order.index_of(key);
    assert(at == order.len() - 1);
    assert(order.drop_last() =~= before.order());
    assert(after.active() =~= before.active());
}

/// What holds when the query for `key`, asked at `span`, is answered with
/// the stored form `stored`.
///
/// A cached result is returned and nothing changes. A request for a key
/// whose job is running is answered with the placeholder of the cycle it
/// closes, unless the kind treats cycles as fatal; nothing enters the cache
/// and no provider is invoked. Any other request makes the caller the owner
/// of the key's job, and the value it obtains is what the cache then holds
/// for the key.
pub open spec fn answered_ok<C: QueryCache, Ctx: QueryContext<C>>(
    before: &QueryEngine<C>,
    ctx_before: &Ctx,
    after: &QueryEngine<C>,
    ctx_after: &Ctx,
    span: Span,
    key: usize,
    dep_node: Option<DepNode>,
    query: &QueryVTable,
    stored: C::Stored,
) -> bool {
    &&& after.cache.valid(stored)
    &&& if before.cache.entries().contains_key(key) {
        &&& *after == *before
        &&& ctx_after.provider_calls() == ctx_before.provider_calls()
        &&& after.cache.resolve(stored) == before.cache.entries()[key].0
    } else if before.state.active().contains_key(key) {
        &&& ctx_after.provider_calls() == ctx_before.provider_calls()
        &&& after.cache.entries() == before.cache.entries()
        &&& query.handle_cycle_error != HandleCycleError::Fatal
        &&& after.cache.resolve(stored) == ctx_before.cycle_value(
            cycle_from(
                before.state.stack(query.dep_kind),
                before.state.order().index_of(key),
                span,
            ),
        )
        &&& cycle_reported::<C, Ctx>(
            ctx_before,
            ctx_after,
            cycle_from(
                before.state.stack(query.dep_kind),
                before.state.order().index_of(key),
                span,
            ),
            query.handle_cycle_error,
        )
    } else {
        &&& before.state.jobs() < u64::MAX
        &&& after.cache.entries().contains_key(key)
        &&& after.cache.entries()[key].0 == after.cache.resolve(stored)
        &&& job_outcome::<C, Ctx>(
            ctx_before,
            ctx_after,
            node_of::<C, Ctx>(dep_node, query.dep_kind, key),
            key,
            query,
            Ok(after.cache.entries()[key]),
        )
    }
}

/// What holds when the query for `key`, asked at `span`, fails with `error`.
///
/// No request for a cached key fails. A request for a key whose job is
/// running fails only where the kind treats cycles as fatal, with the cycle
/// it closes. A request that finds no job identity left fails with nothing
/// changed. Any other failure is that of obtaining the value as the owner.
pub open spec fn answered_err<C: QueryCache, Ctx: QueryContext<C>>(
    before: &QueryEngine<C>,
    ctx_before: &Ctx,
    after: &QueryEngine<C>,
    ctx_after: &Ctx,
    span: Span,
    key: usize,
    dep_node: Option<DepNode>,
    query: &QueryVTable,
    error: QueryError,
) -> bool {
    &&& !before.cache.entries().contains_key(key)
    &&& if before.state.active().contains_key(key) {
        &&& ctx_after.provider_calls() == ctx_before.provider_calls()
        &&& after.cache.entries() == before.cache.entries()
        &&& query.handle_cycle_error == HandleCycleError::Fatal
        &&& error is FatalCycle
        &&& error->FatalCycle_0.cycle@ == cycle_from(
            before.state.stack(query.dep_kind),
            before.state.order().index_of(key),
            span,
        )
        &&& error->FatalCycle_0.usage == usage_of(
            before.state.stack(query.dep_kind),
            before.state.order().index_of(key),
        )
        &&& cycle_reported::<C, Ctx>(
            ctx_before,
            ctx_after,
            error->FatalCycle_0.cycle@,
            query.handle_cycle_error,
        )
    } else if before.state.jobs() == u64::MAX {
        &&& error == QueryError::JobsExhausted
        &&& *after == *before
        &&& ctx_after.provider_calls() == ctx_before.provider_calls()
    } else {
        &&& job_outcome::<C, Ctx>(
            ctx_before,
            ctx_after,
            node_of::<C, Ctx>(dep_node, query.dep_kind, key),
            key,
            query,
            Err(error),
        )
        &&& reuses::<C, Ctx>(
            ctx_before,
            node_of::<C, Ctx>(dep_node, query.dep_kind, key),
            key,
            query,
        ) ==> after.cache == before.cache
    }
}

/// The provenance stamp that comes with an answer: that of the cache entry,
/// and none for the placeholder of a cycle.
pub open spec fn stamp_of<C: QueryCache>(
    before: &QueryEngine<C>,
    after: &QueryEngine<C>,
    key: usize,
) -> Option<DepNodeIndex> {
    if before.cache.entries().contains_key(key) {
        Some(before.cache.entries()[key].1)
    } else if before.state.active().contains_key(key) {
        None
    } else {
        Some(after.cache.entries()[key].1)
    }
}

/// Compares a value computed for `key` with the value that the cache
/// holds for the key, if it holds one because it was fed while the
/// computation ran: an inconsistency is noted exactly when the two hash
/// differently.
pub fn check_against_fed<C: QueryCache, Ctx: QueryContext<C>>(
    ctx: &mut Ctx,
    cache: &C,
    key: usize,
    result: &C::Value,
)
    requires
        cache.wf(),
    ensures
        final(ctx).provider_calls() == old(ctx).provider_calls(),
        final(ctx).reads() == old(ctx).reads(),
        forall|n: DepNode| final(ctx).green(n) == old(ctx).green(n),
        forall|n: DepNode| final(ctx).prev_fingerprint(n) == old(ctx).prev_fingerprint(n),
        final(ctx).inconsistencies() == if cache.entries().contains_key(key) && Ctx::hash_spec(
            cache.entries()[key].0,
        ) != Ctx::hash_spec(*result) {
            old(ctx).inconsistencies().push(key)
        } else {
            old(ctx).inconsistencies()
        },
{
    if let Some((cached, _)) = cache.lookup(&key) {
        let old_hash = ctx.hash_result(cache.value(&cached));
        let new_hash = ctx.hash_result(result);
        if old_hash.0 != new_hash.0 || old_hash.1 != new_hash.1 {
            ctx.delay_inconsistent_value(key, old_hash, new_hash);
        }
    }
}

/// Answers the query for `key`, asked at `span`.
///
/// A cached result is returned as it is. Else the caller tries to become
/// the owner of the key's job. As owner it obtains the value, enters it in
/// the cache and gives the job up; where the value cannot be obtained the
/// job is poisoned, so that a later request starts afresh. Where the job is
/// already running, the request closes a cycle, which is dealt with as the
/// kind asks; the placeholder of a cycle does not enter the cache.
pub fn try_execute_query<C: QueryCache, Ctx: QueryContext<C>>(
    ctx: &mut Ctx,
    engine: &mut QueryEngine<C>,
    span: Span,
    key: usize,
    dep_node: Option<DepNode>,
    query: &QueryVTable,
) -> (answer: Result<(C::Stored, Option<DepNodeIndex>), QueryError>)
    requires
        old(engine).wf(),
    ensures
        engine_kept(old(engine), final(engine)),
        continues(old(ctx).provider_calls(), final(ctx).provider_calls()),
        match answer {
            Ok((stored, index)) => {
                &&& answered_ok::<C, Ctx>(
                    old(engine),
                    old(ctx),
                    final(engine),
                    final(ctx),
                    span,
                    key,
                    dep_node,
                    query,
                    stored,
                )
                &&& index == stamp_of(old(engine), final(engine), key)
            },
            Err(e) => answered_err::<C, Ctx>(
                old(engine),
                old(ctx),
                final(engine),
                final(ctx),
                span,
                key,
                dep_node,
                query,
                e,
            ),
        },
        old(engine).cache.entries().contains_key(key) ==> *final(ctx) == *old(ctx),
        !old(engine).cache.entries().contains_key(key) && !old(engine).state.active().contains_key(
            key,
        ) && old(engine).state.jobs() == u64::MAX ==> *final(ctx) == *old(ctx),
{
    if let Some((stored, index)) = engine.cache.lookup(&key) {
        return Ok((stored, Some(index)));
    }
    let current = engine.state.current_query_job();
    match JobOwner::try_start(&mut engine.state, current, span, key, query.dep_kind) {
        TryGetJob::NotYetStarted(job) => {
            let job_id = job.id();
            let ghost entered = *engine;
            assert(entered.cache == old(engine).cache);
            let executed = execute_job::<C, Ctx>(ctx, engine, key, dep_node, query, job_id);
            let ghost ran = *engine;
            assert(engine_kept(&entered, &ran));
            match executed {
                Ok((result, dep_node_index)) => {
                    if query.feedable && query.hash_result {
                        check_against_fed::<C, Ctx>(ctx, &engine.cache, key, &result);
                    }
                    let ghost running = engine.state;
                    let (stored, _) = job.complete(
                        &mut engine.state,
                        &mut engine.cache,
                        result,
                        dep_node_index,
                    );
                    proof {
                        lemma_job_balanced(&old(engine).state, &running, &engine.state, key);
                        assert forall|k: usize| #[trigger]
                            old(engine).cache.entries().contains_key(k) implies engine.cache.entries().contains_key(
                            k,
                        ) by {
                            assert(entered.cache.entries().contains_key(k));
                            assert(ran.cache.entries().contains_key(k));
                        }
                        assert forall|s: C::Stored| #[trigger]
                            old(engine).cache.valid(s) implies engine.cache.valid(s)
                            && engine.cache.resolve(s) == old(engine).cache.resolve(s) by {
                            assert(entered.cache.valid(s));
                            assert(ran.cache.valid(s));
                        }
                        assert(engine_kept(old(engine), engine));
                    }
                    Ok((stored, Some(dep_node_index)))
                },
                Err(e) => {
                    let ghost running = engine.state;
                    job.poison(&mut engine.state);
                    proof {
                        lemma_job_balanced(&old(engine).state, &running, &engine.state, key);
                        assert forall|k: usize| #[trigger]
                            old(engine).cache.entries().contains_key(k) implies engine.cache.entries().contains_key(
                            k,
                        ) by {
                            assert(entered.cache.entries().contains_key(k));
                        }
                        assert forall|s: C::Stored| #[trigger]
                            old(engine).cache.valid(s) implies engine.cache.valid(s)
                            && engine.cache.resolve(s) == old(engine).cache.resolve(s) by {
                            assert(entered.cache.valid(s));
                        }
                        assert(engine_kept(old(engine), engine));
                    }
                    Err(e)
                },
            }
        },
        TryGetJob::Cycle(error) => {
            match mk_cycle::<C, Ctx>(ctx, error, query.handle_cycle_error, &mut engine.cache) {
                Ok(stored) => Ok((stored, None)),
                Err(e) => Err(e),
            }
        },
        TryGetJob::Parked(_) => {
            assert(false);
            Err(QueryError::JobsExhausted)
        },
        TryGetJob::Exhausted => Err(QueryError::JobsExhausted),
    }
}

/// The node that is handed on for the run of a query that was to be made
/// sure of: none for a kind that is always evaluated, and else its node.
pub open spec fn ensured_node<C: QueryCache, Ctx: QueryContext<C>>(
    query: &QueryVTable,
    key: usize,
) -> Option<DepNode> {
    if query.eval_always {
        None
    } else {
        Some(Ctx::dep_node_spec(query.dep_kind, key))
    }
}

/// The answer to a query that ran, without the option around the stored
/// value. (A query that did not run has no answer; the function is not used
/// of one.)
pub open spec fn unwrapped<S>(result: Result<Option<S>, QueryError>) -> Result<S, QueryError> {
    match result {
        Ok(stored) => Ok(stored->0),
        Err(e) => Err(e),
    }
}

/// Answers the query for `key`, or makes sure of it.
///
/// In `Get` mode the query is answered as `try_execute_query` does, and the
/// result counts as read by the running query. In `Ensure` mode nothing
/// runs and nothing is returned where the query is known unchanged; else
/// the query is answered as in `Get` mode, from the state that the
/// collaborators are in after the attempt to mark its node green.
pub fn get_query<C: QueryCache, Ctx: QueryContext<C>>(
    ctx: &mut Ctx,
    engine: &mut QueryEngine<C>,
    span: Span,
    key: usize,
    mode: QueryMode,
    query: &QueryVTable,
) -> (result: Result<Option<C::Stored>, QueryError>)
    requires
        old(engine).wf(),
        mode is Ensure ==> query.eval_always || !query.anon,
    ensures
        engine_kept(old(engine), final(engine)),
        continues(old(ctx).provider_calls(), final(ctx).provider_calls()),
        mode == QueryMode::Get ==> match result {
            Ok(Some(stored)) => {
                &&& answered_ok::<C, Ctx>(
                    old(engine),
                    old(ctx),
                    final(engine),
                    final(ctx),
                    span,
                    key,
                    None,
                    query,
                    stored,
                )
                &&& stamp_of(old(engine), final(engine), key) matches Some(index) ==> final(ctx).reads().len() > 0 && final(ctx).reads().last() == index
            },
            Ok(None) => false,
            Err(e) => answered_err::<C, Ctx>(
                old(engine),
                old(ctx),
                final(engine),
                final(ctx),
                span,
                key,
                None,
                query,
                e,
            ),
        },
        mode matches QueryMode::Ensure { check_cache } ==> {
            &&& result == Ok::<Option<C::Stored>, QueryError>(None) <==> known_unchanged::<C, Ctx>(
                old(ctx),
                key,
                query,
                check_cache,
            )
            &&& result == Ok::<Option<C::Stored>, QueryError>(None) ==> *final(engine) == *old(engine)
                && final(ctx).provider_calls() == old(ctx).provider_calls()
            &&& !known_unchanged::<C, Ctx>(old(ctx), key, query, check_cache) ==> exists|mid: Ctx|
                mid.provider_calls() == old(ctx).provider_calls() && #[trigger] answered::<C, Ctx>(
                    old(engine),
                    &mid,
                    final(engine),
                    final(ctx),
                    span,
                    key,
                    ensured_node::<C, Ctx>(query, key),
                    query,
                    unwrapped(result),
                )
        },
{
    let dep_node = match mode {
        QueryMode::Ensure { check_cache } => {
            let (must_run, dep_node) = ensure_must_run::<C, Ctx>(ctx, &key, query, check_cache);
            if !must_run {
                return Ok(None);
            }
            dep_node
        },
        QueryMode::Get => None,
    };
    let ghost mid = *ctx;
    let result = match try_execute_query::<C, Ctx>(ctx, engine, span, key, dep_node, query) {
        Ok((result, dep_node_index)) => {
            if let Some(dep_node_index) = dep_node_index {
                ctx.read_index(dep_node_index);
            }
            Ok(Some(result))
        },
        Err(e) => Err(e),
    };
    proof {
        if mode is Ensure {
            assert(answered::<C, Ctx>(
                old(engine),
                &mid,
                engine,
                ctx,
                span,
                key,
                dep_node,
                query,
                unwrapped(result),
            ));
        }
    }
    result
}

/// Makes sure that the query for `key` with node `dep_node` has a cached
/// result, running it where it has none.
pub fn force_query<C: QueryCache, Ctx: QueryContext<C>>(
    ctx: &mut Ctx,
    engine: &mut QueryEngine<C>,
    key: usize,
    dep_node: DepNode,
    query: &QueryVTable,
) -> (forced: Result<(), QueryError>)
    requires
        old(engine).wf(),
    ensures
        engine_kept(old(engine), final(engine)),
        continues(old(ctx).provider_calls(), final(ctx).provider_calls()),
        old(engine).cache.entries().contains_key(key) ==> forced is Ok && *final(engine) == *old(engine) && *final(ctx) == *old(ctx),
        !old(engine).cache.entries().contains_key(key) ==> match forced {
            Ok(()) => exists|stored: C::Stored|
                answered_ok::<C, Ctx>(
                    old(engine),
                    old(ctx),
                    final(engine),
                    final(ctx),
                    dummy_span(),
                    key,
                    Some(dep_node),
                    query,
                    stored,
                ),
            Err(e) => answered_err::<C, Ctx>(
                old(engine),
                old(ctx),
                final(engine),
                final(ctx),
                dummy_span(),
                key,
                Some(dep_node),
                query,
                e,
            ),
        },
{
    if engine.cache.lookup(&key).is_some() {
        return Ok(());
    }
    match try_execute_query::<C, Ctx>(ctx, engine, dummy_sp(), key, Some(dep_node), query) {
        Ok(_) => Ok(()),
        Err(e) => Err(e),
    }
}

/// What holds after a value was offered for `key` ahead of any request.
///
/// For a key without a cached result the value enters the dependency graph
/// under the node of the key and then the cache. For a key with one the
/// cache keeps what it has: where the kind hashes its results
/// the offer succeeds, and an inconsistency is noted exactly when the two
/// values hash differently; where it does not, the offer fails.
pub open spec fn fed<C: QueryCache, Ctx: QueryContext<C>>(
    before: &QueryEngine<C>,
    ctx_before: &Ctx,
    after: &QueryEngine<C>,
    ctx_after: &Ctx,
    key: usize,
    value: C::Value,
    query: &QueryVTable,
    result: Result<(), QueryError>,
) -> bool {
    if before.cache.entries().contains_key(key) {
        &&& *after == *before
        &&& ctx_after.fed_values() == ctx_before.fed_values()
        &&& if query.hash_result {
            &&& result is Ok
            &&& ctx_after.inconsistencies() == if Ctx::hash_spec(value) == Ctx::hash_spec(
                before.cache.entries()[key].0,
            ) {
                ctx_before.inconsistencies()
            } else {
                ctx_before.inconsistencies().push(key)
            }
        } else {
            &&& result == Err::<(), QueryError>(QueryError::FedTwice { key })
            &&& ctx_after.inconsistencies() == ctx_before.inconsistencies()
        }
    } else {
        &&& result is Ok
        &&& after.cache.entries().contains_key(key)
        &&& after.cache.entries() == before.cache.entries().insert(
            key,
            (value, after.cache.entries()[key].1),
        )
        &&& ctx_after.inconsistencies() == ctx_before.inconsistencies()
        &&& ctx_after.fed_values() == ctx_before.fed_values().push(
            (
                Ctx::dep_node_spec(query.dep_kind, key),
                key,
                value,
                if query.hash_result {
                    Some(Ctx::hash_spec(value))
                } else {
                    None
                },
            ),
        )
    }
}

/// Offers `value` as the result of the query for `key` before anyone asks
/// for it.
pub fn feed<C: QueryCache, Ctx: QueryContext<C>>(
    ctx: &mut Ctx,
    engine: &mut QueryEngine<C>,
    key: usize,
    value: C::Value,
    query: &QueryVTable,
) -> (result: Result<(), QueryError>)
    requires
        old(engine).wf(),
    ensures
        engine_kept(old(engine), final(engine)),
        final(ctx).provider_calls() == old(ctx).provider_calls(),
        fed::<C, Ctx>(old(engine), old(ctx), final(engine), final(ctx), key, value, query, result),
{
    match try_get_cached::<C, Ctx>(ctx, &engine.cache, &key) {
        Some(old) => {
            if query.hash_result {
                let value_hash = ctx.hash_result(&value);
                let old_hash = ctx.hash_result(engine.cache.value(&old));
                if old_hash.0 != value_hash.0 || old_hash.1 != value_hash.1 {
                    ctx.delay_inconsistent_value(key, old_hash, value_hash);
                }
                Ok(())
            } else {
                Err(QueryError::FedTwice { key })
            }
        },
        None => {
            let dep_node = ctx.to_dep_node(query.dep_kind, &key);
            let hash = if query.hash_result {
                Some(ctx.hash_result(&value))
            } else {
                None
            };
            let dep_node_index = ctx.with_feed_task(dep_node, key, &value, hash);
            engine.cache.complete(key, value, dep_node_index);
            Ok(())
        },
    }
}

/// What holds when the query for `key`, asked at `span`, was answered with
/// `answer`: see `answered_ok` and `answered_err`.
pub open spec fn answered<C: QueryCache, Ctx: QueryContext<C>>(
    before: &QueryEngine<C>,
    ctx_before: &Ctx,
    after: &QueryEngine<C>,
    ctx_after: &Ctx,
    span: Span,
    key: usize,
    dep_node: Option<DepNode>,
    query: &QueryVTable,
    answer: Result<C::Stored, QueryError>,
) -> bool {
    match answer {
        Ok(stored) => answered_ok::<C, Ctx>(
            before,
            ctx_before,
            after,
            ctx_after,
            span,
            key,
            dep_node,
            query,
            stored,
        ),
        Err(error) => answered_err::<C, Ctx>(
            before,
            ctx_before,
            after,
            ctx_after,
            span,
            key,
            dep_node,
            query,
            error,
        ),
    }
}

/// Once the query for a key whose job is not running has been answered,
/// asking again yields the same value, leaves the engine as it is and
/// invokes no provider.
pub proof fn lemma_answer_is_memoized<C: QueryCache, Ctx: QueryContext<C>>(
    start: &QueryEngine<C>,
    ctx_start: &Ctx,
    first: &QueryEngine<C>,
    ctx_first: &Ctx,
    second: &QueryEngine<C>,
    ctx_second: &Ctx,
    spans: (Span, Span),
    key: usize,
    dep_nodes: (Option<DepNode>, Option<DepNode>),
    queries: (&QueryVTable, &QueryVTable),
    stored: (C::Stored, C::Stored),
)
    requires
        !start.state.active().contains_key(key),
        answered_ok::<C, Ctx>(
            start,
            ctx_start,
            first,
            ctx_first,
            spans.0,
            key,
            dep_nodes.0,
            queries.0,
            stored.0,
        ),
        answered_ok::<C, Ctx>(
            first,
            ctx_first,
            second,
            ctx_second,
            spans.1,
            key,
            dep_nodes.1,
            queries.1,
            stored.1,
        ),
    ensures
        *second == *first,
        second.cache.resolve(stored.1) == first.cache.resolve(stored.0),
        ctx_second.provider_calls() == ctx_first.provider_calls(),
{
}

/// A request for a key whose job is running, and whose result is not
/// cached, invokes no provider and is answered by the cycle it closes: the
/// report starts at the key asked for again and names every running query
/// from there up to the innermost, in the order in which they were started.
/// The report reaches the user as the kind's policy says, and comes back
/// with the failure where the policy is to give up.
pub proof fn lemma_request_for_running_key_is_a_cycle<C: QueryCache, Ctx: QueryContext<C>>(
    before: &QueryEngine<C>,
    ctx_before: &Ctx,
    after: &QueryEngine<C>,
    ctx_after: &Ctx,
    span: Span,
    key: usize,
    dep_node: Option<DepNode>,
    query: &QueryVTable,
    answer: Result<C::Stored, QueryError>,
)
    requires
        before.wf(),
        before.state.active().contains_key(key),
        !before.cache.entries().contains_key(key),
        answered::<C, Ctx>(
            before,
            ctx_before,
            after,
            ctx_after,
            span,
            key,
            dep_node,
            query,
            answer,
        ),
    ensures
        ctx_after.provider_calls() == ctx_before.provider_calls(),
        after.cache.entries() == before.cache.entries(),
        ({
            let at = before.state.order().index_of(key);
            let cycle = cycle_from(before.state.stack(query.dep_kind), at, span);
            &&& 0 <= at < before.state.order().len()
            &&& cycle.len() == before.state.order().len() - at
            &&& cycle[0].query.key == key
            &&& cycle[0].span == span
            &&& forall|j: int|
                0 <= j < cycle.len() ==> (#[trigger] cycle[j]).query.key
                    == before.state.order()[at + j]
            &&& cycle_reported::<C, Ctx>(ctx_before, ctx_after, cycle, query.handle_cycle_error)
            &&& match answer {
                Ok(stored) => query.handle_cycle_error != HandleCycleError::Fatal
                    && after.cache.resolve(stored) == ctx_before.cycle_value(cycle),
                Err(error) => query.handle_cycle_error == HandleCycleError::Fatal
                    && error is FatalCycle && error->FatalCycle_0.cycle@ == cycle,
            }
        }),
{
    lemma_position(&before.state, query.dep_kind, key);
}

/// Where the result of the earlier session is on disk under a node that can
/// be marked green, and it passes the fingerprint check, a request that
/// makes the caller the owner of the key's job is answered with that value
/// and no provider is invoked.
pub proof fn lemma_unchanged_result_is_reused<C: QueryCache, Ctx: QueryContext<C>>(
    before: &QueryEngine<C>,
    ctx_before: &Ctx,
    after: &QueryEngine<C>,
    ctx_after: &Ctx,
    span: Span,
    key: usize,
    dep_node: Option<DepNode>,
    query: &QueryVTable,
    answer: Result<C::Stored, QueryError>,
)
    requires
        !before.cache.entries().contains_key(key),
        !before.state.active().contains_key(key),
        before.state.jobs() < u64::MAX,
        reuses::<C, Ctx>(
            ctx_before,
            node_of::<C, Ctx>(dep_node, query.dep_kind, key),
            key,
            query,
        ),
        disk_value_accepted::<C, Ctx>(
            ctx_before,
            node_of::<C, Ctx>(dep_node, query.dep_kind, key),
            key,
            query,
        ),
        answered::<C, Ctx>(
            before,
            ctx_before,
            after,
            ctx_after,
            span,
            key,
            dep_node,
            query,
            answer,
        ),
    ensures
        answer is Ok,
        after.cache.resolve(answer->Ok_0) == disk_value::<C, Ctx>(
            ctx_before,
            node_of::<C, Ctx>(dep_node, query.dep_kind, key),
            key,
        ),
        after.cache.entries().contains_key(key),
        after.cache.entries()[key].1 == (ctx_before.marks_green(
            node_of::<C, Ctx>(dep_node, query.dep_kind, key),
        )->0).1,
        ctx_after.provider_calls() == ctx_before.provider_calls(),
{
}

/// Where the result of the earlier session is loaded and checked, and it
/// does not hash as that session recorded, the request fails with the
/// mismatch: the value is neither returned nor cached, and no provider is
/// invoked.
pub proof fn lemma_mismatched_result_is_refused<C: QueryCache, Ctx: QueryContext<C>>(
    before: &QueryEngine<C>,
    ctx_before: &Ctx,
    after: &QueryEngine<C>,
    ctx_after: &Ctx,
    span: Span,
    key: usize,
    dep_node: Option<DepNode>,
    query: &QueryVTable,
    answer: Result<C::Stored, QueryError>,
)
    requires
        !before.cache.entries().contains_key(key),
        !before.state.active().contains_key(key),
        before.state.jobs() < u64::MAX,
        reuses::<C, Ctx>(
            ctx_before,
            node_of::<C, Ctx>(dep_node, query.dep_kind, key),
            key,
            query,
        ),
        !disk_value_accepted::<C, Ctx>(
            ctx_before,
            node_of::<C, Ctx>(dep_node, query.dep_kind, key),
            key,
            query,
        ),
        answered::<C, Ctx>(
            before,
            ctx_before,
            after,
            ctx_after,
            span,
            key,
            dep_node,
            query,
            answer,
        ),
    ensures
        answer is Err,
        answer->Err_0 == (QueryError::FingerprintMismatch {
            dep_node: node_of::<C, Ctx>(dep_node, query.dep_kind, key),
            recorded: ctx_before.prev_fingerprint(node_of::<C, Ctx>(dep_node, query.dep_kind, key)),
            computed: result_fingerprint::<C, Ctx>(
                query.hash_result,
                disk_value::<C, Ctx>(
                    ctx_before,
                    node_of::<C, Ctx>(dep_node, query.dep_kind, key),
                    key,
                ),
            ),
        }),
        after.cache == before.cache,
        ctx_after.provider_calls() == ctx_before.provider_calls(),
{
}

/// Of two values offered in turn for a key without a cached result, the
/// first enters the cache and stays. Where the kind hashes its results the
/// second offer succeeds, and it is noted as inconsistent exactly when the
/// two values hash differently. Where the kind does not hash its results
/// the second offer fails, whatever the values are.
pub proof fn lemma_second_feed<C: QueryCache, Ctx: QueryContext<C>>(
    start: &QueryEngine<C>,
    ctx_start: &Ctx,
    first: &QueryEngine<C>,
    ctx_first: &Ctx,
    second: &QueryEngine<C>,
    ctx_second: &Ctx,
    key: usize,
    values: (C::Value, C::Value),
    query: &QueryVTable,
    results: (Result<(), QueryError>, Result<(), QueryError>),
)
    requires
        !start.cache.entries().contains_key(key),
        fed::<C, Ctx>(start, ctx_start, first, ctx_first, key, values.0, query, results.0),
        fed::<C, Ctx>(first, ctx_first, second, ctx_second, key, values.1, query, results.1),
    ensures
        results.0 is Ok,
        *second == *first,
        second.cache.entries().contains_key(key),
        second.cache.entries()[key].0 == values.0,
        query.hash_result ==> results.1 is Ok,
        query.hash_result && Ctx::hash_spec(values.0) == Ctx::hash_spec(values.1)
            ==> ctx_second.inconsistencies() == ctx_first.inconsistencies(),
        query.hash_result && Ctx::hash_spec(values.0) != Ctx::hash_spec(values.1)
            ==> ctx_second.inconsistencies() == ctx_first.inconsistencies().push(key),
        !query.hash_result ==> results.1 == Err::<(), QueryError>(QueryError::FedTwice { key }),
{
}

} // verus!
