//! Collaborators for a session that tracks no dependencies.
//!
//! Such a session has no earlier session to reuse: no node is ever green,
//! nothing is on disk and no result is hashed. What is left of the executor
//! is memoization: each key is computed once, by a provider that works from
//! the key alone.

use crate::caches::QueryCache;
use crate::config::IchFailure;
use crate::dep_graph::{
    invalid_index, zero_fingerprint, DepNode, DepNodeIndex, Fingerprint, SerializedDepNodeIndex,
};
use crate::job::{CycleError, QueryInfo, QueryJobId};
use crate::plumbing::{
    engine_kept, invoked, Diagnostic, ProviderCall, QueryContext, QueryEngine, QuerySideEffects,
    TaskResult, Tracking,
};
use vstd::prelude::*;

verus! {

/// Computes the value of a key from the key alone.
pub trait Provider<V> {
    /// The value of `key`, or nothing where the computation is abandoned.
    fn provide(&self, key: usize) -> (value: Option<V>);
}

/// The invocations of a provider, and their number.
struct Counted {
    invocations: u64,
    calls: Ghost<Seq<ProviderCall>>,
}

/// The collaborators of a session that tracks no dependencies, around a
/// provider that asks no further queries.
pub struct Untracked<P, C: QueryCache> {
    provider: P,
    placeholder: C::Value,
    next_index: u32,
    count: Counted,
    reads: Ghost<Seq<DepNodeIndex>>,
    inconsistencies: Ghost<Seq<usize>>,
    fed_values: Ghost<Seq<(DepNode, usize, C::Value, Option<Fingerprint>)>>,
    emitted_cycles: Ghost<Seq<Seq<QueryInfo>>>,
    delayed_cycles: Ghost<Seq<Seq<QueryInfo>>>,
    ich_failures: Ghost<Seq<(IchFailure, C::Value)>>,
    kept_side_effects: Ghost<Seq<(DepNodeIndex, Seq<Diagnostic>, bool)>>,
}

/// The count that a saturating counter shows after `n` increments.
pub open spec fn saturated(n: nat) -> u64 {
    if n <= u64::MAX {
        n as u64
    } else {
        u64::MAX
    }
}

/// The largest number that a provenance stamp is made of; the numbers
/// above it are kept for marks such as that of a value that entered no
/// cache.
pub open spec fn last_stamp() -> u32 {
    0xFFFF_FEFF
}

/// The number of the stamp that is given out after the one numbered
/// `stamp`: the next number, and 0 again after the last.
pub open spec fn stamp_after(stamp: u32) -> u32 {
    if stamp < last_stamp() {
        (stamp + 1) as u32
    } else {
        0
    }
}

/// What holds of a task that was run when the stamp numbered `before` was
/// due: a task that yielded a value carries that stamp and no messages, and
/// the next stamp is due after it; an abandoned task used no stamp.
pub open spec fn task_stamped<V>(before: u32, after: u32, done: Option<TaskResult<V>>) -> bool {
    match done {
        Some(task) => {
            &&& task.index == DepNodeIndex(before)
            &&& task.diagnostics@.len() == 0
            &&& after == stamp_after(before)
        },
        None => after == before,
    }
}

impl<P, C: QueryCache> Untracked<P, C> {
    /// The counter shows the invocations so far, and the next stamp is one
    /// that a provenance stamp can be made of.
    #[verifier::type_invariant]
    closed spec fn counted(&self) -> bool {
        &&& self.count.invocations == saturated(self.count.calls@.len())
        &&& self.next_index <= last_stamp()
    }

    /// The number of the provenance stamp that is given out next.
    pub closed spec fn next_stamp(&self) -> u32 {
        self.next_index
    }
}

impl<P: Provider<C::Value>, C: QueryCache> Untracked<P, C> where C::Value: Copy {
    /// The invocations of the provider, in order.
    pub closed spec fn calls(&self) -> Seq<ProviderCall> {
        self.count.calls@
    }

    /// The value that stands for the result of a query on a cycle.
    pub closed spec fn placeholder(&self) -> C::Value {
        self.placeholder
    }


    /// Collaborators around `provider`, with `placeholder` as the value of
    /// a query on a cycle.
    pub fn new(provider: P, placeholder: C::Value) -> (ctx: Self)
        ensures
            ctx.calls() == Seq::<ProviderCall>::empty(),
            ctx.placeholder() == placeholder,
            ctx.next_stamp() == 0,
            ctx.reads() == Seq::<DepNodeIndex>::empty(),
            ctx.inconsistencies() == Seq::<usize>::empty(),
            ctx.fed_values() == Seq::<(DepNode, usize, C::Value, Option<Fingerprint>)>::empty(),
            ctx.emitted_cycles() == Seq::<Seq<QueryInfo>>::empty(),
            ctx.delayed_cycles() == Seq::<Seq<QueryInfo>>::empty(),
            ctx.ich_failures() == Seq::<(IchFailure, C::Value)>::empty(),
            ctx.kept_side_effects() == Seq::<(DepNodeIndex, Seq<Diagnostic>, bool)>::empty(),
    {
        Untracked {
            provider,
            placeholder,
            next_index: 0,
            count: Counted { invocations: 0, calls: Ghost(Seq::empty()) },
            reads: Ghost(Seq::empty()),
            inconsistencies: Ghost(Seq::empty()),
            fed_values: Ghost(Seq::empty()),
            emitted_cycles: Ghost(Seq::empty()),
            delayed_cycles: Ghost(Seq::empty()),
            ich_failures: Ghost(Seq::empty()),
            kept_side_effects: Ghost(Seq::empty()),
        }
    }

    /// How often the provider was invoked; the count stops at the largest
    /// number it can show.
    pub fn invocations(&self) -> (n: u64)
        ensures
            n == saturated(self.calls().len()),
    {
        proof {
            use_type_invariant(self);
        }
        self.count.invocations
    }

    /// Invokes the provider and counts the invocation.
    fn invoke(&mut self, call: ProviderCall) -> (value: Option<C::Value>)
        ensures
            final(self).count.calls@ == old(self).count.calls@.push(call),
            final(self).next_index == old(self).next_index,
            final(self).placeholder == old(self).placeholder,
            final(self).reads == old(self).reads,
            final(self).inconsistencies == old(self).inconsistencies,
            final(self).fed_values == old(self).fed_values,
            final(self).emitted_cycles == old(self).emitted_cycles,
            final(self).delayed_cycles == old(self).delayed_cycles,
            final(self).ich_failures == old(self).ich_failures,
            final(self).kept_side_effects == old(self).kept_side_effects,
    {
        proof {
            use_type_invariant(&*self);
        }
        let value = self.provider.provide(call.key);
        let invocations = if self.count.invocations < u64::MAX {
            self.count.invocations + 1
        } else {
            u64::MAX
        };
        self.count = Counted { invocations, calls: Ghost(self.count.calls@.push(call)) };
        value
    }

    /// Gives out the next provenance stamp: the stamps are numbered from 0
    /// up to the last number that a stamp is made of, and then from 0 again.
    fn fresh_index(&mut self) -> (index: DepNodeIndex)
        ensures
            index == DepNodeIndex(old(self).next_stamp()),
            index != invalid_index(),
            final(self).next_stamp() == stamp_after(old(self).next_stamp()),
            final(self).count == old(self).count,
            final(self).placeholder == old(self).placeholder,
            final(self).reads == old(self).reads,
            final(self).inconsistencies == old(self).inconsistencies,
            final(self).fed_values == old(self).fed_values,
            final(self).emitted_cycles == old(self).emitted_cycles,
            final(self).delayed_cycles == old(self).delayed_cycles,
            final(self).ich_failures == old(self).ich_failures,
            final(self).kept_side_effects == old(self).kept_side_effects,
    {
        proof {
            use_type_invariant(&*self);
        }
        let index = DepNodeIndex(self.next_index);
        self.next_index = if self.next_index < 0xFFFF_FEFF {
            self.next_index + 1
        } else {
            0
        };
        index
    }
}

impl<C: QueryCache, P: Provider<C::Value>> QueryContext<C> for Untracked<P, C> where
    C::Value: Copy,
 {
    open spec fn provider_calls(&self) -> Seq<ProviderCall> {
        self.calls()
    }

    closed spec fn reads(&self) -> Seq<DepNodeIndex> {
        self.reads@
    }

    closed spec fn inconsistencies(&self) -> Seq<usize> {
        self.inconsistencies@
    }

    closed spec fn fed_values(&self) -> Seq<(DepNode, usize, C::Value, Option<Fingerprint>)> {
        self.fed_values@
    }

    closed spec fn emitted_cycles(&self) -> Seq<Seq<QueryInfo>> {
        self.emitted_cycles@
    }

    closed spec fn delayed_cycles(&self) -> Seq<Seq<QueryInfo>> {
        self.delayed_cycles@
    }

    closed spec fn ich_failures(&self) -> Seq<(IchFailure, C::Value)> {
        self.ich_failures@
    }

    closed spec fn kept_side_effects(&self) -> Seq<(DepNodeIndex, Seq<Diagnostic>, bool)> {
        self.kept_side_effects@
    }

    open spec fn crate_name_spec(&self) -> Option<String> {
        None
    }

    open spec fn green(&self, node: DepNode) -> bool {
        false
    }

    open spec fn prev_fingerprint(&self, node: DepNode) -> Option<Fingerprint> {
        None
    }

    open spec fn fully_enabled(&self) -> bool {
        false
    }

    open spec fn verify_ich(&self) -> bool {
        false
    }

    open spec fn marks_green(&self, node: DepNode) -> Option<
        (SerializedDepNodeIndex, DepNodeIndex),
    > {
        None
    }

    open spec fn on_disk(&self, key: usize, prev_index: SerializedDepNodeIndex) -> Option<
        C::Value,
    > {
        None
    }

    open spec fn loadable(&self, key: usize, prev_index: SerializedDepNodeIndex) -> bool {
        false
    }

    open spec fn caches_on_disk(&self, key: usize) -> bool {
        false
    }

    open spec fn hash_spec(value: C::Value) -> Fingerprint {
        Fingerprint::zero()
    }

    open spec fn dep_node_spec(dep_kind: u16, key: usize) -> DepNode {
        DepNode { kind: dep_kind, hash: Fingerprint(key as u64, 0) }
    }

    closed spec fn cycle_value(&self, cycle: Seq<QueryInfo>) -> C::Value {
        self.placeholder
    }

    fn is_fully_enabled(&self) -> (enabled: bool) {
        false
    }

    fn incremental_verify_ich_enabled(&self) -> (enabled: bool) {
        false
    }

    fn crate_name(&self) -> (name: Option<String>) {
        None
    }

    fn to_dep_node(&self, dep_kind: u16, key: &usize) -> (node: DepNode) {
        DepNode { kind: dep_kind, hash: Fingerprint(*key as u64, 0) }
    }

    fn hash_result(&self, value: &C::Value) -> (hash: Fingerprint) {
        zero_fingerprint()
    }

    fn cache_on_disk(&self, key: &usize) -> (cached: bool) {
        false
    }

    fn loadable_from_disk(&self, key: &usize, prev_index: SerializedDepNodeIndex) -> (loadable:
        bool) {
        false
    }

    fn is_green(&self, node: &DepNode) -> (green: bool) {
        false
    }

    fn prev_fingerprint_of(&self, node: &DepNode) -> (recorded: Option<Fingerprint>) {
        None
    }

    fn value_from_cycle_error(&self, cycle: &Vec<QueryInfo>) -> (value: C::Value) {
        self.placeholder
    }

    fn try_mark_green(&mut self, node: &DepNode) -> (marked: Option<
        (SerializedDepNodeIndex, DepNodeIndex),
    >)
        ensures
            *final(self) == *old(self),
    {
        None
    }

    fn read_index(&mut self, index: DepNodeIndex)
        ensures
            final(self).next_stamp() == old(self).next_stamp(),
    {
        proof {
            use_type_invariant(&*self);
        }
        self.reads = Ghost(self.reads@.push(index));
    }

    fn next_virtual_depnode_index(&mut self) -> (index: DepNodeIndex)
        ensures
            index == DepNodeIndex(old(self).next_stamp()),
            index != invalid_index(),
            final(self).next_stamp() == stamp_after(old(self).next_stamp()),
    {
        self.fresh_index()
    }

    fn try_load_from_disk(
        &mut self,
        key: &usize,
        prev_index: SerializedDepNodeIndex,
        index: DepNodeIndex,
    ) -> (loaded: Option<C::Value>)
        ensures
            *final(self) == *old(self),
    {
        None
    }

    fn compute(
        &mut self,
        engine: &mut QueryEngine<C>,
        job: QueryJobId,
        key: usize,
        depth_limit: bool,
    ) -> (value: Option<C::Value>)
        ensures
            *final(engine) == *old(engine),
            final(self).provider_calls() == old(self).provider_calls().push(
                ProviderCall { key, tracking: Tracking::Untracked, depth_limit },
            ),
            final(self).next_stamp() == old(self).next_stamp(),
    {
        self.invoke(ProviderCall { key, tracking: Tracking::Untracked, depth_limit })
    }

    fn with_task(
        &mut self,
        engine: &mut QueryEngine<C>,
        job: QueryJobId,
        node: DepNode,
        key: usize,
        depth_limit: bool,
    ) -> (done: Option<TaskResult<C::Value>>)
        ensures
            *final(engine) == *old(engine),
            final(self).provider_calls() == old(self).provider_calls().push(
                ProviderCall { key, tracking: Tracking::Task(node), depth_limit },
            ),
            task_stamped(old(self).next_stamp(), final(self).next_stamp(), done),
    {
        match self.invoke(ProviderCall { key, tracking: Tracking::Task(node), depth_limit }) {
            Some(value) => {
                let index = self.fresh_index();
                Some(TaskResult { value, index, diagnostics: Vec::new() })
            },
            None => None,
        }
    }

    fn with_anon_task(
        &mut self,
        engine: &mut QueryEngine<C>,
        job: QueryJobId,
        dep_kind: u16,
        key: usize,
        depth_limit: bool,
    ) -> (done: Option<TaskResult<C::Value>>)
        ensures
            *final(engine) == *old(engine),
            final(self).provider_calls() == old(self).provider_calls().push(
                ProviderCall { key, tracking: Tracking::Anon(dep_kind), depth_limit },
            ),
            task_stamped(old(self).next_stamp(), final(self).next_stamp(), done),
    {
        match self.invoke(ProviderCall { key, tracking: Tracking::Anon(dep_kind), depth_limit }) {
            Some(value) => {
                let index = self.fresh_index();
                Some(TaskResult { value, index, diagnostics: Vec::new() })
            },
            None => None,
        }
    }

    fn with_feed_task(&mut self, node: DepNode, key: usize, value: &C::Value, hash: Option<
        Fingerprint,
    >) -> (index: DepNodeIndex)
        ensures
            index == DepNodeIndex(old(self).next_stamp()),
            index != invalid_index(),
            final(self).next_stamp() == stamp_after(old(self).next_stamp()),
    {
        proof {
            use_type_invariant(&*self);
        }
        self.fed_values = Ghost(self.fed_values@.push((node, key, *value, hash)));
        self.fresh_index()
    }

    fn store_side_effects(&mut self, index: DepNodeIndex, side_effects: QuerySideEffects)
        ensures
            final(self).next_stamp() == old(self).next_stamp(),
    {
        proof {
            use_type_invariant(&*self);
        }
        self.kept_side_effects = Ghost(
            self.kept_side_effects@.push((index, side_effects.diagnostics@, false)),
        );
    }

    fn store_side_effects_for_anon_node(
        &mut self,
        index: DepNodeIndex,
        side_effects: QuerySideEffects,
    )
        ensures
            final(self).next_stamp() == old(self).next_stamp(),
    {
        proof {
            use_type_invariant(&*self);
        }
        self.kept_side_effects = Ghost(
            self.kept_side_effects@.push((index, side_effects.diagnostics@, true)),
        );
    }

    fn emit_cycle_error(&mut self, error: &CycleError)
        ensures
            final(self).next_stamp() == old(self).next_stamp(),
    {
        proof {
            use_type_invariant(&*self);
        }
        self.emitted_cycles = Ghost(self.emitted_cycles@.push(error.cycle@));
    }

    fn delay_cycle_as_bug(&mut self, error: &CycleError)
        ensures
            final(self).next_stamp() == old(self).next_stamp(),
    {
        proof {
            use_type_invariant(&*self);
        }
        self.delayed_cycles = Ghost(self.delayed_cycles@.push(error.cycle@));
    }

    fn delay_inconsistent_value(&mut self, key: usize, recorded: Fingerprint, given: Fingerprint)
        ensures
            final(self).next_stamp() == old(self).next_stamp(),
    {
        proof {
            use_type_invariant(&*self);
        }
        self.inconsistencies = Ghost(self.inconsistencies@.push(key));
    }

    fn emit_ich_failure(&mut self, failure: &IchFailure, result: &C::Value)
        ensures
            final(self).next_stamp() == old(self).next_stamp(),
    {
        proof {
            use_type_invariant(&*self);
        }
        self.ich_failures = Ghost(self.ich_failures@.push((*failure, *result)));
    }
}

} // verus!
