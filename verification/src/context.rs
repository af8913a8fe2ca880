//! The handle through which the rest of a program asks queries: the engine
//! of a query kind together with the collaborators plugged into it.

use crate::caches::QueryCache;
use crate::config::{QueryError, QueryMode, QueryVTable};
use crate::dep_graph::DepNode;
use crate::job::{dummy_sp, dummy_span, Span};
use crate::plumbing::{
    answered, continues, engine_kept, get_query, known_unchanged, make_vtable, try_get_cached,
    vtable_for, QueryContext, QueryEngine,
};
use vstd::prelude::*;

verus! {

/// An analogue of `Into` that is meant for query keys alone: it lets a query
/// take its key by value or by reference.
pub trait IntoQueryParam<P> {
    /// The key that `self` stands for.
    spec fn param(self) -> P;

    fn into_query_param(self) -> (p: P)
        ensures
            p == self.param(),
    ;
}

impl IntoQueryParam<usize> for usize {
    open spec fn param(self) -> usize {
        self
    }

    fn into_query_param(self) -> (p: usize) {
        self
    }
}

impl<'a> IntoQueryParam<usize> for &'a usize {
    open spec fn param(self) -> usize {
        *self
    }

    fn into_query_param(self) -> (p: usize) {
        *self
    }
}

/// What the surrounding program plugs into the query system.
pub struct QuerySystemFns<Ctx> {
    /// The providers and the other collaborators of the executor.
    pub engine: Ctx,
}

/// The query system of one query kind.
pub struct QuerySystem<C: QueryCache, Ctx: QueryContext<C>> {
    /// The cache and the running jobs.
    pub states: QueryEngine<C>,
    /// The configuration of the kind.
    pub query: QueryVTable,
    pub fns: QuerySystemFns<Ctx>,
}

/// The handle through which queries are asked.
pub struct TyCtxt<C: QueryCache, Ctx: QueryContext<C>> {
    pub query_system: QuerySystem<C, Ctx>,
}

/// A handle that asks its queries on behalf of a place in the source.
pub struct TyCtxtAt<C: QueryCache, Ctx: QueryContext<C>> {
    pub tcx: TyCtxt<C, Ctx>,
    pub span: Span,
}

/// A handle that makes sure of queries instead of returning their results.
pub struct TyCtxtEnsure<C: QueryCache, Ctx: QueryContext<C>> {
    pub tcx: TyCtxt<C, Ctx>,
}

/// A handle that makes sure of queries and of their results being at hand.
pub struct TyCtxtEnsureWithValue<C: QueryCache, Ctx: QueryContext<C>> {
    pub tcx: TyCtxt<C, Ctx>,
}

/// Answers the query for `key`, asked at `span`: from the cache where the
/// result is there, and else through the executor.
pub fn query_get_at<C: QueryCache, Ctx: QueryContext<C>>(
    tcx: &mut TyCtxt<C, Ctx>,
    span: Span,
    key: usize,
) -> (result: Result<C::Stored, QueryError>)
    requires
        old(tcx).query_system.states.wf(),
    ensures
        final(tcx).query_system.query == old(tcx).query_system.query,
        engine_kept(&old(tcx).query_system.states, &final(tcx).query_system.states),
        answered::<C, Ctx>(
            &old(tcx).query_system.states,
            &old(tcx).query_system.fns.engine,
            &final(tcx).query_system.states,
            &final(tcx).query_system.fns.engine,
            span,
            key,
            None,
            &vtable_for::<C, Ctx>(
                &old(tcx).query_system.fns.engine,
                &old(tcx).query_system.query,
                key,
            ),
            result,
        ),
{
    let query = make_vtable::<C, Ctx>(&tcx.query_system.fns.engine, &tcx.query_system.query, &key);
    let hit = try_get_cached::<C, Ctx>(
        &mut tcx.query_system.fns.engine,
        &tcx.query_system.states.cache,
        &key,
    );
    match hit {
        Some(value) => Ok(value),
        None => {
            let got = get_query::<C, Ctx>(
                &mut tcx.query_system.fns.engine,
                &mut tcx.query_system.states,
                span,
                key,
                QueryMode::Get,
                &query,
            );
            match got {
                Ok(Some(value)) => Ok(value),
                Ok(None) => {
                    assert(false);
                    Err(QueryError::JobsExhausted)
                },
                Err(e) => Err(e),
            }
        },
    }
}

/// Makes sure of the query for `key`: nothing is done where its result is
/// cached or the query is known unchanged, and else the query runs.
pub fn query_ensure<C: QueryCache, Ctx: QueryContext<C>>(
    tcx: &mut TyCtxt<C, Ctx>,
    key: usize,
    check_cache: bool,
) -> (result: Result<(), QueryError>)
    requires
        old(tcx).query_system.states.wf(),
        old(tcx).query_system.query.eval_always || !old(tcx).query_system.query.anon,
    ensures
        final(tcx).query_system.query == old(tcx).query_system.query,
        engine_kept(&old(tcx).query_system.states, &final(tcx).query_system.states),
        continues(
            old(tcx).query_system.fns.engine.provider_calls(),
            final(tcx).query_system.fns.engine.provider_calls(),
        ),
        old(tcx).query_system.states.cache.entries().contains_key(key) || known_unchanged::<C, Ctx>(
            &old(tcx).query_system.fns.engine,
            key,
            &old(tcx).query_system.query,
            check_cache,
        ) ==> {
            &&& result is Ok
            &&& final(tcx).query_system.states == old(tcx).query_system.states
            &&& final(tcx).query_system.fns.engine.provider_calls() == old(tcx).query_system.fns.engine.provider_calls()
        },
        result is Ok && !old(tcx).query_system.states.state.active().contains_key(key)
            && !known_unchanged::<C, Ctx>(
            &old(tcx).query_system.fns.engine,
            key,
            &old(tcx).query_system.query,
            check_cache,
        ) ==> final(tcx).query_system.states.cache.entries().contains_key(key),
{
    let query = make_vtable::<C, Ctx>(&tcx.query_system.fns.engine, &tcx.query_system.query, &key);
    let hit = try_get_cached::<C, Ctx>(
        &mut tcx.query_system.fns.engine,
        &tcx.query_system.states.cache,
        &key,
    );
    if hit.is_none() {
        let got = get_query::<C, Ctx>(
            &mut tcx.query_system.fns.engine,
            &mut tcx.query_system.states,
            dummy_sp(),
            key,
            QueryMode::Ensure { check_cache },
            &query,
        );
        match got {
            Ok(_) => Ok(()),
            Err(e) => Err(e),
        }
    } else {
        Ok(())
    }
}

impl<C: QueryCache, Ctx: QueryContext<C>> TyCtxt<C, Ctx> {
    /// A handle around an engine, the configuration of its kind and the
    /// collaborators.
    pub fn new(states: QueryEngine<C>, query: QueryVTable, engine: Ctx) -> (tcx: Self)
        ensures
            tcx.query_system.states == states,
            tcx.query_system.query == query,
            tcx.query_system.fns.engine == engine,
    {
        TyCtxt { query_system: QuerySystem { states, query, fns: QuerySystemFns { engine } } }
    }

    /// Wraps the handle so that queries are made sure of instead of
    /// answered.
    pub fn ensure(self) -> (wrapped: TyCtxtEnsure<C, Ctx>)
        ensures
            wrapped.tcx == self,
    {
        TyCtxtEnsure { tcx: self }
    }

    /// Wraps the handle so that queries are made sure of, and of their
    /// results being at hand, instead of answered.
    pub fn ensure_with_value(self) -> (wrapped: TyCtxtEnsureWithValue<C, Ctx>)
        ensures
            wrapped.tcx == self,
    {
        TyCtxtEnsureWithValue { tcx: self }
    }

    /// Wraps the handle so that queries are asked on behalf of `span`.
    pub fn at(self, span: Span) -> (wrapped: TyCtxtAt<C, Ctx>)
        ensures
            wrapped.tcx == self,
            wrapped.span == span,
    {
        TyCtxtAt { tcx: self, span }
    }

    /// Tries to mark the node green, and says whether that succeeded.
    pub fn try_mark_green(&mut self, dep_node: &DepNode) -> (green: bool)
        ensures
            green == old(self).query_system.fns.engine.marks_green(*dep_node) is Some,
            green ==> final(self).query_system.fns.engine.green(*dep_node),
            final(self).query_system.states == old(self).query_system.states,
            final(self).query_system.query == old(self).query_system.query,
            final(self).query_system.fns.engine.provider_calls() == old(self).query_system.fns.engine.provider_calls(),
    {
        self.query_system.fns.engine.try_mark_green(dep_node).is_some()
    }

    /// Answers the query for `key`, asked at no place in particular.
    pub fn query<K: IntoQueryParam<usize>>(&mut self, key: K) -> (result: Result<
        C::Stored,
        QueryError,
    >)
        requires
            old(self).query_system.states.wf(),
        ensures
            final(self).query_system.query == old(self).query_system.query,
            engine_kept(&old(self).query_system.states, &final(self).query_system.states),
            answered::<C, Ctx>(
                &old(self).query_system.states,
                &old(self).query_system.fns.engine,
                &final(self).query_system.states,
                &final(self).query_system.fns.engine,
                dummy_span(),
                key.param(),
                None,
                &vtable_for::<C, Ctx>(
                    &old(self).query_system.fns.engine,
                    &old(self).query_system.query,
                    key.param(),
                ),
                result,
            ),
    {
        query_get_at::<C, Ctx>(self, dummy_sp(), key.into_query_param())
    }
}

impl<C: QueryCache, Ctx: QueryContext<C>> TyCtxtAt<C, Ctx> {
    /// Answers the query for `key`, asked at the place of this handle.
    pub fn query<K: IntoQueryParam<usize>>(&mut self, key: K) -> (result: Result<
        C::Stored,
        QueryError,
    >)
        requires
            old(self).tcx.query_system.states.wf(),
        ensures
            final(self).span == old(self).span,
            final(self).tcx.query_system.query == old(self).tcx.query_system.query,
            engine_kept(&old(self).tcx.query_system.states, &final(self).tcx.query_system.states),
            answered::<C, Ctx>(
                &old(self).tcx.query_system.states,
                &old(self).tcx.query_system.fns.engine,
                &final(self).tcx.query_system.states,
                &final(self).tcx.query_system.fns.engine,
                old(self).span,
                key.param(),
                None,
                &vtable_for::<C, Ctx>(
                    &old(self).tcx.query_system.fns.engine,
                    &old(self).tcx.query_system.query,
                    key.param(),
                ),
                result,
            ),
    {
        let span = self.span;
        query_get_at::<C, Ctx>(&mut self.tcx, span, key.into_query_param())
    }
}

impl<C: QueryCache, Ctx: QueryContext<C>> TyCtxtEnsure<C, Ctx> {
    /// Makes sure of the query for `key`: it has a cached result, is known
    /// unchanged, or runs now.
    pub fn query<K: IntoQueryParam<usize>>(&mut self, key: K) -> (result: Result<(), QueryError>)
        requires
            old(self).tcx.query_system.states.wf(),
            old(self).tcx.query_system.query.eval_always || !old(self).tcx.query_system.query.anon,
        ensures
            final(self).tcx.query_system.query == old(self).tcx.query_system.query,
            engine_kept(&old(self).tcx.query_system.states, &final(self).tcx.query_system.states),
            continues(
                old(self).tcx.query_system.fns.engine.provider_calls(),
                final(self).tcx.query_system.fns.engine.provider_calls(),
            ),
            old(self).tcx.query_system.states.cache.entries().contains_key(key.param())
                || known_unchanged::<C, Ctx>(
                &old(self).tcx.query_system.fns.engine,
                key.param(),
                &old(self).tcx.query_system.query,
                false,
            ) ==> {
                &&& result is Ok
                &&& final(self).tcx.query_system.states == old(self).tcx.query_system.states
                &&& final(self).tcx.query_system.fns.engine.provider_calls() == old(self).tcx.query_system.fns.engine.provider_calls()
            },
            result is Ok && !old(self).tcx.query_system.states.state.active().contains_key(
                key.param(),
            ) && !known_unchanged::<C, Ctx>(
                &old(self).tcx.query_system.fns.engine,
                key.param(),
                &old(self).tcx.query_system.query,
                false,
            ) ==> final(self).tcx.query_system.states.cache.entries().contains_key(key.param()),
    {
        query_ensure::<C, Ctx>(&mut self.tcx, key.into_query_param(), false)
    }
}

impl<C: QueryCache, Ctx: QueryContext<C>> TyCtxtEnsureWithValue<C, Ctx> {
    /// Makes sure of the query for `key` and of its result being at hand: it
    /// has a cached result, is known unchanged with a result that can be
    /// loaded, or runs now.
    pub fn query<K: IntoQueryParam<usize>>(&mut self, key: K) -> (result: Result<(), QueryError>)
        requires
            old(self).tcx.query_system.states.wf(),
            old(self).tcx.query_system.query.eval_always || !old(self).tcx.query_system.query.anon,
        ensures
            final(self).tcx.query_system.query == old(self).tcx.query_system.query,
            engine_kept(&old(self).tcx.query_system.states, &final(self).tcx.query_system.states),
            continues(
                old(self).tcx.query_system.fns.engine.provider_calls(),
                final(self).tcx.query_system.fns.engine.provider_calls(),
            ),
            old(self).tcx.query_system.states.cache.entries().contains_key(key.param())
                || known_unchanged::<C, Ctx>(
                &old(self).tcx.query_system.fns.engine,
                key.param(),
                &old(self).tcx.query_system.query,
                true,
            ) ==> {
                &&& result is Ok
                &&& final(self).tcx.query_system.states == old(self).tcx.query_system.states
                &&& final(self).tcx.query_system.fns.engine.provider_calls() == old(self).tcx.query_system.fns.engine.provider_calls()
            },
            result is Ok && !old(self).tcx.query_system.states.state.active().contains_key(
                key.param(),
            ) && !known_unchanged::<C, Ctx>(
                &old(self).tcx.query_system.fns.engine,
                key.param(),
                &old(self).tcx.query_system.query,
                true,
            ) ==> final(self).tcx.query_system.states.cache.entries().contains_key(key.param()),
    {
        query_ensure::<C, Ctx>(&mut self.tcx, key.into_query_param(), true)
    }
}

} // verus!
