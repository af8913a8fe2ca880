use query_system::caches::{DefaultCache, QueryCache};
use query_system::config::{HandleCycleError, IchFailure, QueryError, QueryMode, QueryVTable};
use query_system::context::{query_ensure, query_get_at, IntoQueryParam, TyCtxt};
use query_system::dep_graph::{DepNode, DepNodeIndex, Fingerprint, SerializedDepNodeIndex};
use query_system::job::{CycleError, QueryInfo, QueryJobId, QueryStackFrame, Span};
use query_system::plumbing::{
    get_query, Diagnostic, QueryContext, QueryEngine, QuerySideEffects, TaskResult,
};

const KIND: u16 = 7;

fn vtable() -> QueryVTable {
    QueryVTable {
        anon: false,
        dep_kind: KIND,
        eval_always: false,
        depth_limit: false,
        feedable: false,
        hash_result: true,
        handle_cycle_error: HandleCycleError::Error,
        try_load_from_disk: true,
    }
}

fn sp(lo: u32) -> Span {
    Span { lo, hi: lo + 1 }
}

fn node(key: usize) -> DepNode {
    DepNode { kind: KIND, hash: Fingerprint(key as u64, 99) }
}

fn hash_of(value: u64) -> Fingerprint {
    Fingerprint(value, value * 32)
}

/// The collaborators of the tests. The provider of a key asks for each key
/// listed for it and returns ten times the key plus what it was given.
struct Ctx {
    query: QueryVTable,
    enabled: bool,
    verify_ich: bool,
    requests: Vec<(usize, Vec<usize>)>,
    aborts: Vec<usize>,
    emits: Vec<usize>,
    greens: Vec<(DepNode, SerializedDepNodeIndex, DepNodeIndex)>,
    marked: Vec<DepNode>,
    recorded: Vec<(DepNode, Fingerprint)>,
    disk: Vec<(usize, SerializedDepNodeIndex, u64)>,
    loadable: Vec<(usize, SerializedDepNodeIndex)>,
    not_on_disk: Vec<usize>,
    next_index: u32,
    calls: Vec<usize>,
    reads: Vec<DepNodeIndex>,
    tasks: Vec<(DepNode, usize)>,
    anon_tasks: Vec<usize>,
    untracked: Vec<usize>,
    fed: Vec<(DepNode, usize, u64, Option<Fingerprint>)>,
    side_effects: Vec<(DepNodeIndex, usize)>,
    anon_side_effects: Vec<(DepNodeIndex, usize)>,
    cycles: Vec<Vec<usize>>,
    usages: Vec<Option<(Span, QueryStackFrame)>>,
    delayed_cycles: Vec<Vec<usize>>,
    inconsistent: Vec<(usize, Fingerprint, Fingerprint)>,
    ich_failures: Vec<String>,
    nested_errors: Vec<String>,
}

impl Ctx {
    fn new() -> Ctx {
        Ctx {
            query: vtable(),
            enabled: true,
            verify_ich: false,
            requests: Vec::new(),
            aborts: Vec::new(),
            emits: Vec::new(),
            greens: Vec::new(),
            marked: Vec::new(),
            recorded: Vec::new(),
            disk: Vec::new(),
            loadable: Vec::new(),
            not_on_disk: Vec::new(),
            next_index: 100,
            calls: Vec::new(),
            reads: Vec::new(),
            tasks: Vec::new(),
            anon_tasks: Vec::new(),
            untracked: Vec::new(),
            fed: Vec::new(),
            side_effects: Vec::new(),
            anon_side_effects: Vec::new(),
            cycles: Vec::new(),
            usages: Vec::new(),
            delayed_cycles: Vec::new(),
            inconsistent: Vec::new(),
            ich_failures: Vec::new(),
            nested_errors: Vec::new(),
        }
    }

    fn fresh_index(&mut self) -> DepNodeIndex {
        self.next_index += 1;
        DepNodeIndex(self.next_index)
    }

    fn provide<C: QueryCache<Value = u64>>(
        &mut self,
        engine: &mut QueryEngine<C>,
        key: usize,
    ) -> Option<u64> {
        self.calls.push(key);
        if self.aborts.contains(&key) {
            return None;
        }
        let wanted: Vec<usize> = self
            .requests
            .iter()
            .filter(|(k, _)| *k == key)
            .flat_map(|(_, r)| r.iter().copied())
            .collect();
        let mut value = key as u64 * 10;
        let query = self.query;
        for other in wanted {
            match get_query(self, engine, sp(other as u32), other, QueryMode::Get, &query) {
                Ok(Some(stored)) => value += *engine.cache.value(&stored),
                Ok(None) => unreachable!(),
                Err(e) => {
                    self.nested_errors.push(format!("{:?}", e));
                    return None;
                }
            }
        }
        Some(value)
    }

    fn diagnostics_of(&self, key: usize) -> Vec<Diagnostic> {
        if self.emits.contains(&key) {
            vec![Diagnostic { code: key as u32, span: sp(0) }]
        } else {
            Vec::new()
        }
    }
}

fn keys_of(cycle: &[QueryInfo]) -> Vec<usize> {
    cycle.iter().map(|info| info.query.key).collect()
}

impl<C: QueryCache<Value = u64>> QueryContext<C> for Ctx {
    fn is_fully_enabled(&self) -> bool {
        self.enabled
    }

    fn incremental_verify_ich_enabled(&self) -> bool {
        self.verify_ich
    }

    fn crate_name(&self) -> Option<String> {
        Some(String::from("demo"))
    }

    fn to_dep_node(&self, dep_kind: u16, key: &usize) -> DepNode {
        DepNode { kind: dep_kind, hash: Fingerprint(*key as u64, 99) }
    }

    fn hash_result(&self, value: &u64) -> Fingerprint {
        hash_of(*value)
    }

    fn cache_on_disk(&self, key: &usize) -> bool {
        !self.not_on_disk.contains(key)
    }

    fn loadable_from_disk(&self, key: &usize, prev_index: SerializedDepNodeIndex) -> bool {
        self.loadable.contains(&(*key, prev_index))
    }

    fn is_green(&self, node: &DepNode) -> bool {
        self.marked.contains(node)
    }

    fn prev_fingerprint_of(&self, node: &DepNode) -> Option<Fingerprint> {
        self.recorded.iter().find(|(n, _)| n == node).map(|(_, f)| *f)
    }

    fn value_from_cycle_error(&self, cycle: &Vec<QueryInfo>) -> u64 {
        9000 + cycle.len() as u64
    }

    fn try_mark_green(&mut self, node: &DepNode) -> Option<(SerializedDepNodeIndex, DepNodeIndex)> {
        let found = self.greens.iter().find(|(n, _, _)| n == node).map(|(_, p, i)| (*p, *i));
        if found.is_some() && !self.marked.contains(node) {
            self.marked.push(*node);
        }
        found
    }

    fn read_index(&mut self, index: DepNodeIndex) {
        self.reads.push(index);
    }

    fn next_virtual_depnode_index(&mut self) -> DepNodeIndex {
        self.fresh_index()
    }

    fn try_load_from_disk(
        &mut self,
        key: &usize,
        prev_index: SerializedDepNodeIndex,
        _index: DepNodeIndex,
    ) -> Option<u64> {
        self.disk.iter().find(|(k, p, _)| k == key && *p == prev_index).map(|(_, _, v)| *v)
    }

    fn compute(
        &mut self,
        engine: &mut QueryEngine<C>,
        _job: QueryJobId,
        key: usize,
        _depth_limit: bool,
    ) -> Option<u64> {
        self.untracked.push(key);
        self.provide(engine, key)
    }

    fn with_task(
        &mut self,
        engine: &mut QueryEngine<C>,
        _job: QueryJobId,
        node: DepNode,
        key: usize,
        _depth_limit: bool,
    ) -> Option<TaskResult<u64>> {
        self.tasks.push((node, key));
        let value = self.provide(engine, key)?;
        let index = self.fresh_index();
        Some(TaskResult { value, index, diagnostics: self.diagnostics_of(key) })
    }

    fn with_anon_task(
        &mut self,
        engine: &mut QueryEngine<C>,
        _job: QueryJobId,
        _dep_kind: u16,
        key: usize,
        _depth_limit: bool,
    ) -> Option<TaskResult<u64>> {
        self.anon_tasks.push(key);
        let value = self.provide(engine, key)?;
        let index = self.fresh_index();
        Some(TaskResult { value, index, diagnostics: self.diagnostics_of(key) })
    }

    fn with_feed_task(
        &mut self,
        node: DepNode,
        key: usize,
        value: &u64,
        hash: Option<Fingerprint>,
    ) -> DepNodeIndex {
        self.fed.push((node, key, *value, hash));
        self.fresh_index()
    }

    fn store_side_effects(&mut self, index: DepNodeIndex, side_effects: QuerySideEffects) {
        self.side_effects.push((index, side_effects.diagnostics.len()));
    }

    fn store_side_effects_for_anon_node(
        &mut self,
        index: DepNodeIndex,
        side_effects: QuerySideEffects,
    ) {
        self.anon_side_effects.push((index, side_effects.diagnostics.len()));
    }

    fn emit_cycle_error(&mut self, error: &CycleError) {
        self.cycles.push(keys_of(&error.cycle));
        self.usages.push(error.usage);
    }

    fn delay_cycle_as_bug(&mut self, error: &CycleError) {
        self.delayed_cycles.push(keys_of(&error.cycle));
    }

    fn delay_inconsistent_value(&mut self, key: usize, recorded: Fingerprint, given: Fingerprint) {
        self.inconsistent.push((key, recorded, given));
    }

    fn emit_ich_failure(&mut self, failure: &IchFailure, result: &u64) {
        self.ich_failures.push(format!("{:?} for {}", failure, result));
    }
}


type Tcx = TyCtxt<DefaultCache<u64>, Ctx>;

fn tcx(ctx: Ctx) -> Tcx {
    let query = ctx.query;
    TyCtxt::new(QueryEngine::new(DefaultCache::new()), query, ctx)
}

#[test]
fn handle_answers_queries_and_memoizes() {
    let mut ctx = Ctx::new();
    ctx.requests = vec![(1, vec![2])];
    let mut tcx = tcx(ctx);
    assert_eq!(tcx.query(1usize).unwrap(), 30);
    assert_eq!(tcx.query(&1usize).unwrap(), 30);
    assert_eq!(tcx.query(2usize).unwrap(), 20);
    assert_eq!(tcx.query_system.fns.engine.calls, vec![1, 2]);
    assert_eq!(tcx.query_system.states.cache.lookup(&1).map(|e| e.0), Some(30));
}

#[test]
fn handle_at_a_place_asks_from_that_place() {
    let mut ctx = Ctx::new();
    ctx.requests = vec![(1, vec![1])];
    let mut at = tcx(ctx).at(Span { lo: 70, hi: 80 });
    assert_eq!(at.span, Span { lo: 70, hi: 80 });
    assert_eq!(at.query(1usize).unwrap(), 10 + 9001);
    assert_eq!(at.tcx.query_system.fns.engine.cycles, vec![vec![1]]);
    assert_eq!(at.query(1usize).unwrap(), 10 + 9001);
    assert_eq!(at.tcx.query_system.fns.engine.calls, vec![1]);
}

#[test]
fn query_get_at_returns_errors() {
    let mut ctx = Ctx::new();
    ctx.aborts = vec![3];
    let mut tcx = tcx(ctx);
    let result = query_get_at(&mut tcx, sp(0), 3);
    assert!(matches!(result, Err(QueryError::Poisoned { key: 3 })));
    assert!(tcx.query_system.states.state.all_inactive());
}

#[test]
fn ensuring_handle_runs_what_is_not_known_unchanged() {
    let mut ctx = Ctx::new();
    ctx.greens = vec![(node(4), SerializedDepNodeIndex(11), DepNodeIndex(21))];
    let mut ensure = tcx(ctx).ensure();
    ensure.query(4usize).unwrap();
    assert!(ensure.tcx.query_system.fns.engine.calls.is_empty());
    assert_eq!(ensure.tcx.query_system.states.cache.lookup(&4), None);
    ensure.query(5usize).unwrap();
    assert_eq!(ensure.tcx.query_system.fns.engine.calls, vec![5]);
    assert_eq!(ensure.tcx.query_system.states.cache.lookup(&5).map(|e| e.0), Some(50));
    ensure.query(&5usize).unwrap();
    assert_eq!(ensure.tcx.query_system.fns.engine.calls, vec![5]);
}

#[test]
fn ensuring_handle_with_value_wants_a_loadable_result() {
    let mut ctx = Ctx::new();
    ctx.greens = vec![
        (node(4), SerializedDepNodeIndex(11), DepNodeIndex(21)),
        (node(5), SerializedDepNodeIndex(12), DepNodeIndex(22)),
    ];
    ctx.loadable = vec![(5, SerializedDepNodeIndex(12))];
    ctx.recorded = vec![(node(4), hash_of(40))];
    let mut ensure = tcx(ctx).ensure_with_value();
    ensure.query(5usize).unwrap();
    assert!(ensure.tcx.query_system.fns.engine.calls.is_empty());
    ensure.query(4usize).unwrap();
    assert_eq!(ensure.tcx.query_system.fns.engine.calls, vec![4]);
    assert_eq!(ensure.tcx.query_system.states.cache.lookup(&4), Some((40, DepNodeIndex(21))));
}

#[test]
fn query_ensure_skips_cached_results() {
    let mut tcx = tcx(Ctx::new());
    tcx.query_system.states.cache.complete(8, 1, DepNodeIndex(2));
    query_ensure(&mut tcx, 8, false).unwrap();
    query_ensure(&mut tcx, 8, true).unwrap();
    assert!(tcx.query_system.fns.engine.calls.is_empty());
    assert_eq!(tcx.query_system.fns.engine.reads, vec![DepNodeIndex(2), DepNodeIndex(2)]);
}

#[test]
fn handle_marks_nodes_green() {
    let mut ctx = Ctx::new();
    ctx.greens = vec![(node(4), SerializedDepNodeIndex(11), DepNodeIndex(21))];
    let mut tcx = tcx(ctx);
    assert!(tcx.try_mark_green(&node(4)));
    assert!(!tcx.try_mark_green(&node(5)));
    assert_eq!(tcx.query_system.fns.engine.marked, vec![node(4)]);
}

#[test]
fn keys_are_taken_by_value_or_by_reference() {
    assert_eq!(7usize.into_query_param(), 7);
    assert_eq!((&7usize).into_query_param(), 7);
}

#[test]
fn handle_does_not_load_keys_that_are_not_stored_on_disk() {
    let mut ctx = Ctx::new();
    ctx.greens = vec![
        (node(4), SerializedDepNodeIndex(11), DepNodeIndex(21)),
        (node(5), SerializedDepNodeIndex(12), DepNodeIndex(22)),
    ];
    ctx.disk = vec![(4, SerializedDepNodeIndex(11), 444), (5, SerializedDepNodeIndex(12), 555)];
    ctx.recorded = vec![(node(4), hash_of(444)), (node(5), hash_of(50))];
    ctx.not_on_disk = vec![5];
    let mut tcx = tcx(ctx);
    assert_eq!(tcx.query(4usize).unwrap(), 444);
    assert_eq!(tcx.query(5usize).unwrap(), 50);
    assert_eq!(tcx.query_system.fns.engine.calls, vec![5]);
}
