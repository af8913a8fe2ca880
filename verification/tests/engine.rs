use query_system::caches::{ArenaCache, DefaultCache, QueryCache, QueryStorage, VecCache};
use query_system::config::{HandleCycleError, IchFailure, QueryError, QueryMode, QueryVTable};
use query_system::dep_graph::{DepNode, DepNodeIndex, Fingerprint, SerializedDepNodeIndex};
use query_system::job::{CycleError, QueryInfo, QueryJobId, QueryStackFrame, Span};
use query_system::plumbing::{
    check_against_fed, execute_job, feed, finish_task, force_query, get_query,
    handle_cycle_error, incremental_verify_ich, incremental_verify_ich_failed, make_vtable,
    mk_cycle, should_verify, try_execute_query, try_get_cached, Diagnostic, QueryContext,
    QueryEngine, QuerySideEffects, TaskResult,
};

const KIND: u16 = 7;

fn vtable() -> QueryVTable {
    QueryVTable {
        anon: false,
        dep_kind: KIND,
        eval_always: false,
        depth_limit: false,
        feedable: false,
        hash_result: true,
        handle_cycle_error: HandleCycleError::Error,
        try_load_from_disk: true,
    }
}

fn sp(lo: u32) -> Span {
    Span { lo, hi: lo + 1 }
}

fn node(key: usize) -> DepNode {
    DepNode { kind: KIND, hash: Fingerprint(key as u64, 99) }
}

fn hash_of(value: u64) -> Fingerprint {
    Fingerprint(value, value * 32)
}

/// The collaborators of the tests. The provider of a key asks for each key
/// listed for it and returns ten times the key plus what it was given.
struct Ctx {
    query: QueryVTable,
    enabled: bool,
    verify_ich: bool,
    requests: Vec<(usize, Vec<usize>)>,
    aborts: Vec<usize>,
    emits: Vec<usize>,
    greens: Vec<(DepNode, SerializedDepNodeIndex, DepNodeIndex)>,
    marked: Vec<DepNode>,
    recorded: Vec<(DepNode, Fingerprint)>,
    disk: Vec<(usize, SerializedDepNodeIndex, u64)>,
    loadable: Vec<(usize, SerializedDepNodeIndex)>,
    not_on_disk: Vec<usize>,
    next_index: u32,
    calls: Vec<usize>,
    reads: Vec<DepNodeIndex>,
    tasks: Vec<(DepNode, usize)>,
    anon_tasks: Vec<usize>,
    untracked: Vec<usize>,
    fed: Vec<(DepNode, usize, u64, Option<Fingerprint>)>,
    side_effects: Vec<(DepNodeIndex, usize)>,
    anon_side_effects: Vec<(DepNodeIndex, usize)>,
    cycles: Vec<Vec<usize>>,
    usages: Vec<Option<(Span, QueryStackFrame)>>,
    delayed_cycles: Vec<Vec<usize>>,
    inconsistent: Vec<(usize, Fingerprint, Fingerprint)>,
    ich_failures: Vec<String>,
    nested_errors: Vec<String>,
}

impl Ctx {
    fn new() -> Ctx {
        Ctx {
            query: vtable(),
            enabled: true,
            verify_ich: false,
            requests: Vec::new(),
            aborts: Vec::new(),
            emits: Vec::new(),
            greens: Vec::new(),
            marked: Vec::new(),
            recorded: Vec::new(),
            disk: Vec::new(),
            loadable: Vec::new(),
            not_on_disk: Vec::new(),
            next_index: 100,
            calls: Vec::new(),
            reads: Vec::new(),
            tasks: Vec::new(),
            anon_tasks: Vec::new(),
            untracked: Vec::new(),
            fed: Vec::new(),
            side_effects: Vec::new(),
            anon_side_effects: Vec::new(),
            cycles: Vec::new(),
            usages: Vec::new(),
            delayed_cycles: Vec::new(),
            inconsistent: Vec::new(),
            ich_failures: Vec::new(),
            nested_errors: Vec::new(),
        }
    }

    fn fresh_index(&mut self) -> DepNodeIndex {
        self.next_index += 1;
        DepNodeIndex(self.next_index)
    }

    fn provide<C: QueryCache<Value = u64>>(
        &mut self,
        engine: &mut QueryEngine<C>,
        key: usize,
    ) -> Option<u64> {
        self.calls.push(key);
        if self.aborts.contains(&key) {
            return None;
        }
        let wanted: Vec<usize> = self
            .requests
            .iter()
            .filter(|(k, _)| *k == key)
            .flat_map(|(_, r)| r.iter().copied())
            .collect();
        let mut value = key as u64 * 10;
        let query = self.query;
        for other in wanted {
            match get_query(self, engine, sp(other as u32), other, QueryMode::Get, &query) {
                Ok(Some(stored)) => value += *engine.cache.value(&stored),
                Ok(None) => unreachable!(),
                Err(e) => {
                    self.nested_errors.push(format!("{:?}", e));
                    return None;
                }
            }
        }
        Some(value)
    }

    fn diagnostics_of(&self, key: usize) -> Vec<Diagnostic> {
        if self.emits.contains(&key) {
            vec![Diagnostic { code: key as u32, span: sp(0) }]
        } else {
            Vec::new()
        }
    }
}

fn keys_of(cycle: &[QueryInfo]) -> Vec<usize> {
    cycle.iter().map(|info| info.query.key).collect()
}

impl<C: QueryCache<Value = u64>> QueryContext<C> for Ctx {
    fn is_fully_enabled(&self) -> bool {
        self.enabled
    }

    fn incremental_verify_ich_enabled(&self) -> bool {
        self.verify_ich
    }

    fn crate_name(&self) -> Option<String> {
        Some(String::from("demo"))
    }

    fn to_dep_node(&self, dep_kind: u16, key: &usize) -> DepNode {
        DepNode { kind: dep_kind, hash: Fingerprint(*key as u64, 99) }
    }

    fn hash_result(&self, value: &u64) -> Fingerprint {
        hash_of(*value)
    }

    fn cache_on_disk(&self, key: &usize) -> bool {
        !self.not_on_disk.contains(key)
    }

    fn loadable_from_disk(&self, key: &usize, prev_index: SerializedDepNodeIndex) -> bool {
        self.loadable.contains(&(*key, prev_index))
    }

    fn is_green(&self, node: &DepNode) -> bool {
        self.marked.contains(node)
    }

    fn prev_fingerprint_of(&self, node: &DepNode) -> Option<Fingerprint> {
        self.recorded.iter().find(|(n, _)| n == node).map(|(_, f)| *f)
    }

    fn value_from_cycle_error(&self, cycle: &Vec<QueryInfo>) -> u64 {
        9000 + cycle.len() as u64
    }

    fn try_mark_green(&mut self, node: &DepNode) -> Option<(SerializedDepNodeIndex, DepNodeIndex)> {
        let found = self.greens.iter().find(|(n, _, _)| n == node).map(|(_, p, i)| (*p, *i));
        if found.is_some() && !self.marked.contains(node) {
            self.marked.push(*node);
        }
        found
    }

    fn read_index(&mut self, index: DepNodeIndex) {
        self.reads.push(index);
    }

    fn next_virtual_depnode_index(&mut self) -> DepNodeIndex {
        self.fresh_index()
    }

    fn try_load_from_disk(
        &mut self,
        key: &usize,
        prev_index: SerializedDepNodeIndex,
        _index: DepNodeIndex,
    ) -> Option<u64> {
        self.disk.iter().find(|(k, p, _)| k == key && *p == prev_index).map(|(_, _, v)| *v)
    }

    fn compute(
        &mut self,
        engine: &mut QueryEngine<C>,
        _job: QueryJobId,
        key: usize,
        _depth_limit: bool,
    ) -> Option<u64> {
        self.untracked.push(key);
        self.provide(engine, key)
    }

    fn with_task(
        &mut self,
        engine: &mut QueryEngine<C>,
        _job: QueryJobId,
        node: DepNode,
        key: usize,
        _depth_limit: bool,
    ) -> Option<TaskResult<u64>> {
        self.tasks.push((node, key));
        let value = self.provide(engine, key)?;
        let index = self.fresh_index();
        Some(TaskResult { value, index, diagnostics: self.diagnostics_of(key) })
    }

    fn with_anon_task(
        &mut self,
        engine: &mut QueryEngine<C>,
        _job: QueryJobId,
        _dep_kind: u16,
        key: usize,
        _depth_limit: bool,
    ) -> Option<TaskResult<u64>> {
        self.anon_tasks.push(key);
        let value = self.provide(engine, key)?;
        let index = self.fresh_index();
        Some(TaskResult { value, index, diagnostics: self.diagnostics_of(key) })
    }

    fn with_feed_task(
        &mut self,
        node: DepNode,
        key: usize,
        value: &u64,
        hash: Option<Fingerprint>,
    ) -> DepNodeIndex {
        self.fed.push((node, key, *value, hash));
        self.fresh_index()
    }

    fn store_side_effects(&mut self, index: DepNodeIndex, side_effects: QuerySideEffects) {
        self.side_effects.push((index, side_effects.diagnostics.len()));
    }

    fn store_side_effects_for_anon_node(
        &mut self,
        index: DepNodeIndex,
        side_effects: QuerySideEffects,
    ) {
        self.anon_side_effects.push((index, side_effects.diagnostics.len()));
    }

    fn emit_cycle_error(&mut self, error: &CycleError) {
        self.cycles.push(keys_of(&error.cycle));
        self.usages.push(error.usage);
    }

    fn delay_cycle_as_bug(&mut self, error: &CycleError) {
        self.delayed_cycles.push(keys_of(&error.cycle));
    }

    fn delay_inconsistent_value(&mut self, key: usize, recorded: Fingerprint, given: Fingerprint) {
        self.inconsistent.push((key, recorded, given));
    }

    fn emit_ich_failure(&mut self, failure: &IchFailure, result: &u64) {
        self.ich_failures.push(format!("{:?} for {}", failure, result));
    }
}

type Engine = QueryEngine<DefaultCache<u64>>;

fn engine() -> Engine {
    QueryEngine::new(DefaultCache::new())
}

fn get(ctx: &mut Ctx, engine: &mut Engine, key: usize) -> Result<Option<u64>, QueryError> {
    let query = ctx.query;
    get_query(ctx, engine, sp(1000), key, QueryMode::Get, &query)
}


#[test]
fn memoization_second_call_does_not_invoke_provider() {
    let mut ctx = Ctx::new();
    let mut engine = engine();
    let first = get(&mut ctx, &mut engine, 4).unwrap();
    assert_eq!(first, Some(40));
    assert_eq!(ctx.calls, vec![4]);
    let second = get(&mut ctx, &mut engine, 4).unwrap();
    assert_eq!(second, Some(40));
    assert_eq!(ctx.calls, vec![4]);
    assert!(engine.state.all_inactive());
}

#[test]
fn fresh_result_is_cached_with_the_stamp_of_its_task() {
    let mut ctx = Ctx::new();
    let mut engine = engine();
    assert_eq!(get(&mut ctx, &mut engine, 3).unwrap(), Some(30));
    assert_eq!(engine.cache.lookup(&3), Some((30, DepNodeIndex(101))));
    assert_eq!(ctx.tasks, vec![(node(3), 3)]);
    assert_eq!(ctx.reads, vec![DepNodeIndex(101)]);
}

#[test]
fn cache_hit_records_a_read_of_the_cached_stamp() {
    let mut ctx = Ctx::new();
    let mut engine = engine();
    engine.cache.complete(5, 55, DepNodeIndex(8));
    assert_eq!(get(&mut ctx, &mut engine, 5).unwrap(), Some(55));
    assert_eq!(ctx.reads, vec![DepNodeIndex(8)]);
    assert!(ctx.calls.is_empty());
    assert_eq!(engine.state.jobs_started(), 0);
}

#[test]
fn nested_queries_run_once_each() {
    let mut ctx = Ctx::new();
    ctx.requests = vec![(1, vec![2, 3]), (2, vec![3])];
    let mut engine = engine();
    assert_eq!(get(&mut ctx, &mut engine, 1).unwrap(), Some(10 + (20 + 30) + 30));
    assert_eq!(ctx.calls, vec![1, 2, 3]);
    assert_eq!(engine.cache.lookup(&2).map(|e| e.0), Some(50));
    assert_eq!(engine.cache.lookup(&3).map(|e| e.0), Some(30));
    assert!(engine.state.all_inactive());
    assert_eq!(engine.state.jobs_started(), 3);
}

#[test]
fn request_for_own_key_is_a_cycle() {
    let mut ctx = Ctx::new();
    ctx.requests = vec![(1, vec![1])];
    let mut engine = engine();
    let value = get(&mut ctx, &mut engine, 1).unwrap();
    assert_eq!(ctx.cycles, vec![vec![1]]);
    assert_eq!(ctx.usages, vec![None]);
    assert_eq!(value, Some(10 + 9001));
    assert_eq!(ctx.calls, vec![1]);
    assert!(engine.state.all_inactive());
}

#[test]
fn cycle_report_names_every_query_on_the_cycle() {
    let mut ctx = Ctx::new();
    ctx.requests = vec![(0, vec![1]), (1, vec![2]), (2, vec![3]), (3, vec![1])];
    let mut engine = engine();
    let value = get(&mut ctx, &mut engine, 0).unwrap();
    assert_eq!(ctx.cycles, vec![vec![1, 2, 3]]);
    assert_eq!(
        ctx.usages,
        vec![Some((sp(1), QueryStackFrame { dep_kind: KIND, key: 0 }))]
    );
    assert_eq!(value, Some(0 + 10 + 20 + 30 + 9003));
    assert_eq!(ctx.calls, vec![0, 1, 2, 3]);
}

#[test]
fn placeholder_of_a_cycle_is_not_cached() {
    let mut ctx = Ctx::new();
    let mut engine = engine();
    let query = vtable();
    let started = query_system::state::JobOwner::try_start(
        &mut engine.state,
        None,
        sp(0),
        6,
        KIND,
    );
    let owner = match started {
        query_system::state::TryGetJob::NotYetStarted(owner) => owner,
        other => panic!("{:?}", other),
    };
    let answer = try_execute_query(&mut ctx, &mut engine, sp(4), 6, None, &query).unwrap();
    assert_eq!(answer, (9001, None));
    assert_eq!(engine.cache.lookup(&6), None);
    assert!(ctx.calls.is_empty());
    owner.poison(&mut engine.state);
    assert!(engine.state.all_inactive());
}

#[test]
fn fatal_cycle_gives_the_session_up() {
    let mut ctx = Ctx::new();
    ctx.query.handle_cycle_error = HandleCycleError::Fatal;
    ctx.requests = vec![(1, vec![2]), (2, vec![1])];
    let mut engine = engine();
    let result = get(&mut ctx, &mut engine, 1);
    assert!(matches!(result, Err(QueryError::Poisoned { key: 1 })));
    assert_eq!(ctx.cycles, vec![vec![1, 2]]);
    assert_eq!(ctx.nested_errors.len(), 2);
    assert!(ctx.nested_errors[0].starts_with("FatalCycle"));
    assert!(engine.state.all_inactive());
    assert_eq!(engine.cache.lookup(&1), None);
    assert_eq!(engine.cache.lookup(&2), None);
}

#[test]
fn delayed_cycle_is_noted_and_replaced_by_the_placeholder() {
    let mut ctx = Ctx::new();
    ctx.query.handle_cycle_error = HandleCycleError::DelayBug;
    ctx.requests = vec![(1, vec![2]), (2, vec![1])];
    let mut engine = engine();
    assert_eq!(get(&mut ctx, &mut engine, 1).unwrap(), Some(10 + 20 + 9002));
    assert!(ctx.cycles.is_empty());
    assert_eq!(ctx.delayed_cycles, vec![vec![1, 2]]);
}

#[test]
fn handle_cycle_error_follows_the_policy() {
    let error = || CycleError {
        usage: None,
        cycle: vec![QueryInfo { span: sp(1), query: QueryStackFrame { dep_kind: KIND, key: 2 } }],
    };
    let mut ctx = Ctx::new();
    let value =
        handle_cycle_error::<DefaultCache<u64>, Ctx>(&mut ctx, error(), HandleCycleError::Error);
    assert!(matches!(value, Ok(9001)));
    assert_eq!((ctx.cycles.len(), ctx.delayed_cycles.len()), (1, 0));
    let value =
        handle_cycle_error::<DefaultCache<u64>, Ctx>(&mut ctx, error(), HandleCycleError::DelayBug);
    assert!(matches!(value, Ok(9001)));
    assert_eq!((ctx.cycles.len(), ctx.delayed_cycles.len()), (1, 1));
    let value =
        handle_cycle_error::<DefaultCache<u64>, Ctx>(&mut ctx, error(), HandleCycleError::Fatal);
    match value {
        Err(QueryError::FatalCycle(e)) => assert_eq!(keys_of(&e.cycle), vec![2]),
        other => panic!("{:?}", other),
    }
    assert_eq!((ctx.cycles.len(), ctx.delayed_cycles.len()), (2, 1));
}

#[test]
fn mk_cycle_stores_the_placeholder_outside_the_cache() {
    let error = CycleError {
        usage: None,
        cycle: vec![
            QueryInfo { span: sp(1), query: QueryStackFrame { dep_kind: KIND, key: 2 } },
            QueryInfo { span: sp(2), query: QueryStackFrame { dep_kind: KIND, key: 3 } },
        ],
    };
    let mut ctx = Ctx::new();
    let mut cache: ArenaCache<u64> = ArenaCache::new();
    let stored = mk_cycle(&mut ctx, error, HandleCycleError::Error, &mut cache).unwrap();
    assert_eq!(*cache.value(&stored), 9002);
    assert!(cache.iter().is_empty());
    assert_eq!(cache.arena_len(), 1);
}

#[test]
fn abandoned_computation_poisons_and_may_be_retried() {
    let mut ctx = Ctx::new();
    ctx.aborts = vec![2];
    let mut engine = engine();
    let result = get(&mut ctx, &mut engine, 2);
    assert!(matches!(result, Err(QueryError::Poisoned { key: 2 })));
    assert!(engine.state.all_inactive());
    assert_eq!(engine.cache.lookup(&2), None);
    ctx.aborts.clear();
    assert_eq!(get(&mut ctx, &mut engine, 2).unwrap(), Some(20));
    assert_eq!(ctx.calls, vec![2, 2]);
}

#[test]
fn failure_of_a_nested_query_poisons_every_job_above_it() {
    let mut ctx = Ctx::new();
    ctx.requests = vec![(1, vec![2]), (2, vec![3])];
    ctx.aborts = vec![3];
    let mut engine = engine();
    let result = get(&mut ctx, &mut engine, 1);
    assert!(matches!(result, Err(QueryError::Poisoned { key: 1 })));
    assert!(engine.state.all_inactive());
    assert!(engine.cache.iter().is_empty());
    assert_eq!(ctx.calls, vec![1, 2, 3]);
}

#[test]
fn unchanged_result_is_loaded_from_disk_without_the_provider() {
    let mut ctx = Ctx::new();
    ctx.greens = vec![(node(4), SerializedDepNodeIndex(11), DepNodeIndex(21))];
    ctx.disk = vec![(4, SerializedDepNodeIndex(11), 444)];
    ctx.recorded = vec![(node(4), hash_of(444))];
    let mut engine = engine();
    assert_eq!(get(&mut ctx, &mut engine, 4).unwrap(), Some(444));
    assert!(ctx.calls.is_empty());
    assert_eq!(engine.cache.lookup(&4), Some((444, DepNodeIndex(21))));
    assert_eq!(ctx.reads, vec![DepNodeIndex(21)]);
    assert!(ctx.ich_failures.is_empty());
}

#[test]
fn loaded_result_with_a_wrong_fingerprint_is_refused() {
    let mut ctx = Ctx::new();
    ctx.greens = vec![(node(4), SerializedDepNodeIndex(11), DepNodeIndex(21))];
    ctx.disk = vec![(4, SerializedDepNodeIndex(11), 444)];
    ctx.recorded = vec![(node(4), Fingerprint(1, 64))];
    let mut engine = engine();
    let result = get(&mut ctx, &mut engine, 4);
    match result {
        Err(QueryError::FingerprintMismatch { dep_node, recorded, computed }) => {
            assert_eq!(dep_node, node(4));
            assert_eq!(recorded, Some(Fingerprint(1, 64)));
            assert_eq!(computed, hash_of(444));
        }
        other => panic!("{:?}", other),
    }
    assert!(ctx.calls.is_empty());
    assert_eq!(engine.cache.lookup(&4), None);
    assert!(engine.state.all_inactive());
    assert_eq!(ctx.ich_failures.len(), 1);
    assert!(ctx.ich_failures[0].contains("IncrementCompilation"));
    assert!(ctx.ich_failures[0].contains("demo"));
    assert!(ctx.ich_failures[0].ends_with("for 444"));
    assert!(engine.inside_verify_panic);
}

#[test]
fn second_mismatch_gets_the_terse_message() {
    let mut ctx = Ctx::new();
    ctx.greens = vec![
        (node(4), SerializedDepNodeIndex(11), DepNodeIndex(21)),
        (node(5), SerializedDepNodeIndex(12), DepNodeIndex(22)),
    ];
    ctx.disk = vec![(4, SerializedDepNodeIndex(11), 444), (5, SerializedDepNodeIndex(12), 555)];
    ctx.recorded = vec![(node(4), Fingerprint(1, 64)), (node(5), Fingerprint(1, 32))];
    let mut engine = engine();
    assert!(get(&mut ctx, &mut engine, 4).is_err());
    assert!(get(&mut ctx, &mut engine, 5).is_err());
    assert_eq!(ctx.ich_failures.len(), 2);
    assert_eq!(ctx.ich_failures[1], "Reentrant for 555");
}

#[test]
fn loaded_result_outside_the_checked_subset_is_not_hashed() {
    let mut ctx = Ctx::new();
    ctx.greens = vec![(node(4), SerializedDepNodeIndex(11), DepNodeIndex(21))];
    ctx.disk = vec![(4, SerializedDepNodeIndex(11), 444)];
    ctx.recorded = vec![(node(4), Fingerprint(1, 33))];
    let mut engine = engine();
    assert_eq!(get(&mut ctx, &mut engine, 4).unwrap(), Some(444));
    assert!(ctx.ich_failures.is_empty());
}

#[test]
fn every_loaded_result_is_hashed_where_the_session_asks_for_it() {
    let mut ctx = Ctx::new();
    ctx.verify_ich = true;
    ctx.greens = vec![(node(4), SerializedDepNodeIndex(11), DepNodeIndex(21))];
    ctx.disk = vec![(4, SerializedDepNodeIndex(11), 444)];
    ctx.recorded = vec![(node(4), Fingerprint(1, 33))];
    let mut engine = engine();
    assert!(matches!(
        get(&mut ctx, &mut engine, 4),
        Err(QueryError::FingerprintMismatch { .. })
    ));
}

#[test]
fn should_verify_picks_a_fixed_subset() {
    assert!(should_verify(Some(Fingerprint(5, 0)), false));
    assert!(should_verify(Some(Fingerprint(5, 32)), false));
    assert!(should_verify(Some(Fingerprint(5, 320)), false));
    assert!(!should_verify(Some(Fingerprint(32, 1)), false));
    assert!(!should_verify(Some(Fingerprint(0, 31)), false));
    assert!(!should_verify(Some(Fingerprint(0, 33)), false));
    assert!(should_verify(Some(Fingerprint(0, 33)), true));
    assert!(should_verify(None, false));
}

#[test]
fn green_node_without_a_disk_value_is_recomputed_and_checked() {
    let mut ctx = Ctx::new();
    ctx.greens = vec![(node(4), SerializedDepNodeIndex(11), DepNodeIndex(21))];
    ctx.recorded = vec![(node(4), hash_of(40))];
    let mut engine = engine();
    assert_eq!(get(&mut ctx, &mut engine, 4).unwrap(), Some(40));
    assert_eq!(ctx.calls, vec![4]);
    assert_eq!(ctx.untracked, vec![4]);
    assert!(ctx.tasks.is_empty());
    assert_eq!(engine.cache.lookup(&4), Some((40, DepNodeIndex(21))));
}

#[test]
fn recomputed_result_that_hashes_otherwise_is_refused() {
    let mut ctx = Ctx::new();
    ctx.greens = vec![(node(4), SerializedDepNodeIndex(11), DepNodeIndex(21))];
    ctx.recorded = vec![(node(4), hash_of(41))];
    let mut engine = engine();
    assert!(matches!(
        get(&mut ctx, &mut engine, 4),
        Err(QueryError::FingerprintMismatch { .. })
    ));
    assert_eq!(ctx.calls, vec![4]);
    assert_eq!(engine.cache.lookup(&4), None);
}

#[test]
fn kind_that_is_not_loaded_from_disk_is_recomputed() {
    let mut ctx = Ctx::new();
    ctx.query.try_load_from_disk = false;
    ctx.greens = vec![(node(4), SerializedDepNodeIndex(11), DepNodeIndex(21))];
    ctx.disk = vec![(4, SerializedDepNodeIndex(11), 444)];
    ctx.recorded = vec![(node(4), hash_of(40))];
    let mut engine = engine();
    assert_eq!(get(&mut ctx, &mut engine, 4).unwrap(), Some(40));
    assert_eq!(ctx.calls, vec![4]);
}

#[test]
fn unhashed_kind_is_checked_against_the_zero_fingerprint() {
    let mut ctx = Ctx::new();
    ctx.query.hash_result = false;
    ctx.greens = vec![(node(4), SerializedDepNodeIndex(11), DepNodeIndex(21))];
    ctx.recorded = vec![(node(4), Fingerprint(0, 0))];
    let mut engine = engine();
    assert_eq!(get(&mut ctx, &mut engine, 4).unwrap(), Some(40));
}

#[test]
fn check_against_a_node_that_is_not_green_fails() {
    let mut ctx = Ctx::new();
    let mut inside = false;
    let result = incremental_verify_ich::<DefaultCache<u64>, Ctx>(
        &mut ctx,
        &mut inside,
        &40,
        &node(4),
        true,
    );
    assert!(matches!(result, Err(QueryError::NotGreen { dep_node }) if dep_node == node(4)));
    assert!(!inside);
    ctx.marked.push(node(4));
    ctx.recorded = vec![(node(4), hash_of(40))];
    let result = incremental_verify_ich::<DefaultCache<u64>, Ctx>(
        &mut ctx,
        &mut inside,
        &40,
        &node(4),
        true,
    );
    assert!(matches!(result, Ok(f) if f == hash_of(40)));
}

#[test]
fn incremental_verify_ich_failed_reports_fully_once() {
    let mut inside = false;
    let first = incremental_verify_ich_failed(&mut inside, Some(String::from("a")), node(1));
    assert!(inside);
    match first {
        IchFailure::IncrementCompilation { crate_name, dep_node } => {
            assert_eq!(crate_name, Some(String::from("a")));
            assert_eq!(dep_node, node(1));
        }
        IchFailure::Reentrant => panic!("terse message first"),
    }
    let second = incremental_verify_ich_failed(&mut inside, None, node(1));
    assert!(matches!(second, IchFailure::Reentrant));
    assert!(inside);
}

#[test]
fn untracked_session_runs_the_provider_under_a_virtual_stamp() {
    let mut ctx = Ctx::new();
    ctx.enabled = false;
    ctx.greens = vec![(node(4), SerializedDepNodeIndex(11), DepNodeIndex(21))];
    ctx.disk = vec![(4, SerializedDepNodeIndex(11), 444)];
    let mut engine = engine();
    assert_eq!(get(&mut ctx, &mut engine, 4).unwrap(), Some(40));
    assert_eq!(ctx.untracked, vec![4]);
    assert!(ctx.tasks.is_empty());
    assert!(ctx.marked.is_empty());
    assert_eq!(engine.cache.lookup(&4), Some((40, DepNodeIndex(101))));
}

#[test]
fn always_evaluated_kind_is_never_marked_green() {
    let mut ctx = Ctx::new();
    ctx.query.eval_always = true;
    ctx.greens = vec![(node(4), SerializedDepNodeIndex(11), DepNodeIndex(21))];
    ctx.disk = vec![(4, SerializedDepNodeIndex(11), 444)];
    let mut engine = engine();
    assert_eq!(get(&mut ctx, &mut engine, 4).unwrap(), Some(40));
    assert!(ctx.marked.is_empty());
    assert_eq!(ctx.tasks, vec![(node(4), 4)]);
}

#[test]
fn anonymous_kind_runs_as_an_anonymous_task() {
    let mut ctx = Ctx::new();
    ctx.query.anon = true;
    ctx.emits = vec![4];
    ctx.greens = vec![(node(4), SerializedDepNodeIndex(11), DepNodeIndex(21))];
    let mut engine = engine();
    assert_eq!(get(&mut ctx, &mut engine, 4).unwrap(), Some(40));
    assert_eq!(ctx.anon_tasks, vec![4]);
    assert!(ctx.tasks.is_empty());
    assert!(ctx.marked.is_empty());
    assert_eq!(ctx.anon_side_effects, vec![(DepNodeIndex(101), 1)]);
    assert!(ctx.side_effects.is_empty());
}

#[test]
fn diagnostics_of_a_task_are_kept_with_its_stamp() {
    let mut ctx = Ctx::new();
    ctx.emits = vec![4];
    ctx.requests = vec![(4, vec![5])];
    let mut engine = engine();
    assert_eq!(get(&mut ctx, &mut engine, 4).unwrap(), Some(90));
    assert_eq!(ctx.side_effects, vec![(DepNodeIndex(102), 1)]);
    assert!(ctx.anon_side_effects.is_empty());
}

#[test]
fn execute_job_uses_the_node_it_is_given() {
    let mut ctx = Ctx::new();
    let mut engine = engine();
    let query = vtable();
    let given = DepNode { kind: 1, hash: Fingerprint(7, 7) };
    let owner = match query_system::state::JobOwner::try_start(
        &mut engine.state,
        None,
        sp(0),
        4,
        KIND,
    ) {
        query_system::state::TryGetJob::NotYetStarted(owner) => owner,
        other => panic!("{:?}", other),
    };
    let done = execute_job(&mut ctx, &mut engine, 4, Some(given), &query, owner.id()).unwrap();
    assert_eq!(done, (40, DepNodeIndex(101)));
    assert_eq!(ctx.tasks, vec![(given, 4)]);
    let (stored, released) =
        owner.complete(&mut engine.state, &mut engine.cache, done.0, done.1);
    assert_eq!(stored, 40);
    assert!(released.waiters.is_empty());
}

#[test]
fn ensure_does_not_run_a_query_that_is_known_unchanged() {
    let mut ctx = Ctx::new();
    ctx.greens = vec![(node(4), SerializedDepNodeIndex(11), DepNodeIndex(21))];
    let mut engine = engine();
    let query = vtable();
    let mode = QueryMode::Ensure { check_cache: false };
    assert_eq!(get_query(&mut ctx, &mut engine, sp(0), 4, mode, &query).unwrap(), None);
    assert!(ctx.calls.is_empty());
    assert_eq!(ctx.reads, vec![DepNodeIndex(21)]);
    assert_eq!(engine.cache.lookup(&4), None);
}

#[test]
fn ensure_runs_a_query_whose_node_is_not_green() {
    let mut ctx = Ctx::new();
    let mut engine = engine();
    let query = vtable();
    let mode = QueryMode::Ensure { check_cache: false };
    assert_eq!(get_query(&mut ctx, &mut engine, sp(0), 4, mode, &query).unwrap(), Some(40));
    assert_eq!(ctx.calls, vec![4]);
}

#[test]
fn ensure_with_check_runs_where_the_result_cannot_be_loaded() {
    let mut ctx = Ctx::new();
    ctx.greens = vec![(node(4), SerializedDepNodeIndex(11), DepNodeIndex(21))];
    ctx.recorded = vec![(node(4), hash_of(40))];
    let mut engine = engine();
    let query = vtable();
    let mode = QueryMode::Ensure { check_cache: true };
    assert_eq!(get_query(&mut ctx, &mut engine, sp(0), 4, mode, &query).unwrap(), Some(40));
    assert_eq!(ctx.calls, vec![4]);
    let mut ctx = Ctx::new();
    ctx.greens = vec![(node(4), SerializedDepNodeIndex(11), DepNodeIndex(21))];
    ctx.loadable = vec![(4, SerializedDepNodeIndex(11))];
    let mut engine = self::engine();
    assert_eq!(get_query(&mut ctx, &mut engine, sp(0), 4, mode, &query).unwrap(), None);
    assert!(ctx.calls.is_empty());
}

#[test]
fn ensure_of_an_always_evaluated_kind_runs() {
    let mut ctx = Ctx::new();
    ctx.query.eval_always = true;
    ctx.greens = vec![(node(4), SerializedDepNodeIndex(11), DepNodeIndex(21))];
    let mut engine = engine();
    let query = ctx.query;
    let mode = QueryMode::Ensure { check_cache: false };
    assert_eq!(get_query(&mut ctx, &mut engine, sp(0), 4, mode, &query).unwrap(), Some(40));
}

#[test]
fn force_runs_only_what_is_not_cached() {
    let mut ctx = Ctx::new();
    let mut engine = engine();
    let query = vtable();
    let given = DepNode { kind: 2, hash: Fingerprint(1, 1) };
    force_query(&mut ctx, &mut engine, 4, given, &query).unwrap();
    assert_eq!(ctx.tasks, vec![(given, 4)]);
    assert_eq!(engine.cache.lookup(&4).map(|e| e.0), Some(40));
    force_query(&mut ctx, &mut engine, 4, given, &query).unwrap();
    assert_eq!(ctx.calls, vec![4]);
    assert!(ctx.reads.is_empty());
}

#[test]
fn try_get_cached_reports_hit_and_miss() {
    let mut ctx = Ctx::new();
    let mut cache: VecCache<u64> = VecCache::new();
    assert_eq!(try_get_cached(&mut ctx, &cache, &3), None);
    assert!(ctx.reads.is_empty());
    cache.complete(3, 33, DepNodeIndex(9));
    assert_eq!(try_get_cached(&mut ctx, &cache, &3), Some(33));
    assert_eq!(ctx.reads, vec![DepNodeIndex(9)]);
}

#[test]
fn fed_value_answers_the_query_without_the_provider() {
    let mut ctx = Ctx::new();
    let mut engine = engine();
    let query = vtable();
    feed(&mut ctx, &mut engine, 4, 77, &query).unwrap();
    assert_eq!(ctx.fed, vec![(node(4), 4, 77, Some(hash_of(77)))]);
    assert_eq!(engine.cache.lookup(&4), Some((77, DepNodeIndex(101))));
    assert_eq!(get(&mut ctx, &mut engine, 4).unwrap(), Some(77));
    assert!(ctx.calls.is_empty());
}

#[test]
fn feeding_twice_with_equal_hashes_is_silent() {
    let mut ctx = Ctx::new();
    let mut engine = engine();
    let query = vtable();
    feed(&mut ctx, &mut engine, 4, 77, &query).unwrap();
    feed(&mut ctx, &mut engine, 4, 77, &query).unwrap();
    assert!(ctx.inconsistent.is_empty());
    assert_eq!(ctx.fed.len(), 1);
    assert_eq!(engine.cache.lookup(&4), Some((77, DepNodeIndex(101))));
}

#[test]
fn feeding_twice_with_different_hashes_keeps_the_first_and_warns() {
    let mut ctx = Ctx::new();
    let mut engine = engine();
    let query = vtable();
    feed(&mut ctx, &mut engine, 4, 77, &query).unwrap();
    feed(&mut ctx, &mut engine, 4, 78, &query).unwrap();
    assert_eq!(ctx.inconsistent, vec![(4, hash_of(77), hash_of(78))]);
    assert_eq!(engine.cache.lookup(&4), Some((77, DepNodeIndex(101))));
}

#[test]
fn feeding_an_unhashed_kind_twice_is_fatal() {
    let mut ctx = Ctx::new();
    let mut engine = engine();
    let mut query = vtable();
    query.hash_result = false;
    feed(&mut ctx, &mut engine, 4, 77, &query).unwrap();
    assert_eq!(ctx.fed, vec![(node(4), 4, 77, None)]);
    let again = feed(&mut ctx, &mut engine, 4, 77, &query);
    assert!(matches!(again, Err(QueryError::FedTwice { key: 4 })));
    assert_eq!(engine.cache.lookup(&4), Some((77, DepNodeIndex(101))));
}

/// A provider that feeds a value for its own key before it returns.
struct Feeding {
    inner: Ctx,
    fed: u64,
}

impl QueryContext<DefaultCache<u64>> for Feeding {
    fn is_fully_enabled(&self) -> bool {
        true
    }

    fn incremental_verify_ich_enabled(&self) -> bool {
        false
    }

    fn crate_name(&self) -> Option<String> {
        None
    }

    fn to_dep_node(&self, dep_kind: u16, key: &usize) -> DepNode {
        <Ctx as QueryContext<DefaultCache<u64>>>::to_dep_node(&self.inner, dep_kind, key)
    }

    fn hash_result(&self, value: &u64) -> Fingerprint {
        hash_of(*value)
    }

    fn cache_on_disk(&self, _: &usize) -> bool {
        false
    }

    fn loadable_from_disk(&self, _: &usize, _: SerializedDepNodeIndex) -> bool {
        false
    }

    fn is_green(&self, _: &DepNode) -> bool {
        false
    }

    fn prev_fingerprint_of(&self, _: &DepNode) -> Option<Fingerprint> {
        None
    }

    fn value_from_cycle_error(&self, _: &Vec<QueryInfo>) -> u64 {
        0
    }

    fn try_mark_green(&mut self, _: &DepNode) -> Option<(SerializedDepNodeIndex, DepNodeIndex)> {
        None
    }

    fn read_index(&mut self, index: DepNodeIndex) {
        self.inner.reads.push(index);
    }

    fn next_virtual_depnode_index(&mut self) -> DepNodeIndex {
        self.inner.fresh_index()
    }

    fn try_load_from_disk(
        &mut self,
        _: &usize,
        _: SerializedDepNodeIndex,
        _: DepNodeIndex,
    ) -> Option<u64> {
        None
    }

    fn compute(
        &mut self,
        _: &mut Engine,
        _: QueryJobId,
        _: usize,
        _: bool,
    ) -> Option<u64> {
        None
    }

    fn with_task(
        &mut self,
        engine: &mut Engine,
        _: QueryJobId,
        _: DepNode,
        key: usize,
        _: bool,
    ) -> Option<TaskResult<u64>> {
        self.inner.calls.push(key);
        let query = self.inner.query;
        let fed = self.fed;
        feed(self, engine, key, fed, &query).ok()?;
        let index = self.inner.fresh_index();
        Some(TaskResult { value: key as u64 * 10, index, diagnostics: Vec::new() })
    }

    fn with_anon_task(
        &mut self,
        _: &mut Engine,
        _: QueryJobId,
        _: u16,
        _: usize,
        _: bool,
    ) -> Option<TaskResult<u64>> {
        None
    }

    fn with_feed_task(
        &mut self,
        node: DepNode,
        key: usize,
        value: &u64,
        hash: Option<Fingerprint>,
    ) -> DepNodeIndex {
        self.inner.fed.push((node, key, *value, hash));
        self.inner.fresh_index()
    }

    fn store_side_effects(&mut self, _: DepNodeIndex, _: QuerySideEffects) {}

    fn store_side_effects_for_anon_node(&mut self, _: DepNodeIndex, _: QuerySideEffects) {}

    fn emit_cycle_error(&mut self, _: &CycleError) {}

    fn delay_cycle_as_bug(&mut self, _: &CycleError) {}

    fn delay_inconsistent_value(&mut self, key: usize, recorded: Fingerprint, given: Fingerprint) {
        self.inner.inconsistent.push((key, recorded, given));
    }

    fn emit_ich_failure(&mut self, _: &IchFailure, _: &u64) {}
}

#[test]
fn computed_value_replaces_a_value_fed_meanwhile_and_warns_where_they_differ() {
    let mut ctx = Feeding { inner: Ctx::new(), fed: 41 };
    ctx.inner.query.feedable = true;
    let mut engine = engine();
    let query = ctx.inner.query;
    let value = get_query(&mut ctx, &mut engine, sp(0), 4, QueryMode::Get, &query).unwrap();
    assert_eq!(value, Some(40));
    assert_eq!(engine.cache.lookup(&4), Some((40, DepNodeIndex(102))));
    assert_eq!(ctx.inner.inconsistent, vec![(4, hash_of(41), hash_of(40))]);
}

#[test]
fn computed_value_that_agrees_with_the_fed_one_is_silent() {
    let mut ctx = Feeding { inner: Ctx::new(), fed: 40 };
    ctx.inner.query.feedable = true;
    let mut engine = engine();
    let query = ctx.inner.query;
    let value = get_query(&mut ctx, &mut engine, sp(0), 4, QueryMode::Get, &query).unwrap();
    assert_eq!(value, Some(40));
    assert!(ctx.inner.inconsistent.is_empty());
}

#[test]
fn engine_over_an_arena_cache_hands_out_stable_handles() {
    let mut ctx = Ctx::new();
    ctx.requests = vec![(1, vec![2])];
    let mut engine: QueryEngine<ArenaCache<u64>> = QueryEngine::new(ArenaCache::new());
    let query = vtable();
    let first = get_query(&mut ctx, &mut engine, sp(0), 1, QueryMode::Get, &query)
        .unwrap()
        .unwrap();
    assert_eq!(*engine.cache.value(&first), 30);
    let other = get_query(&mut ctx, &mut engine, sp(0), 9, QueryMode::Get, &query)
        .unwrap()
        .unwrap();
    assert_eq!(*engine.cache.value(&other), 90);
    assert_eq!(*engine.cache.value(&first), 30);
    let again = get_query(&mut ctx, &mut engine, sp(0), 1, QueryMode::Get, &query)
        .unwrap()
        .unwrap();
    assert_eq!(again, first);
    assert_eq!(ctx.calls, vec![1, 2, 9]);
}

#[test]
fn finish_task_keeps_messages_with_the_stamp() {
    let mut ctx = Ctx::new();
    let quiet = TaskResult { value: 5u64, index: DepNodeIndex(3), diagnostics: Vec::new() };
    let done = finish_task::<DefaultCache<u64>, Ctx>(&mut ctx, quiet, false);
    assert_eq!(done, (5, DepNodeIndex(3)));
    assert!(ctx.side_effects.is_empty() && ctx.anon_side_effects.is_empty());
    let loud = |index| TaskResult {
        value: 6u64,
        index: DepNodeIndex(index),
        diagnostics: vec![
            Diagnostic { code: 1, span: sp(1) },
            Diagnostic { code: 2, span: sp(2) },
        ],
    };
    let done = finish_task::<DefaultCache<u64>, Ctx>(&mut ctx, loud(4), false);
    assert_eq!(done, (6, DepNodeIndex(4)));
    assert_eq!(ctx.side_effects, vec![(DepNodeIndex(4), 2)]);
    let done = finish_task::<DefaultCache<u64>, Ctx>(&mut ctx, loud(5), true);
    assert_eq!(done, (6, DepNodeIndex(5)));
    assert_eq!(ctx.anon_side_effects, vec![(DepNodeIndex(5), 2)]);
    assert_eq!(ctx.side_effects.len(), 1);
}

#[test]
fn check_against_fed_compares_hashes() {
    let mut ctx = Ctx::new();
    let mut cache: DefaultCache<u64> = DefaultCache::new();
    check_against_fed(&mut ctx, &cache, 4, &40);
    assert!(ctx.inconsistent.is_empty());
    cache.complete(4, 40, DepNodeIndex(1));
    check_against_fed(&mut ctx, &cache, 4, &40);
    assert!(ctx.inconsistent.is_empty());
    check_against_fed(&mut ctx, &cache, 4, &41);
    assert_eq!(ctx.inconsistent, vec![(4, hash_of(40), hash_of(41))]);
}

#[test]
fn make_vtable_loads_only_keys_that_are_stored_on_disk() {
    let mut ctx = Ctx::new();
    ctx.not_on_disk = vec![5];
    let kind = vtable();
    let made = make_vtable::<DefaultCache<u64>, Ctx>(&ctx, &kind, &4);
    assert_eq!(made, kind);
    let made = make_vtable::<DefaultCache<u64>, Ctx>(&ctx, &kind, &5);
    assert!(!made.try_load_from_disk);
    assert_eq!(QueryVTable { try_load_from_disk: true, ..made }, kind);
    let mut never = kind;
    never.try_load_from_disk = false;
    let made = make_vtable::<DefaultCache<u64>, Ctx>(&ctx, &never, &4);
    assert_eq!(made, never);
}

#[test]
fn query_fails_once_the_identities_are_used_up() {
    let mut ctx = Ctx::new();
    let mut engine = engine();
    engine.state = query_system::state::QueryState::continuing(false, u64::MAX);
    let result = get(&mut ctx, &mut engine, 4);
    assert!(matches!(result, Err(QueryError::JobsExhausted)));
    assert!(ctx.calls.is_empty());
    assert!(engine.state.all_inactive());
    engine.cache.complete(4, 1, DepNodeIndex(1));
    assert_eq!(get(&mut ctx, &mut engine, 4).unwrap(), Some(1));
}
