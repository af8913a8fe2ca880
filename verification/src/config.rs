//! What one query kind tells the engine about itself, and what the engine
//! reports when a query cannot be answered.

use crate::dep_graph::{DepNode, Fingerprint};
use crate::job::CycleError;
use vstd::prelude::*;

verus! {

/// What a query kind wants done when a query of it closes a cycle.
#[derive(Clone, Copy, Debug, PartialEq, Eq, Structural, Hash)]
pub enum HandleCycleError {
    /// Report the cycle and go on with a placeholder value.
    Error,
    /// Report the cycle and give the whole session up.
    Fatal,
    /// Note the cycle as a delayed internal error and go on with a
    /// placeholder value.
    DelayBug,
}

/// The configuration of one query kind.
#[derive(Clone, Copy, Debug, PartialEq, Eq, Structural, Hash)]
pub struct QueryVTable {
    /// The query has no identity across sessions.
    pub anon: bool,
    /// The kind, as the dependency graph names it.
    pub dep_kind: u16,
    /// The query is computed afresh in every session.
    pub eval_always: bool,
    /// The provider runs under the recursion limit.
    pub depth_limit: bool,
    /// A value may be fed for a key before anyone asks for it.
    pub feedable: bool,
    /// Results are hashed, so that two of them can be compared.
    pub hash_result: bool,
    /// What to do when a query of this kind closes a cycle.
    pub handle_cycle_error: HandleCycleError,
    /// Results of an earlier session may be loaded from disk.
    pub try_load_from_disk: bool,
}

/// Whether a query is answered or merely made sure of.
#[derive(Clone, Copy, Debug, PartialEq, Eq, Structural, Hash)]
pub enum QueryMode {
    /// The caller wants the value.
    Get,
    /// The caller wants the query to have run or to be known unchanged;
    /// with `check_cache`, known unchanged counts only where the result of
    /// the earlier session can be loaded.
    Ensure { check_cache: bool },
}

/// Why a query could not be answered. Each of these ends the session.
#[derive(Debug)]
pub enum QueryError {
    /// The provider abandoned the computation; its job was poisoned.
    Poisoned { key: usize },
    /// The query closed a cycle and its kind treats cycles as fatal.
    FatalCycle(CycleError),
    /// A result that the dependency graph holds unchanged hashes otherwise
    /// than the earlier session recorded.
    FingerprintMismatch { dep_node: DepNode, recorded: Option<Fingerprint>, computed: Fingerprint },
    /// A result was to be checked against a node that is not green.
    NotGreen { dep_node: DepNode },
    /// No job identity is left to give out.
    JobsExhausted,
    /// A value was fed twice for a key of a kind whose results are not
    /// hashed.
    FedTwice { key: usize },
}

/// What is said to the user when a fingerprint does not match.
#[derive(Debug)]
pub enum IchFailure {
    /// A mismatch found while another one was being reported: the terse
    /// message that needs no further query.
    Reentrant,
    /// The full message: it names the node and the crate whose incremental
    /// data should be cleaned, where one is known.
    IncrementCompilation { crate_name: Option<String>, dep_node: DepNode },
}

} // verus!
