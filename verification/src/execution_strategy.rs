//! Execution strategies as the operator names them, the contexts they apply
//! to, and the rule that picks the strategy of a context.

use vstd::prelude::*;
use vstd::std_specs::convert::FromSpecImpl;
use crate::config::RuntimeStrategy;

verus! {

/// How to execute blocks.
#[derive(Debug, Clone, Copy, PartialEq, Eq, Structural)]
pub enum ExecutionStrategy {
    /// Execute with the native build (if available, WebAssembly otherwise).
    Native,
    /// Only execute with the WebAssembly build.
    Wasm,
    /// Execute with both native (where available) and WebAssembly builds.
    Both,
    /// Execute with the native build if possible; if it fails, then execute
    /// with WebAssembly.
    NativeElseWasm,
}

/// Strategy while syncing blocks, unless the operator says otherwise.
pub const DEFAULT_EXECUTION_SYNCING: ExecutionStrategy = ExecutionStrategy::NativeElseWasm;

/// Strategy while importing blocks, unless the operator says otherwise.
pub const DEFAULT_EXECUTION_IMPORT_BLOCK: ExecutionStrategy = ExecutionStrategy::NativeElseWasm;

/// Strategy while constructing blocks, unless the operator says otherwise.
pub const DEFAULT_EXECUTION_BLOCK_CONSTRUCTION: ExecutionStrategy = ExecutionStrategy::Wasm;

/// Strategy of off-chain workers, unless the operator says otherwise.
pub const DEFAULT_EXECUTION_OFFCHAIN_WORKER: ExecutionStrategy = ExecutionStrategy::Native;

/// Strategy of every other call, unless the operator says otherwise.
pub const DEFAULT_EXECUTION_OTHER: ExecutionStrategy = ExecutionStrategy::Native;

impl ExecutionStrategy {
    /// The executor's strategy that this one stands for.
    pub open spec fn runtime(self) -> RuntimeStrategy {
        match self {
            ExecutionStrategy::Native => RuntimeStrategy::NativeWhenPossible,
            ExecutionStrategy::Wasm => RuntimeStrategy::AlwaysWasm,
            ExecutionStrategy::Both => RuntimeStrategy::Both,
            ExecutionStrategy::NativeElseWasm => RuntimeStrategy::NativeElseWasm,
        }
    }
}

impl From<ExecutionStrategy> for RuntimeStrategy {
    fn from(strategy: ExecutionStrategy) -> (r: RuntimeStrategy) {
        match strategy {
            ExecutionStrategy::Native => RuntimeStrategy::NativeWhenPossible,
            ExecutionStrategy::Wasm => RuntimeStrategy::AlwaysWasm,
            ExecutionStrategy::Both => RuntimeStrategy::Both,
            ExecutionStrategy::NativeElseWasm => RuntimeStrategy::NativeElseWasm,
        }
    }
}

impl FromSpecImpl<ExecutionStrategy> for RuntimeStrategy {
    open spec fn obeys_from_spec() -> bool {
        true
    }

    open spec fn from_spec(strategy: ExecutionStrategy) -> RuntimeStrategy {
        strategy.runtime()
    }
}

/// Distinct strategies of the operator stand for distinct strategies of the
/// executor, and every strategy of the executor has one that stands for it.
pub proof fn lemma_runtime_is_one_to_one(
    a: ExecutionStrategy,
    b: ExecutionStrategy,
    r: RuntimeStrategy,
)
    ensures
        a.runtime() == b.runtime() ==> a == b,
        exists|s: ExecutionStrategy| #[trigger] s.runtime() == r,
{
    let s = match r {
        RuntimeStrategy::NativeWhenPossible => ExecutionStrategy::Native,
        RuntimeStrategy::AlwaysWasm => ExecutionStrategy::Wasm,
        RuntimeStrategy::Both => ExecutionStrategy::Both,
        RuntimeStrategy::NativeElseWasm => ExecutionStrategy::NativeElseWasm,
    };
    assert(s.runtime() == r);
}

/// The situations in which the node calls into the runtime.
#[derive(Debug, Clone, Copy, PartialEq, Eq, Structural)]
pub enum ExecutionContext {
    /// Syncing blocks.
    Syncing,
    /// Importing blocks.
    ImportingBlock,
    /// Constructing blocks.
    ConstructingBlock,
    /// Running an off-chain worker.
    OffchainWorker,
    /// Anything else.
    Other,
}

impl ExecutionContext {
    /// The strategy of this context when nothing overrides it.
    pub open spec fn spec_baseline(self) -> ExecutionStrategy {
        match self {
            ExecutionContext::Syncing => DEFAULT_EXECUTION_SYNCING,
            ExecutionContext::ImportingBlock => DEFAULT_EXECUTION_IMPORT_BLOCK,
            ExecutionContext::ConstructingBlock => DEFAULT_EXECUTION_BLOCK_CONSTRUCTION,
            ExecutionContext::OffchainWorker => DEFAULT_EXECUTION_OFFCHAIN_WORKER,
            ExecutionContext::Other => DEFAULT_EXECUTION_OTHER,
        }
    }

    /// The strategy of this context when nothing overrides it.
    #[verifier::when_used_as_spec(spec_baseline)]
    pub fn baseline(self) -> (strategy: ExecutionStrategy)
        ensures
            strategy == self.spec_baseline(),
    {
        match self {
            ExecutionContext::Syncing => DEFAULT_EXECUTION_SYNCING,
            ExecutionContext::ImportingBlock => DEFAULT_EXECUTION_IMPORT_BLOCK,
            ExecutionContext::ConstructingBlock => DEFAULT_EXECUTION_BLOCK_CONSTRUCTION,
            ExecutionContext::OffchainWorker => DEFAULT_EXECUTION_OFFCHAIN_WORKER,
            ExecutionContext::Other => DEFAULT_EXECUTION_OTHER,
        }
    }
}

/// The strategy of one context.
///
/// An override for all contexts wins over everything; next comes the
/// override of the context itself. Without either, a development node runs
/// natively and any other node runs the context's `baseline`.
pub open spec fn resolved_strategy(
    global: Option<ExecutionStrategy>,
    specific: Option<ExecutionStrategy>,
    baseline: ExecutionStrategy,
    is_dev: bool,
) -> ExecutionStrategy {
    match global {
        Some(strategy) => strategy,
        None => match specific {
            Some(strategy) => strategy,
            None => if is_dev {
                ExecutionStrategy::Native
            } else {
                baseline
            },
        },
    }
}

/// Picks the strategy of one context; see [`resolved_strategy`].
pub fn resolve_strategy(
    global: Option<ExecutionStrategy>,
    specific: Option<ExecutionStrategy>,
    baseline: ExecutionStrategy,
    is_dev: bool,
) -> (strategy: ExecutionStrategy)
    ensures
        strategy == resolved_strategy(global, specific, baseline, is_dev),
{
    if let Some(strategy) = global {
        strategy
    } else if let Some(strategy) = specific {
        strategy
    } else if is_dev {
        ExecutionStrategy::Native
    } else {
        baseline
    }
}

} // verus!
