//! The part of a node's configuration that block import decides.

use vstd::prelude::*;
use crate::execution_strategy::ExecutionContext;

verus! {

/// The role a node plays in the network, as far as pruning is concerned.
#[derive(Debug, Clone, Copy, PartialEq, Eq, Structural)]
pub enum Role {
    /// The node produces or finalizes blocks.
    Authority,
    /// Any other node.
    Other,
}

/// How much historical state the state database keeps.
#[derive(Debug, Clone, Copy, PartialEq, Eq, Structural)]
pub enum PruningMode {
    /// Keep the state of a window of recent blocks. With `max_blocks` at
    /// `Some(n)` the window holds the last `n` blocks; with `None` it holds
    /// none, and only the state of blocks that are not yet canonical stays.
    Constrained { max_blocks: Option<u32> },
    /// Keep the state of every block.
    ArchiveAll,
    /// Keep the state of every canonical block.
    ArchiveCanonical,
}

impl PruningMode {
    /// The mode that keeps the state of the last `n` blocks.
    pub open spec fn keep_blocks(n: u32) -> PruningMode {
        PruningMode::Constrained { max_blocks: Some(n) }
    }

    /// Whether this mode keeps the state of the last `n` blocks, for some `n`.
    pub open spec fn is_keep_blocks(self) -> bool {
        self matches PruningMode::Constrained { max_blocks: Some(_) }
    }
}

/// Where the node keeps its database.
#[derive(Debug, Clone, Copy, PartialEq, Eq, Structural)]
pub enum DatabaseConfig {
    /// A database at a path of the file system, with an optional limit on the
    /// memory its cache may use, in MiB.
    Path { cache_size: Option<u32> },
    /// A database that the embedder supplies; it has no cache to size.
    Custom,
}

/// The backend that executes Wasm runtime code.
#[derive(Debug, Clone, Copy, PartialEq, Eq, Structural)]
pub enum WasmMethod {
    /// The interpreter.
    Interpreted,
    /// The compiled runtime. Not every build contains it.
    Compiled,
}

/// How the executor calls into the runtime.
#[derive(Debug, Clone, Copy, PartialEq, Eq, Structural)]
pub enum RuntimeStrategy {
    /// Run the native build where it matches, the Wasm build otherwise.
    NativeWhenPossible,
    /// Run the Wasm build only.
    AlwaysWasm,
    /// Run both builds and compare.
    Both,
    /// Run the native build first and fall back to Wasm if it fails.
    NativeElseWasm,
}

/// The strategy of each execution context.
#[derive(Debug, Clone, Copy, PartialEq, Eq, Structural)]
pub struct RuntimeStrategies {
    /// While syncing blocks.
    pub syncing: RuntimeStrategy,
    /// While importing blocks.
    pub importing: RuntimeStrategy,
    /// While constructing blocks.
    pub block_construction: RuntimeStrategy,
    /// While running an off-chain worker.
    pub offchain_worker: RuntimeStrategy,
    /// In every other call.
    pub other: RuntimeStrategy,
}

impl RuntimeStrategies {
    /// The strategy of `context`.
    pub open spec fn spec_of(&self, context: ExecutionContext) -> RuntimeStrategy {
        match context {
            ExecutionContext::Syncing => self.syncing,
            ExecutionContext::ImportingBlock => self.importing,
            ExecutionContext::ConstructingBlock => self.block_construction,
            ExecutionContext::OffchainWorker => self.offchain_worker,
            ExecutionContext::Other => self.other,
        }
    }

    /// The strategy of `context`.
    #[verifier::when_used_as_spec(spec_of)]
    pub fn of(&self, context: ExecutionContext) -> (strategy: RuntimeStrategy)
        ensures
            strategy == self.spec_of(context),
    {
        match context {
            ExecutionContext::Syncing => self.syncing,
            ExecutionContext::ImportingBlock => self.importing,
            ExecutionContext::ConstructingBlock => self.block_construction,
            ExecutionContext::OffchainWorker => self.offchain_worker,
            ExecutionContext::Other => self.other,
        }
    }
}

/// The consumer of tracing messages.
#[derive(Debug, Clone, Copy, PartialEq, Eq, Structural)]
pub enum TraceReceiver {
    /// The log.
    Log,
    /// The telemetry server.
    Telemetry,
    /// The Grafana data source.
    Grafana,
}

/// The settings of a node that block import decides.
#[derive(Debug, Clone, Copy, PartialEq, Eq, Structural)]
pub struct Configuration {
    /// The database, if one is configured.
    pub database: Option<DatabaseConfig>,
    /// Size of the state cache, in bytes.
    pub state_cache_size: usize,
    /// The state pruning mode.
    pub pruning: PruningMode,
    /// The Wasm execution backend.
    pub wasm_method: WasmMethod,
    /// The execution strategy of each context.
    pub execution_strategies: RuntimeStrategies,
    /// The consumer of tracing messages.
    pub tracing_receiver: TraceReceiver,
}

} // verus!
