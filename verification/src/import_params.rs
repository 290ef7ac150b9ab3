//! Parameters for block import, and how they are put into a node's
//! configuration.

use vstd::prelude::*;
use vstd::std_specs::convert::FromSpecImpl;
use crate::config::{
    Configuration, DatabaseConfig, PruningMode, Role, RuntimeStrategies, TraceReceiver, WasmMethod,
};
use crate::error::Error;
use crate::execution_strategy::{
    resolve_strategy, resolved_strategy, ExecutionContext, ExecutionStrategy,
};
use crate::pruning::{resolve_pruning, resolved_pruning};

verus! {

/// How to execute Wasm runtime code.
#[derive(Debug, Clone, Copy, PartialEq, Eq, Structural)]
pub enum WasmExecutionMethod {
    /// Uses an interpreter.
    Interpreted,
    /// Uses a compiled runtime.
    Compiled,
}

impl WasmExecutionMethod {
    /// The name by which the operator selects this method.
    pub open spec fn name(self) -> Seq<char> {
        match self {
            WasmExecutionMethod::Interpreted => "Interpreted"@,
            WasmExecutionMethod::Compiled => "Compiled"@,
        }
    }

    /// The name by which the operator selects this method.
    pub fn as_str(self) -> (name: &'static str)
        ensures
            name@ == self.name(),
    {
        match self {
            WasmExecutionMethod::Interpreted => "Interpreted",
            WasmExecutionMethod::Compiled => "Compiled",
        }
    }

    /// Whether a build offers this method. `compiled_backend` says whether
    /// the build contains the compiled runtime.
    pub open spec fn spec_is_enabled(self, compiled_backend: bool) -> bool {
        compiled_backend || self != WasmExecutionMethod::Compiled
    }

    /// Whether a build offers this method. `compiled_backend` says whether
    /// the build contains the compiled runtime.
    #[verifier::when_used_as_spec(spec_is_enabled)]
    pub fn is_enabled(self, compiled_backend: bool) -> (enabled: bool)
        ensures
            enabled == self.spec_is_enabled(compiled_backend),
    {
        match self {
            WasmExecutionMethod::Interpreted => true,
            WasmExecutionMethod::Compiled => compiled_backend,
        }
    }

    /// The names of the methods that a build offers, in the order in which
    /// the methods are declared.
    pub open spec fn enabled_names(compiled_backend: bool) -> Seq<Seq<char>> {
        if compiled_backend {
            seq![WasmExecutionMethod::Interpreted.name(), WasmExecutionMethod::Compiled.name()]
        } else {
            seq![WasmExecutionMethod::Interpreted.name()]
        }
    }

    /// Returns list of variants that the build does not disable.
    pub fn enabled_variants(compiled_backend: bool) -> (names: Vec<&'static str>)
        ensures
            names.deep_view() == Self::enabled_names(compiled_backend),
    {
        let mut names: Vec<&'static str> = Vec::new();
        names.push(WasmExecutionMethod::Interpreted.as_str());
        if WasmExecutionMethod::Compiled.is_enabled(compiled_backend) {
            names.push(WasmExecutionMethod::Compiled.as_str());
        }
        assert(names.deep_view() =~= Self::enabled_names(compiled_backend));
        names
    }

    /// The backend that this method selects.
    pub open spec fn method(self) -> WasmMethod {
        match self {
            WasmExecutionMethod::Interpreted => WasmMethod::Interpreted,
            WasmExecutionMethod::Compiled => WasmMethod::Compiled,
        }
    }

    /// The backend that this method selects. A build without the compiled
    /// runtime has no backend for `Compiled`.
    pub fn into_method(self, compiled_backend: bool) -> (method: WasmMethod)
        requires
            self.is_enabled(compiled_backend),
        ensures
            method == self.method(),
    {
        match self {
            WasmExecutionMethod::Interpreted => WasmMethod::Interpreted,
            WasmExecutionMethod::Compiled => WasmMethod::Compiled,
        }
    }
}

/// Receiver to process tracing messages.
#[derive(Debug, Clone, Copy, PartialEq, Eq, Structural)]
pub enum TracingReceiver {
    /// The log.
    Log,
    /// The telemetry server.
    Telemetry,
    /// The Grafana data source.
    Grafana,
}

impl TracingReceiver {
    /// The consumer that this receiver selects.
    pub open spec fn receiver(self) -> TraceReceiver {
        match self {
            TracingReceiver::Log => TraceReceiver::Log,
            TracingReceiver::Telemetry => TraceReceiver::Telemetry,
            TracingReceiver::Grafana => TraceReceiver::Grafana,
        }
    }
}

impl From<TracingReceiver> for TraceReceiver {
    fn from(receiver: TracingReceiver) -> (r: TraceReceiver) {
        match receiver {
            TracingReceiver::Log => TraceReceiver::Log,
            TracingReceiver::Telemetry => TraceReceiver::Telemetry,
            TracingReceiver::Grafana => TraceReceiver::Grafana,
        }
    }
}

impl FromSpecImpl<TracingReceiver> for TraceReceiver {
    open spec fn obeys_from_spec() -> bool {
        true
    }

    open spec fn from_spec(receiver: TracingReceiver) -> TraceReceiver {
        receiver.receiver()
    }
}

/// Execution strategies parameters.
#[derive(Debug, Clone, Copy, PartialEq, Eq, Structural)]
pub struct ExecutionStrategies {
    /// The means of execution used when calling into the runtime while
    /// syncing blocks.
    pub execution_syncing: Option<ExecutionStrategy>,
    /// The means of execution used when calling into the runtime while
    /// importing blocks.
    pub execution_import_block: Option<ExecutionStrategy>,
    /// The means of execution used when calling into the runtime while
    /// constructing blocks.
    pub execution_block_construction: Option<ExecutionStrategy>,
    /// The means of execution used when calling into the runtime while using
    /// an off-chain worker.
    pub execution_offchain_worker: Option<ExecutionStrategy>,
    /// The means of execution used when calling into the runtime while not
    /// syncing, importing or constructing blocks.
    pub execution_other: Option<ExecutionStrategy>,
    /// The execution strategy that should be used by all execution contexts.
    pub execution: Option<ExecutionStrategy>,
}

impl ExecutionStrategies {
    /// The operator's choice for `context` alone, if one was made.
    pub open spec fn spec_specific(&self, context: ExecutionContext) -> Option<ExecutionStrategy> {
        match context {
            ExecutionContext::Syncing => self.execution_syncing,
            ExecutionContext::ImportingBlock => self.execution_import_block,
            ExecutionContext::ConstructingBlock => self.execution_block_construction,
            ExecutionContext::OffchainWorker => self.execution_offchain_worker,
            ExecutionContext::Other => self.execution_other,
        }
    }

    /// The operator's choice for `context` alone, if one was made.
    #[verifier::when_used_as_spec(spec_specific)]
    pub fn specific(&self, context: ExecutionContext) -> (choice: Option<ExecutionStrategy>)
        ensures
            choice == self.spec_specific(context),
    {
        match context {
            ExecutionContext::Syncing => self.execution_syncing,
            ExecutionContext::ImportingBlock => self.execution_import_block,
            ExecutionContext::ConstructingBlock => self.execution_block_construction,
            ExecutionContext::OffchainWorker => self.execution_offchain_worker,
            ExecutionContext::Other => self.execution_other,
        }
    }

    /// The strategy of `context`: [`resolved_strategy`] of the choice for all
    /// contexts, the choice for this one, and its baseline.
    pub open spec fn resolved(&self, context: ExecutionContext, is_dev: bool) -> ExecutionStrategy {
        resolved_strategy(self.execution, self.specific(context), context.baseline(), is_dev)
    }

    /// Picks the strategy of `context`.
    pub fn resolve(&self, context: ExecutionContext, is_dev: bool) -> (strategy: ExecutionStrategy)
        ensures
            strategy == self.resolved(context, is_dev),
    {
        resolve_strategy(self.execution, self.specific(context), context.baseline(), is_dev)
    }

    /// What the executor is told: of each context the strategy that
    /// [`Self::resolved`] gives it.
    pub open spec fn runtime_strategies(&self, is_dev: bool) -> RuntimeStrategies {
        RuntimeStrategies {
            syncing: self.resolved(ExecutionContext::Syncing, is_dev).runtime(),
            importing: self.resolved(ExecutionContext::ImportingBlock, is_dev).runtime(),
            block_construction: self.resolved(
                ExecutionContext::ConstructingBlock,
                is_dev,
            ).runtime(),
            offchain_worker: self.resolved(ExecutionContext::OffchainWorker, is_dev).runtime(),
            other: self.resolved(ExecutionContext::Other, is_dev).runtime(),
        }
    }

    /// Picks the strategy of every context.
    pub fn resolve_all(&self, is_dev: bool) -> (strategies: RuntimeStrategies)
        ensures
            strategies == self.runtime_strategies(is_dev),
    {
        RuntimeStrategies {
            syncing: self.resolve(ExecutionContext::Syncing, is_dev).into(),
            importing: self.resolve(ExecutionContext::ImportingBlock, is_dev).into(),
            block_construction: self.resolve(ExecutionContext::ConstructingBlock, is_dev).into(),
            offchain_worker: self.resolve(ExecutionContext::OffchainWorker, is_dev).into(),
            other: self.resolve(ExecutionContext::Other, is_dev).into(),
        }
    }
}

/// A strategy for all contexts is the strategy of every context, whatever
/// was chosen for single contexts and whether or not the node is a
/// development node.
pub proof fn lemma_global_override_wins(
    strategies: ExecutionStrategies,
    context: ExecutionContext,
    is_dev: bool,
)
    requires
        strategies.execution is Some,
    ensures
        strategies.resolved(context, is_dev) == strategies.execution->0,
{
}

/// With no strategy for all contexts, a strategy chosen for one context is
/// the strategy of that context, whether or not the node is a development
/// node.
pub proof fn lemma_specific_override_wins(
    strategies: ExecutionStrategies,
    context: ExecutionContext,
    is_dev: bool,
)
    requires
        strategies.execution is None,
        strategies.specific(context) is Some,
    ensures
        strategies.resolved(context, is_dev) == strategies.specific(context)->0,
{
}

/// A development node runs a context natively if nothing was chosen for all
/// contexts nor for this one.
pub proof fn lemma_dev_runs_native(strategies: ExecutionStrategies, context: ExecutionContext)
    requires
        strategies.execution is None,
        strategies.specific(context) is None,
    ensures
        strategies.resolved(context, true) == ExecutionStrategy::Native,
{
}

/// A node that is no development node runs a context by its baseline if
/// nothing was chosen for all contexts nor for this one.
pub proof fn lemma_plain_node_runs_baseline(
    strategies: ExecutionStrategies,
    context: ExecutionContext,
)
    requires
        strategies.execution is None,
        strategies.specific(context) is None,
    ensures
        strategies.resolved(context, false) == context.baseline(),
{
}

/// The executor is told a strategy for every context: the one that stands
/// for the strategy picked for that context.
pub proof fn lemma_every_context_is_resolved(
    strategies: ExecutionStrategies,
    context: ExecutionContext,
    is_dev: bool,
)
    ensures
        strategies.runtime_strategies(is_dev).of(context) == strategies.resolved(
            context,
            is_dev,
        ).runtime(),
{
}

/// A name is among the enabled variants exactly if it names a method that
/// the build offers.
pub proof fn lemma_enabled_names_are_enabled_methods(compiled_backend: bool, name: Seq<char>)
    ensures
        WasmExecutionMethod::enabled_names(compiled_backend).contains(name) <==> exists|
            method: WasmExecutionMethod,
        |
            method.is_enabled(compiled_backend) && #[trigger] method.name() == name,
{
    reveal_strlit("Interpreted");
    reveal_strlit("Compiled");
    let names = WasmExecutionMethod::enabled_names(compiled_backend);
    let interpreted = WasmExecutionMethod::Interpreted;
    let compiled = WasmExecutionMethod::Compiled;
    assert(interpreted.name().len() == 11);
    assert(compiled.name().len() == 8);
    assert(names[0] == interpreted.name());
    if compiled_backend {
        assert(names[1] == compiled.name());
    }
    if names.contains(name) {
        let i = choose|i: int| 0 <= i < names.len() && names[i] == name;
        if i == 0 {
            assert(interpreted.is_enabled(compiled_backend) && interpreted.name() == name);
        } else {
            assert(compiled.is_enabled(compiled_backend) && compiled.name() == name);
        }
    }
}

/// Parameters for block import.
#[derive(Debug, PartialEq, Eq)]
pub struct ImportParams {
    /// Specify the state pruning mode, a number of blocks to keep or
    /// 'archive'.
    ///
    /// Default is to keep all block states if the node is running as a
    /// validator (i.e. 'archive'), otherwise state is only kept for the last
    /// 256 blocks.
    pub pruning: Option<String>,
    /// Force start with unsafe pruning settings.
    ///
    /// When running as a validator it is highly recommended to disable state
    /// pruning (i.e. 'archive') which is the default. The node will refuse to
    /// start as a validator if pruning is enabled unless this option is set.
    pub unsafe_pruning: bool,
    /// Method for executing Wasm runtime code.
    pub wasm_method: WasmExecutionMethod,
    /// The execution strategy of each context.
    pub execution_strategies: ExecutionStrategies,
    /// Limit the memory the database cache can use, in MiB.
    pub database_cache_size: u32,
    /// Specify the state cache size, in bytes.
    pub state_cache_size: usize,
    /// Comma separated list of targets for tracing.
    pub tracing_targets: Option<String>,
    /// Receiver to process tracing messages.
    pub tracing_receiver: TracingReceiver,
}

impl Clone for ImportParams {
    fn clone(&self) -> (params: ImportParams)
        ensures
            params == *self,
    {
        ImportParams {
            pruning: match &self.pruning {
                Some(choice) => Some(choice.clone()),
                None => None,
            },
            unsafe_pruning: self.unsafe_pruning,
            wasm_method: self.wasm_method,
            execution_strategies: self.execution_strategies,
            database_cache_size: self.database_cache_size,
            state_cache_size: self.state_cache_size,
            tracing_targets: match &self.tracing_targets {
                Some(targets) => Some(targets.clone()),
                None => None,
            },
            tracing_receiver: self.tracing_receiver,
        }
    }
}

impl ImportParams {
    /// The database after the cache limit of these parameters is applied: a
    /// database at a path gets the limit, any other stays as it is.
    pub open spec fn sized_database(&self, database: Option<DatabaseConfig>) -> Option<
        DatabaseConfig,
    > {
        match database {
            Some(DatabaseConfig::Path { .. }) => Some(
                DatabaseConfig::Path { cache_size: Some(self.database_cache_size) },
            ),
            _ => database,
        }
    }

    /// The configuration that these parameters turn `config` into, or the
    /// text of the error that rejects them.
    pub open spec fn updated(&self, config: Configuration, role: Role, is_dev: bool) -> Result<
        Configuration,
        Seq<char>,
    > {
        match resolved_pruning(self.pruning.deep_view(), self.unsafe_pruning, role) {
            Err(text) => Err(text),
            Ok(pruning) => Ok(
                Configuration {
                    database: self.sized_database(config.database),
                    state_cache_size: self.state_cache_size,
                    pruning,
                    wasm_method: self.wasm_method.method(),
                    execution_strategies: self.execution_strategies.runtime_strategies(is_dev),
                    tracing_receiver: self.tracing_receiver.receiver(),
                },
            ),
        }
    }

    /// Put block import CLI params into `config` object.
    ///
    /// Either every setting is written or, where the parameters are
    /// rejected, none is. `compiled_backend` says whether the build contains
    /// the compiled Wasm runtime; a build without it cannot be configured
    /// to use it.
    pub fn update_config(
        &self,
        config: &mut Configuration,
        role: Role,
        is_dev: bool,
        compiled_backend: bool,
    ) -> (result: Result<(), Error>)
        requires
            self.wasm_method.is_enabled(compiled_backend),
        ensures
            match self.updated(*old(config), role, is_dev) {
                Ok(updated) => result is Ok && *final(config) == updated,
                Err(text) => result is Err && result->Err_0.text() == text && *final(config)
                    == *old(config),
            },
    {
        let pruning = match resolve_pruning(&self.pruning, self.unsafe_pruning, role) {
            Ok(mode) => mode,
            Err(e) => {
                return Err(e);
            },
        };
        if let Some(DatabaseConfig::Path { .. }) = config.database {
            config.database = Some(
                DatabaseConfig::Path { cache_size: Some(self.database_cache_size) },
            );
        }
        config.state_cache_size = self.state_cache_size;
        config.pruning = pruning;
        config.wasm_method = self.wasm_method.into_method(compiled_backend);
        config.execution_strategies = self.execution_strategies.resolve_all(is_dev);
        config.tracing_receiver = self.tracing_receiver.into();
        Ok(())
    }
}

/// Parameters are rejected exactly if their pruning mode is, and with the
/// same text; nothing else in them can be refused.
pub proof fn lemma_update_fails_with_pruning(
    params: ImportParams,
    config: Configuration,
    role: Role,
    is_dev: bool,
)
    ensures
        match resolved_pruning(params.pruning.deep_view(), params.unsafe_pruning, role) {
            Ok(mode) => params.updated(config, role, is_dev) matches Ok(updated)
                && updated.pruning == mode,
            Err(text) => params.updated(config, role, is_dev) == Err::<Configuration, Seq<char>>(
                text,
            ),
        },
{
}

/// Without the override, no parameters make a validator prune: its
/// configuration keeps the state of every block, or it is not written.
pub proof fn lemma_validator_config_keeps_all(
    params: ImportParams,
    config: Configuration,
    is_dev: bool,
)
    requires
        !params.unsafe_pruning,
    ensures
        params.updated(config, Role::Authority, is_dev) matches Ok(updated) ==> updated.pruning
            == PruningMode::ArchiveAll,
{
}

/// Putting the same parameters into a configuration a second time changes
/// nothing.
pub proof fn lemma_update_is_idempotent(
    params: ImportParams,
    config: Configuration,
    role: Role,
    is_dev: bool,
)
    ensures
        params.updated(config, role, is_dev) matches Ok(updated) ==> params.updated(
            updated,
            role,
            is_dev,
        ) == Ok::<Configuration, Seq<char>>(updated),
{
}

} // verus!
