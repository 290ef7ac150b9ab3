use import_params::config::{RuntimeStrategies, RuntimeStrategy};
use import_params::execution_strategy::{
    resolve_strategy, ExecutionContext, ExecutionStrategy, DEFAULT_EXECUTION_BLOCK_CONSTRUCTION,
    DEFAULT_EXECUTION_IMPORT_BLOCK, DEFAULT_EXECUTION_OFFCHAIN_WORKER, DEFAULT_EXECUTION_OTHER,
    DEFAULT_EXECUTION_SYNCING,
};
use import_params::import_params::ExecutionStrategies;

const CONTEXTS: [ExecutionContext; 5] = [
    ExecutionContext::Syncing,
    ExecutionContext::ImportingBlock,
    ExecutionContext::ConstructingBlock,
    ExecutionContext::OffchainWorker,
    ExecutionContext::Other,
];

const STRATEGIES: [ExecutionStrategy; 4] = [
    ExecutionStrategy::Native,
    ExecutionStrategy::Wasm,
    ExecutionStrategy::Both,
    ExecutionStrategy::NativeElseWasm,
];

fn nothing_chosen() -> ExecutionStrategies {
    ExecutionStrategies {
        execution_syncing: None,
        execution_import_block: None,
        execution_block_construction: None,
        execution_offchain_worker: None,
        execution_other: None,
        execution: None,
    }
}

fn chosen_for(context: ExecutionContext, strategy: ExecutionStrategy) -> ExecutionStrategies {
    let mut s = nothing_chosen();
    match context {
        ExecutionContext::Syncing => s.execution_syncing = Some(strategy),
        ExecutionContext::ImportingBlock => s.execution_import_block = Some(strategy),
        ExecutionContext::ConstructingBlock => s.execution_block_construction = Some(strategy),
        ExecutionContext::OffchainWorker => s.execution_offchain_worker = Some(strategy),
        ExecutionContext::Other => s.execution_other = Some(strategy),
    }
    s
}

#[test]
fn baselines_of_the_contexts() {
    assert_eq!(ExecutionContext::Syncing.baseline(), ExecutionStrategy::NativeElseWasm);
    assert_eq!(ExecutionContext::ImportingBlock.baseline(), ExecutionStrategy::NativeElseWasm);
    assert_eq!(ExecutionContext::ConstructingBlock.baseline(), ExecutionStrategy::Wasm);
    assert_eq!(ExecutionContext::OffchainWorker.baseline(), ExecutionStrategy::Native);
    assert_eq!(ExecutionContext::Other.baseline(), ExecutionStrategy::Native);
    assert_eq!(ExecutionContext::Syncing.baseline(), DEFAULT_EXECUTION_SYNCING);
    assert_eq!(ExecutionContext::ImportingBlock.baseline(), DEFAULT_EXECUTION_IMPORT_BLOCK);
    assert_eq!(ExecutionContext::ConstructingBlock.baseline(), DEFAULT_EXECUTION_BLOCK_CONSTRUCTION);
    assert_eq!(ExecutionContext::OffchainWorker.baseline(), DEFAULT_EXECUTION_OFFCHAIN_WORKER);
    assert_eq!(ExecutionContext::Other.baseline(), DEFAULT_EXECUTION_OTHER);
}

#[test]
fn global_override_wins_everywhere() {
    for global in STRATEGIES {
        for is_dev in [false, true] {
            let mut s = nothing_chosen();
            s.execution = Some(global);
            for context in CONTEXTS {
                assert_eq!(s.resolve(context, is_dev), global);
            }
            for specific in STRATEGIES {
                for chosen in CONTEXTS {
                    let mut s = chosen_for(chosen, specific);
                    s.execution = Some(global);
                    for context in CONTEXTS {
                        assert_eq!(s.resolve(context, is_dev), global);
                    }
                }
            }
        }
    }
}

#[test]
fn dev_node_without_overrides_runs_native() {
    let s = nothing_chosen();
    for context in CONTEXTS {
        assert_eq!(s.resolve(context, true), ExecutionStrategy::Native);
    }
}

#[test]
fn specific_override_wins_in_its_context() {
    for specific in STRATEGIES {
        for chosen in CONTEXTS {
            let s = chosen_for(chosen, specific);
            assert_eq!(s.resolve(chosen, false), specific);
            assert_eq!(s.resolve(chosen, true), specific);
        }
    }
}

#[test]
fn specific_override_leaves_other_contexts_alone() {
    for chosen in CONTEXTS {
        let s = chosen_for(chosen, ExecutionStrategy::Both);
        for context in CONTEXTS {
            if context != chosen {
                assert_eq!(s.resolve(context, false), context.baseline());
                assert_eq!(s.resolve(context, true), ExecutionStrategy::Native);
            }
        }
    }
}

#[test]
fn specific_override_equal_to_baseline_is_kept_on_dev_node() {
    let s = chosen_for(ExecutionContext::ConstructingBlock, ExecutionStrategy::Wasm);
    assert_eq!(s.resolve(ExecutionContext::ConstructingBlock, true), ExecutionStrategy::Wasm);
    let s = chosen_for(ExecutionContext::Syncing, ExecutionStrategy::NativeElseWasm);
    assert_eq!(s.resolve(ExecutionContext::Syncing, true), ExecutionStrategy::NativeElseWasm);
}

#[test]
fn plain_node_without_overrides_runs_baselines() {
    let s = nothing_chosen();
    for context in CONTEXTS {
        assert_eq!(s.resolve(context, false), context.baseline());
    }
    assert_eq!(
        s.resolve_all(false),
        RuntimeStrategies {
            syncing: RuntimeStrategy::NativeElseWasm,
            importing: RuntimeStrategy::NativeElseWasm,
            block_construction: RuntimeStrategy::AlwaysWasm,
            offchain_worker: RuntimeStrategy::NativeWhenPossible,
            other: RuntimeStrategy::NativeWhenPossible,
        }
    );
}

#[test]
fn dev_node_tells_the_executor_native_everywhere() {
    let all = nothing_chosen().resolve_all(true);
    for context in CONTEXTS {
        assert_eq!(all.of(context), RuntimeStrategy::NativeWhenPossible);
    }
}

#[test]
fn rule_for_one_context() {
    let n = ExecutionStrategy::Native;
    let w = ExecutionStrategy::Wasm;
    let b = ExecutionStrategy::Both;
    let e = ExecutionStrategy::NativeElseWasm;
    assert_eq!(resolve_strategy(Some(b), Some(w), e, false), b);
    assert_eq!(resolve_strategy(Some(b), Some(w), e, true), b);
    assert_eq!(resolve_strategy(Some(b), None, e, true), b);
    assert_eq!(resolve_strategy(None, Some(w), e, false), w);
    assert_eq!(resolve_strategy(None, Some(w), e, true), w);
    assert_eq!(resolve_strategy(None, Some(e), e, true), e);
    assert_eq!(resolve_strategy(None, None, e, true), n);
    assert_eq!(resolve_strategy(None, None, w, true), n);
    assert_eq!(resolve_strategy(None, None, e, false), e);
    assert_eq!(resolve_strategy(None, None, w, false), w);
}

#[test]
fn every_context_gets_what_was_picked_for_it() {
    let s = ExecutionStrategies {
        execution_syncing: Some(ExecutionStrategy::Both),
        execution_import_block: None,
        execution_block_construction: Some(ExecutionStrategy::Native),
        execution_offchain_worker: Some(ExecutionStrategy::Wasm),
        execution_other: None,
        execution: None,
    };
    for is_dev in [false, true] {
        let all = s.resolve_all(is_dev);
        for context in CONTEXTS {
            let expected: RuntimeStrategy = s.resolve(context, is_dev).into();
            assert_eq!(all.of(context), expected);
        }
    }
    assert_eq!(
        s.resolve_all(false),
        RuntimeStrategies {
            syncing: RuntimeStrategy::Both,
            importing: RuntimeStrategy::NativeElseWasm,
            block_construction: RuntimeStrategy::NativeWhenPossible,
            offchain_worker: RuntimeStrategy::AlwaysWasm,
            other: RuntimeStrategy::NativeWhenPossible,
        }
    );
    assert_eq!(
        s.resolve_all(true),
        RuntimeStrategies {
            syncing: RuntimeStrategy::Both,
            importing: RuntimeStrategy::NativeWhenPossible,
            block_construction: RuntimeStrategy::NativeWhenPossible,
            offchain_worker: RuntimeStrategy::AlwaysWasm,
            other: RuntimeStrategy::NativeWhenPossible,
        }
    );
}

#[test]
fn choice_for_one_context_is_read_back() {
    let s = ExecutionStrategies {
        execution_syncing: Some(ExecutionStrategy::Native),
        execution_import_block: Some(ExecutionStrategy::Wasm),
        execution_block_construction: Some(ExecutionStrategy::Both),
        execution_offchain_worker: Some(ExecutionStrategy::NativeElseWasm),
        execution_other: None,
        execution: Some(ExecutionStrategy::Both),
    };
    assert_eq!(s.specific(ExecutionContext::Syncing), Some(ExecutionStrategy::Native));
    assert_eq!(s.specific(ExecutionContext::ImportingBlock), Some(ExecutionStrategy::Wasm));
    assert_eq!(s.specific(ExecutionContext::ConstructingBlock), Some(ExecutionStrategy::Both));
    assert_eq!(
        s.specific(ExecutionContext::OffchainWorker),
        Some(ExecutionStrategy::NativeElseWasm)
    );
    assert_eq!(s.specific(ExecutionContext::Other), None);
}

#[test]
fn strategies_map_one_to_one() {
    let native: RuntimeStrategy = ExecutionStrategy::Native.into();
    let wasm: RuntimeStrategy = ExecutionStrategy::Wasm.into();
    let both: RuntimeStrategy = ExecutionStrategy::Both.into();
    let native_else_wasm: RuntimeStrategy = ExecutionStrategy::NativeElseWasm.into();
    assert_eq!(native, RuntimeStrategy::NativeWhenPossible);
    assert_eq!(wasm, RuntimeStrategy::AlwaysWasm);
    assert_eq!(both, RuntimeStrategy::Both);
    assert_eq!(native_else_wasm, RuntimeStrategy::NativeElseWasm);
    for a in STRATEGIES {
        for b in STRATEGIES {
            assert_eq!(RuntimeStrategy::from(a) == RuntimeStrategy::from(b), a == b);
        }
    }
}
