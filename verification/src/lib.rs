//! Block-import parameters of a blockchain node, and the rules by which they
//! are put into the node's configuration.
//!
//! The parameters arrive as plain values, as the operator gave them. Two
//! rules decide what they mean:
//!
//! - [`pruning::resolve_pruning`] derives the state pruning mode from the
//!   node's role and the operator's choice. A validator keeps all state
//!   unless the operator asks for pruning and sets the override that allows
//!   it.
//! - [`import_params::ExecutionStrategies::resolve`] derives the execution
//!   strategy of each execution context from the operator's overrides, the
//!   context's baseline, and whether the node is a development node.
//!
//! [`import_params::ImportParams::update_config`] applies both, together with
//! the settings that are passed through as they are, to a
//! [`config::Configuration`]: either all of it or, where the parameters are
//! rejected, nothing.
//!
//! Every function is verified against its contract. The two calls into the
//! state database, in [`state_db`], are the only contracts taken on trust.

pub mod config;
pub mod decimal;
pub mod error;
pub mod execution_strategy;
pub mod import_params;
pub mod pruning;
pub mod state_db;
