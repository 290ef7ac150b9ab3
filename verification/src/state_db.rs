//! The pruning modes that the state database itself constructs.
//!
//! These two functions are the only place where this library calls into
//! `sc_state_db`. Their contracts are taken on trust from that crate's source;
//! everything else in the library is proved from them.

use vstd::prelude::*;
use crate::config::PruningMode;

verus! {

/// The number of blocks in the pruning window of
/// `sc_state_db::PruningMode::default()`.
pub const DEFAULT_MAX_BLOCKS: u32 = 256;

/// Calls `sc_state_db::PruningMode::default()`.
///
/// Trusted: the state database's default mode is a constrained window whose
/// bound is present and equal to [`DEFAULT_MAX_BLOCKS`].
#[verifier::external_body]
pub(crate) fn default_mode() -> (mode: PruningMode)
    ensures
        mode == PruningMode::keep_blocks(DEFAULT_MAX_BLOCKS),
{
    match sc_state_db::PruningMode::default() {
        sc_state_db::PruningMode::Constrained(c) => PruningMode::Constrained {
            max_blocks: c.max_blocks,
        },
        sc_state_db::PruningMode::ArchiveAll => PruningMode::ArchiveAll,
        sc_state_db::PruningMode::ArchiveCanonical => PruningMode::ArchiveCanonical,
    }
}

/// Calls `sc_state_db::PruningMode::blocks_pruning(n)`.
///
/// Trusted: the result is a constrained window whose bound is present and
/// equal to `n`.
#[verifier::external_body]
pub(crate) fn blocks_pruning(n: u32) -> (mode: PruningMode)
    ensures
        mode == PruningMode::keep_blocks(n),
{
    match sc_state_db::PruningMode::blocks_pruning(n) {
        sc_state_db::PruningMode::Constrained(c) => PruningMode::Constrained {
            max_blocks: c.max_blocks,
        },
        sc_state_db::PruningMode::ArchiveAll => PruningMode::ArchiveAll,
        sc_state_db::PruningMode::ArchiveCanonical => PruningMode::ArchiveCanonical,
    }
}

} // verus!
