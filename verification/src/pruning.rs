//! The state pruning mode of a node, decided from its role and from what the
//! operator asked for.
//!
//! A validator may need old state to produce proofs, so it keeps everything
//! unless the operator both asks for pruning and sets the override that
//! allows it.

use vstd::prelude::*;
use crate::config::{PruningMode, Role};
use crate::decimal::{parse_u32, spec_parse_u32};
use crate::error::Error;
use crate::state_db::{blocks_pruning, default_mode, DEFAULT_MAX_BLOCKS};

verus! {

/// What the operator writes to keep the state of every block.
pub const ARCHIVE: &'static str = "archive";

/// Told to the operator of a validator that was asked to prune.
pub const UNSAFE_PRUNING_MESSAGE: &'static str =
    "Validators should run with state pruning disabled (i.e. archive). You can ignore this check with `--unsafe-pruning`.";

/// Told to the operator whose pruning mode is neither `archive` nor a number.
pub const INVALID_PRUNING_MESSAGE: &'static str = "Invalid pruning mode specified";

/// The mode of a node that is no validator and whose operator chose none:
/// the state of the last [`DEFAULT_MAX_BLOCKS`] blocks.
pub open spec fn default_pruning() -> PruningMode {
    PruningMode::keep_blocks(DEFAULT_MAX_BLOCKS)
}

/// The pruning mode of a node, or the text of the error that rejects the
/// input.
///
/// In order: `archive` keeps everything, whatever the role. With no choice
/// made, a validator keeps everything and any other node gets
/// [`default_pruning`]. Any other choice is refused for a validator unless
/// `unsafe_pruning` is set, and must otherwise be a number of blocks in
/// decimal notation.
pub open spec fn resolved_pruning(
    pruning: Option<Seq<char>>,
    unsafe_pruning: bool,
    role: Role,
) -> Result<PruningMode, Seq<char>> {
    match pruning {
        None => if role == Role::Authority {
            Ok(PruningMode::ArchiveAll)
        } else {
            Ok(default_pruning())
        },
        Some(choice) => if choice == ARCHIVE@ {
            Ok(PruningMode::ArchiveAll)
        } else if role == Role::Authority && !unsafe_pruning {
            Err(UNSAFE_PRUNING_MESSAGE@)
        } else {
            match spec_parse_u32(choice) {
                Some(n) => Ok(PruningMode::keep_blocks(n)),
                None => Err(INVALID_PRUNING_MESSAGE@),
            }
        },
    }
}

/// Whether `result` is the outcome that `expected` describes: the same mode,
/// or an input error with the same text.
pub open spec fn is_outcome(
    result: Result<PruningMode, Error>,
    expected: Result<PruningMode, Seq<char>>,
) -> bool {
    match expected {
        Ok(mode) => result == Ok::<PruningMode, Error>(mode),
        Err(text) => result is Err && result->Err_0.text() == text,
    }
}

/// A validator whose operator chose no mode keeps the state of every block,
/// whether or not the override is set.
pub proof fn lemma_validator_defaults_to_archive(unsafe_pruning: bool)
    ensures
        resolved_pruning(None, unsafe_pruning, Role::Authority) == Ok::<PruningMode, Seq<char>>(
            PruningMode::ArchiveAll,
        ),
{
}

/// A node that is no validator and whose operator chose no mode gets the
/// default mode, which is a window of blocks and no archive.
pub proof fn lemma_other_defaults_to_window(unsafe_pruning: bool, role: Role)
    requires
        role != Role::Authority,
    ensures
        resolved_pruning(None, unsafe_pruning, role) == Ok::<PruningMode, Seq<char>>(
            default_pruning(),
        ),
        default_pruning().is_keep_blocks(),
        default_pruning() != PruningMode::ArchiveAll,
{
}

/// `archive` keeps the state of every block, for every role and with or
/// without the override.
pub proof fn lemma_archive_keeps_all(unsafe_pruning: bool, role: Role)
    ensures
        resolved_pruning(Some(ARCHIVE@), unsafe_pruning, role) == Ok::<PruningMode, Seq<char>>(
            PruningMode::ArchiveAll,
        ),
{
}

/// Without the override a validator never prunes: its mode is `ArchiveAll`,
/// or the input is rejected. A choice other than `archive` is rejected with
/// [`UNSAFE_PRUNING_MESSAGE`], whatever it holds.
pub proof fn lemma_validator_never_prunes_unasked(pruning: Option<Seq<char>>)
    ensures
        resolved_pruning(pruning, false, Role::Authority) matches Ok(mode) ==> mode
            == PruningMode::ArchiveAll,
        pruning matches Some(choice) && choice != ARCHIVE@ ==> resolved_pruning(
            pruning,
            false,
            Role::Authority,
        ) == Err::<PruningMode, Seq<char>>(UNSAFE_PRUNING_MESSAGE@),
{
}

/// Where pruning is allowed, a choice other than `archive` is accepted
/// exactly if it is a number, and then keeps that number of blocks.
pub proof fn lemma_number_keeps_blocks(choice: Seq<char>, unsafe_pruning: bool, role: Role)
    requires
        choice != ARCHIVE@,
        role != Role::Authority || unsafe_pruning,
    ensures
        resolved_pruning(Some(choice), unsafe_pruning, role) == match spec_parse_u32(choice) {
            Some(n) => Ok::<PruningMode, Seq<char>>(PruningMode::keep_blocks(n)),
            None => Err::<PruningMode, Seq<char>>(INVALID_PRUNING_MESSAGE@),
        },
{
}

/// Every mode that is decided either keeps everything or keeps a window of
/// a given number of blocks.
pub proof fn lemma_resolved_mode_is_archive_or_window(
    pruning: Option<Seq<char>>,
    unsafe_pruning: bool,
    role: Role,
)
    ensures
        resolved_pruning(pruning, unsafe_pruning, role) matches Ok(mode) ==> mode
            == PruningMode::ArchiveAll || mode.is_keep_blocks(),
{
}

/// Decides the pruning mode of a node; see [`resolved_pruning`].
pub fn resolve_pruning(
    pruning: &Option<String>,
    unsafe_pruning: bool,
    role: Role,
) -> (result: Result<PruningMode, Error>)
    ensures
        is_outcome(result, resolved_pruning(pruning.deep_view(), unsafe_pruning, role)),
{
    match pruning {
        None => {
            if role == Role::Authority {
                Ok(PruningMode::ArchiveAll)
            } else {
                Ok(default_mode())
            }
        },
        Some(choice) => {
            let archive = ARCHIVE.to_owned();
            if *choice == archive {
                Ok(PruningMode::ArchiveAll)
            } else if role == Role::Authority && !unsafe_pruning {
                Err(Error::input(UNSAFE_PRUNING_MESSAGE))
            } else {
                match parse_u32(choice.as_str()) {
                    Some(n) => Ok(blocks_pruning(n)),
                    None => Err(Error::input(INVALID_PRUNING_MESSAGE)),
                }
            }
        },
    }
}

} // verus!
