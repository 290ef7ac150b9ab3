use import_params::config::{PruningMode, Role};
use import_params::error::Error;
use import_params::pruning::{
    resolve_pruning, ARCHIVE, INVALID_PRUNING_MESSAGE, UNSAFE_PRUNING_MESSAGE,
};
use import_params::state_db::DEFAULT_MAX_BLOCKS;

fn choice(s: &str) -> Option<String> {
    Some(s.to_string())
}

fn keep(n: u32) -> PruningMode {
    PruningMode::Constrained { max_blocks: Some(n) }
}

fn rejected(text: &str) -> Result<PruningMode, Error> {
    Err(Error::Input(text.to_string()))
}

#[test]
fn authority_without_choice_archives() {
    assert_eq!(resolve_pruning(&None, false, Role::Authority), Ok(PruningMode::ArchiveAll));
    assert_eq!(resolve_pruning(&None, true, Role::Authority), Ok(PruningMode::ArchiveAll));
}

#[test]
fn other_role_without_choice_keeps_default_window() {
    assert_eq!(resolve_pruning(&None, false, Role::Other), Ok(keep(256)));
    assert_eq!(resolve_pruning(&None, true, Role::Other), Ok(keep(256)));
}

#[test]
fn default_window_is_that_of_the_state_database() {
    assert_eq!(DEFAULT_MAX_BLOCKS, 256);
    assert_eq!(resolve_pruning(&None, false, Role::Other), Ok(keep(DEFAULT_MAX_BLOCKS)));
    assert_ne!(resolve_pruning(&None, false, Role::Other), Ok(PruningMode::ArchiveAll));
}

#[test]
fn archive_archives_for_every_role_and_flag() {
    assert_eq!(ARCHIVE, "archive");
    for role in [Role::Authority, Role::Other] {
        for unsafe_pruning in [false, true] {
            assert_eq!(
                resolve_pruning(&choice("archive"), unsafe_pruning, role),
                Ok(PruningMode::ArchiveAll)
            );
        }
    }
}

#[test]
fn authority_pruning_needs_the_override() {
    assert_eq!(
        resolve_pruning(&choice("10"), false, Role::Authority),
        rejected(
            "Validators should run with state pruning disabled (i.e. archive). \
             You can ignore this check with `--unsafe-pruning`."
        )
    );
}

#[test]
fn authority_prunes_with_the_override() {
    assert_eq!(resolve_pruning(&choice("10"), true, Role::Authority), Ok(keep(10)));
}

#[test]
fn other_role_with_text_is_rejected() {
    assert_eq!(
        resolve_pruning(&choice("abc"), false, Role::Other),
        rejected("Invalid pruning mode specified")
    );
    assert_eq!(
        resolve_pruning(&choice("abc"), true, Role::Other),
        rejected("Invalid pruning mode specified")
    );
}

#[test]
fn other_role_prunes_without_the_override() {
    assert_eq!(resolve_pruning(&choice("10"), false, Role::Other), Ok(keep(10)));
    assert_eq!(resolve_pruning(&choice("10"), true, Role::Other), Ok(keep(10)));
}

#[test]
fn window_holds_the_number_that_was_written() {
    assert_eq!(resolve_pruning(&choice("0"), false, Role::Other), Ok(keep(0)));
    assert_eq!(resolve_pruning(&choice("1"), false, Role::Other), Ok(keep(1)));
    assert_eq!(resolve_pruning(&choice("0256"), false, Role::Other), Ok(keep(256)));
    assert_eq!(resolve_pruning(&choice("+512"), false, Role::Other), Ok(keep(512)));
    assert_eq!(resolve_pruning(&choice("4294967295"), true, Role::Authority), Ok(keep(u32::MAX)));
}

#[test]
fn number_that_does_not_fit_is_rejected() {
    assert_eq!(
        resolve_pruning(&choice("4294967296"), false, Role::Other),
        rejected(INVALID_PRUNING_MESSAGE)
    );
    assert_eq!(
        resolve_pruning(&choice("-1"), true, Role::Authority),
        rejected(INVALID_PRUNING_MESSAGE)
    );
    assert_eq!(resolve_pruning(&choice(""), false, Role::Other), rejected(INVALID_PRUNING_MESSAGE));
}

#[test]
fn authority_with_text_is_told_about_the_override_first() {
    assert_eq!(
        resolve_pruning(&choice("abc"), false, Role::Authority),
        rejected(UNSAFE_PRUNING_MESSAGE)
    );
    assert_eq!(
        resolve_pruning(&choice("abc"), true, Role::Authority),
        rejected(INVALID_PRUNING_MESSAGE)
    );
}

#[test]
fn archive_is_matched_letter_for_letter() {
    assert_eq!(
        resolve_pruning(&choice("Archive"), false, Role::Other),
        rejected(INVALID_PRUNING_MESSAGE)
    );
    assert_eq!(
        resolve_pruning(&choice("archive "), false, Role::Other),
        rejected(INVALID_PRUNING_MESSAGE)
    );
    assert_eq!(
        resolve_pruning(&choice("ARCHIVE"), false, Role::Authority),
        rejected(UNSAFE_PRUNING_MESSAGE)
    );
}

#[test]
fn authority_without_override_never_gets_a_window() {
    for text in ["0", "10", "256", "abc", "", "+1", "archive", "4294967296"] {
        match resolve_pruning(&choice(text), false, Role::Authority) {
            Ok(mode) => assert_eq!(mode, PruningMode::ArchiveAll),
            Err(Error::Input(message)) => assert_eq!(message, UNSAFE_PRUNING_MESSAGE),
        }
    }
}

#[test]
fn error_hands_out_its_text() {
    let e = Error::input("some text");
    assert_eq!(e, Error::Input("some text".to_string()));
    assert_eq!(e.message(), "some text");
    match resolve_pruning(&choice("x"), false, Role::Other) {
        Err(e) => assert_eq!(e.message(), "Invalid pruning mode specified"),
        Ok(mode) => panic!("accepted as {:?}", mode),
    }
}
