use workflow_checks::failure::Failure;
use workflow_checks::mode::RunMode;
use workflow_checks::oracle::{access, reconcile, Access, Observation};
use workflow_checks::snapshot::{Snapshot, API_SNAPSHOT, LONG_HELP_SNAPSHOT, SHORT_HELP_SNAPSHOT};
use workflow_checks::tree::CommandNode;
use workflow_checks::{api, help_for_review};

#[test]
fn the_snapshot_files_have_fixed_names() {
    assert_eq!(API_SNAPSHOT, "api.golden");
    assert_eq!(LONG_HELP_SNAPSHOT, "command-reference.golden");
    assert_eq!(SHORT_HELP_SNAPSHOT, "command-reference-short.golden");
}

#[test]
fn an_extracted_interface_goes_to_the_api_snapshot_unchanged() {
    let text = "pub mod demo\npub fn demo::run()\n".to_string();
    let snapshot = api(Ok(text.clone())).unwrap();
    assert_eq!(snapshot.file, "api.golden");
    assert_eq!(snapshot.document, text);
}

#[test]
fn an_empty_interface_is_still_a_document() {
    let snapshot = api(Ok(String::new())).unwrap();
    assert_eq!(snapshot.file, "api.golden");
    assert_eq!(snapshot.document, "");
}

#[test]
fn a_failed_extraction_is_a_generation_failure() {
    match api(Err("cargo rustdoc failed".to_string())) {
        Err(Failure::GenerationFailure { reason }) => assert_eq!(reason, "cargo rustdoc failed"),
        other => panic!("expected a generation failure, got {:?}", other),
    }
}

#[test]
fn both_styles_are_rendered_for_their_files() {
    let root = CommandNode {
        name: "tool".to_string(),
        long_help: "tool, at length\n".to_string(),
        short_help: "tool\n".to_string(),
        children: vec![CommandNode {
            name: "run".to_string(),
            long_help: "run, at length\n".to_string(),
            short_help: "run\n".to_string(),
            children: Vec::new(),
        }],
    };
    let snapshots = help_for_review(&root);
    assert_eq!(snapshots.long.file, "command-reference.golden");
    assert_eq!(snapshots.long.document, "tool, at length\n\n\n---\n\nrun, at length\n");
    assert_eq!(snapshots.short.file, "command-reference-short.golden");
    assert_eq!(snapshots.short.document, "tool\n\n\n---\n\nrun\n");
}

#[test]
fn a_snapshot_is_stored_in_utf8() {
    let document = "a\u{e9}\u{2014}\u{1f600}\n".to_string();
    let snapshot = Snapshot { file: "api.golden", document };
    assert_eq!(
        snapshot.bytes(),
        vec![0x61, 0xc3, 0xa9, 0xe2, 0x80, 0x94, 0xf0, 0x9f, 0x98, 0x80, 0x0a]
    );
    let empty = Snapshot { file: "api.golden", document: String::new() };
    assert_eq!(empty.bytes(), Vec::<u8>::new());
}

#[test]
fn a_changed_help_text_is_caught_by_the_snapshot_taken_before() {
    let mut root = CommandNode {
        name: "tool".to_string(),
        long_help: "Usage: tool\n".to_string(),
        short_help: "tool\n".to_string(),
        children: Vec::new(),
    };
    assert_eq!(access(RunMode::Update), Access::Overwrite);
    let stored = help_for_review(&root).long.bytes();

    let unchanged = help_for_review(&root).long.bytes();
    assert!(matches!(reconcile(unchanged, Observation::Found(stored.clone())), Ok(())));

    root.long_help = "Usage: tool [OPTIONS]\n".to_string();
    assert_eq!(access(RunMode::Check), Access::Read);
    let current = help_for_review(&root).long.bytes();
    match reconcile(current, Observation::Found(stored)) {
        Err(Failure::SnapshotMismatch { expected, actual }) => {
            assert_eq!(expected, b"Usage: tool\n");
            assert_eq!(actual, b"Usage: tool [OPTIONS]\n");
        }
        other => panic!("expected a mismatch, got {:?}", other),
    }
}
