use subvertpy::delta::{DeltaAction, DeltaOp, TextDeltaWindow};
use subvertpy::editor::{EditFailure, EditOp, Editor};
use subvertpy::delta::{DeltaError, StreamError};
use subvertpy::editor_model::{EditError, EntryChange, EntryKind, NodeState, Origin, Phase};
use subvertpy::locks::Lock;
use subvertpy::types::Depth;

fn window(text: &[u8]) -> TextDeltaWindow {
    TextDeltaWindow::from_parts(
        0,
        0,
        text.len() as u64,
        vec![DeltaOp { action: DeltaAction::New, offset: 0, length: text.len() as u64 }],
        text.to_vec(),
    )
}

#[test]
fn closing_root_before_child_is_rejected() {
    let mut editor = Editor::new();
    assert_eq!(editor.open_root(Some(5)), Ok(0));
    assert_eq!(editor.add_directory(0, "a", None), Ok(1));
    assert_eq!(editor.close(0), Err(EditError::StateOrdering));
    assert_eq!(editor.node_state(0), NodeState::Open);
    assert_eq!(editor.node_state(1), NodeState::Open);
    assert_eq!(editor.phase(), Phase::Active);
    assert_eq!(editor.close(1), Ok(()));
    assert_eq!(editor.close(0), Ok(()));
    assert_eq!(editor.phase(), Phase::Completed);
}

#[test]
fn nodes_go_from_unopened_to_open_to_closed() {
    let mut editor = Editor::new();
    assert_eq!(editor.node_state(0), NodeState::Unopened);
    assert_eq!(editor.phase(), Phase::Idle);
    assert_eq!(editor.current(), None);
    assert_eq!(editor.open_root(None), Ok(0));
    assert_eq!(editor.node_state(0), NodeState::Open);
    assert_eq!(editor.node_state(1), NodeState::Unopened);
    assert_eq!(editor.current(), Some(0));
    assert_eq!(editor.add_file(0, "f", None), Ok(1));
    assert_eq!(editor.current(), Some(1));
    assert_eq!(editor.open_depth(), 2);
    assert_eq!(editor.close(1), Ok(()));
    assert_eq!(editor.node_state(1), NodeState::Closed);
    assert_eq!(editor.current(), Some(0));
    assert_eq!(editor.node_count(), 2);
}

#[test]
fn the_tree_is_walked_depth_first() {
    let mut editor = Editor::new();
    assert_eq!(editor.open_root(Some(1)), Ok(0));
    assert_eq!(editor.open_directory(0, "trunk", Some(1)), Ok(1));
    assert_eq!(editor.add_directory(1, "trunk/src", Some(("branches/old/src", 1))), Ok(2));
    assert_eq!(editor.add_file(2, "trunk/src/main.c", None), Ok(3));
    // Only the innermost open node takes operations.
    assert_eq!(editor.add_file(1, "trunk/README", None), Err(EditError::StateOrdering));
    assert_eq!(editor.change_prop(2, "p", None), Err(EditError::StateOrdering));
    assert_eq!(editor.close(2), Err(EditError::StateOrdering));
    assert_eq!(editor.close(3), Ok(()));
    assert_eq!(editor.close(2), Ok(()));
    assert_eq!(editor.open_file(1, "trunk/README", Some(1)), Ok(4));
    assert_eq!(editor.close(4), Ok(()));
    assert_eq!(editor.close(1), Ok(()));
    assert_eq!(editor.phase(), Phase::Active);
    assert_eq!(editor.close(0), Ok(()));
    assert_eq!(editor.phase(), Phase::Completed);

    let src = editor.node(2).unwrap();
    assert_eq!(src.kind, EntryKind::Directory);
    assert_eq!(src.parent, Some(1));
    assert_eq!(src.depth, 2);
    assert_eq!(src.path, "trunk/src");
    assert!(matches!(&src.origin, Origin::Added { copyfrom: Some((from, 1)) } if from == "branches/old/src"));
    let readme = editor.node(4).unwrap();
    assert_eq!(readme.kind, EntryKind::File);
    assert!(matches!(readme.origin, Origin::Opened { base_revision: Some(1) }));
    let root = editor.node(0).unwrap();
    assert!(matches!(root.origin, Origin::Root { base_revision: Some(1) }));
    assert_eq!(root.entries.len(), 1);
    assert_eq!(root.entries[0].path, "trunk");
    assert!(matches!(root.entries[0].change, EntryChange::Opened));
    assert!(editor.node(5).is_none());
}

#[test]
fn a_closed_node_takes_nothing_more() {
    let mut editor = Editor::new();
    editor.open_root(None).unwrap();
    let dir = editor.add_directory(0, "d", None).unwrap();
    editor.close(dir).unwrap();
    assert_eq!(editor.change_prop(dir, "p", Some(vec![1])), Err(EditError::NodeClosed));
    assert_eq!(editor.add_file(dir, "d/f", None), Err(EditError::NodeClosed));
    assert_eq!(editor.close(dir), Err(EditError::NodeClosed));
    assert_eq!(editor.close(7), Err(EditError::UnknownNode));
    assert_eq!(editor.node(dir).unwrap().props.len(), 0);
}

#[test]
fn an_exchange_that_has_not_begun_or_has_ended_takes_no_node_operation() {
    let mut editor = Editor::new();
    assert_eq!(editor.add_directory(0, "a", None), Err(EditError::NotActive));
    assert_eq!(editor.close(0), Err(EditError::NotActive));
    editor.open_root(None).unwrap();
    assert_eq!(editor.open_root(None), Err(EditError::StateOrdering));
    editor.close(0).unwrap();
    assert_eq!(editor.phase(), Phase::Completed);
    assert_eq!(editor.open_root(None), Err(EditError::NotActive));
    assert_eq!(editor.change_prop(0, "p", None), Err(EditError::NotActive));
    assert_eq!(editor.abort(), Err(EditError::NotActive));
    assert_eq!(editor.set_target_revision(3), Err(EditError::NotActive));
}

#[test]
fn target_revision_is_set_once_before_the_root() {
    let mut editor = Editor::new();
    assert_eq!(editor.target_revision(), None);
    assert_eq!(editor.set_target_revision(7), Ok(()));
    assert_eq!(editor.target_revision(), Some(7));
    assert_eq!(editor.set_target_revision(8), Err(EditError::StateOrdering));
    assert_eq!(editor.target_revision(), Some(7));
    editor.open_root(Some(5)).unwrap();
    assert_eq!(editor.set_target_revision(9), Err(EditError::StateOrdering));
    assert_eq!(editor.target_revision(), Some(7));

    let mut late = Editor::new();
    late.open_root(None).unwrap();
    assert_eq!(late.set_target_revision(1), Err(EditError::StateOrdering));
    assert_eq!(late.target_revision(), None);
}

#[test]
fn property_changes_accumulate_and_none_deletes() {
    let mut editor = Editor::new();
    editor.open_root(None).unwrap();
    assert_eq!(editor.change_prop(0, "svn:ignore", Some(b"*.o".to_vec())), Ok(()));
    assert_eq!(editor.change_prop(0, "old", None), Ok(()));
    let file = editor.add_file(0, "f", None).unwrap();
    assert_eq!(editor.change_prop(file, "svn:eol-style", Some(vec![0xff, 0x00])), Ok(()));
    let root = editor.node(0).unwrap();
    assert_eq!(root.props.len(), 2);
    assert_eq!(root.props[0].name, "svn:ignore");
    assert_eq!(root.props[0].value, Some(b"*.o".to_vec()));
    assert_eq!(root.props[1].name, "old");
    assert_eq!(root.props[1].value, None);
    let f = editor.node(file).unwrap();
    assert_eq!(f.props.len(), 1);
    assert_eq!(f.props[0].value, Some(vec![0xff, 0x00]));
}

#[test]
fn a_path_is_not_both_deleted_and_opened_in_one_directory() {
    let mut editor = Editor::new();
    editor.open_root(None).unwrap();
    assert_eq!(editor.delete_entry(0, "gone", Some(4)), Ok(()));
    assert_eq!(editor.open_file(0, "gone", None), Err(EditError::PathConflict));
    assert_eq!(editor.open_directory(0, "gone", None), Err(EditError::PathConflict));
    // Deleting and adding again replaces the entry.
    let again = editor.add_file(0, "gone", None).unwrap();
    editor.close(again).unwrap();
    // Deletes of siblings may come between opens of other siblings.
    let kept = editor.open_directory(0, "kept", None).unwrap();
    editor.close(kept).unwrap();
    assert_eq!(editor.delete_entry(0, "other", None), Ok(()));
    assert_eq!(editor.delete_entry(0, "kept", None), Err(EditError::PathConflict));
    let root = editor.node(0).unwrap();
    assert_eq!(root.entries.len(), 4);
    assert!(matches!(root.entries[0].change, EntryChange::Deleted { revision: Some(4) }));
    assert!(matches!(root.entries[1].change, EntryChange::Added));
    assert!(matches!(root.entries[2].change, EntryChange::Opened));
    assert!(matches!(root.entries[3].change, EntryChange::Deleted { revision: None }));
}

#[test]
fn a_new_directory_starts_a_new_generation_of_paths() {
    let mut editor = Editor::new();
    editor.open_root(None).unwrap();
    editor.delete_entry(0, "x", None).unwrap();
    let sub = editor.add_directory(0, "sub", None).unwrap();
    // The same name in another directory is another entry.
    let x = editor.open_file(sub, "x", None).unwrap();
    assert_eq!(x, 2);
}

#[test]
fn absent_entries_are_marked_without_being_opened() {
    let mut editor = Editor::new();
    editor.open_root(None).unwrap();
    assert_eq!(editor.absent_directory(0, "secret"), Ok(()));
    assert_eq!(editor.absent_file(0, "secret.txt"), Ok(()));
    assert_eq!(editor.node_count(), 1);
    let root = editor.node(0).unwrap();
    assert!(matches!(root.entries[0].change, EntryChange::AbsentDirectory));
    assert!(matches!(root.entries[1].change, EntryChange::AbsentFile));
    let file = editor.add_file(0, "f", None).unwrap();
    assert_eq!(editor.absent_file(file, "g"), Err(EditError::WrongKind));
}

#[test]
fn file_operations_are_turned_down_on_directories_and_the_reverse() {
    let mut editor = Editor::new();
    editor.open_root(None).unwrap();
    assert_eq!(editor.apply_textdelta(0, None), Err(EditError::WrongKind));
    assert_eq!(editor.apply_window(0, window(b"x")), Err(EditError::WrongKind));
    assert_eq!(editor.close_file(0, None), Err(EditError::WrongKind));
    let file = editor.add_file(0, "f", None).unwrap();
    assert_eq!(editor.add_file(file, "f/g", None), Err(EditError::WrongKind));
    assert_eq!(editor.delete_entry(file, "g", None), Err(EditError::WrongKind));
    assert_eq!(editor.absent_directory(file, "g"), Err(EditError::WrongKind));
}

#[test]
fn windows_are_kept_in_the_order_received() {
    let mut editor = Editor::new();
    editor.open_root(None).unwrap();
    let file = editor.add_file(0, "f", None).unwrap();
    assert_eq!(editor.apply_window(file, window(b"early")), Err(EditError::StateOrdering));
    assert_eq!(editor.apply_textdelta(file, Some("base-sum")), Ok(()));
    assert_eq!(editor.apply_textdelta(file, None), Err(EditError::StateOrdering));
    assert_eq!(editor.apply_window(file, window(b"one")), Ok(()));
    assert_eq!(editor.apply_window(file, window(b"two")), Ok(()));
    assert_eq!(editor.apply_window(file, window(b"three")), Ok(()));
    assert_eq!(editor.close_file(file, Some("full-sum")), Ok(()));
    let f = editor.node(file).unwrap();
    assert_eq!(f.state, NodeState::Closed);
    assert_eq!(f.base_checksum.as_deref(), Some("base-sum"));
    assert_eq!(f.text_checksum.as_deref(), Some("full-sum"));
    assert_eq!(f.windows.len(), 3);
    assert_eq!(f.windows[0].new_data, b"one");
    assert_eq!(f.windows[1].new_data, b"two");
    assert_eq!(f.windows[2].new_data, b"three");
    assert_eq!(editor.apply_window(file, window(b"late")), Err(EditError::NodeClosed));
}

#[test]
fn abort_invalidates_every_open_node() {
    let mut editor = Editor::new();
    editor.open_root(None).unwrap();
    let a = editor.add_directory(0, "a", None).unwrap();
    let done = editor.add_file(a, "a/done", None).unwrap();
    editor.close(done).unwrap();
    let b = editor.add_directory(a, "a/b", None).unwrap();
    let f = editor.add_file(b, "a/b/f", None).unwrap();
    assert_eq!(editor.open_depth(), 4);
    assert_eq!(editor.abort(), Ok(()));
    assert_eq!(editor.phase(), Phase::Aborted);
    assert_eq!(editor.open_depth(), 0);
    assert_eq!(editor.current(), None);
    assert_eq!(editor.node_state(0), NodeState::Aborted);
    assert_eq!(editor.node_state(a), NodeState::Aborted);
    assert_eq!(editor.node_state(b), NodeState::Aborted);
    assert_eq!(editor.node_state(f), NodeState::Aborted);
    assert_eq!(editor.node_state(done), NodeState::Closed);
    assert_eq!(editor.close(f), Err(EditError::NotActive));
    assert_eq!(editor.abort(), Err(EditError::NotActive));
}

#[test]
fn abort_before_the_root_ends_the_exchange() {
    let mut editor = Editor::new();
    assert_eq!(editor.abort(), Ok(()));
    assert_eq!(editor.phase(), Phase::Aborted);
    assert_eq!(editor.open_root(None), Err(EditError::NotActive));
}

#[test]
fn tagged_operations_do_what_the_methods_do() {
    let mut editor = Editor::new();
    assert_eq!(editor.apply(EditOp::SetTargetRevision { target: 12 }), Ok(None));
    assert_eq!(editor.apply(EditOp::OpenRoot { base_revision: Some(11) }), Ok(Some(0)));
    assert_eq!(
        editor.apply(EditOp::AddDirectory { parent: 0, path: "a".to_string(), copyfrom: None }),
        Ok(Some(1))
    );
    assert_eq!(
        editor.apply(EditOp::ChangeProp { node: 1, name: "k".to_string(), value: Some(vec![7]) }),
        Ok(None)
    );
    assert_eq!(editor.apply(EditOp::Close { node: 0 }), Err(EditError::StateOrdering));
    assert_eq!(
        editor.apply(EditOp::OpenFile { parent: 1, path: "a/f".to_string(), base_revision: Some(11) }),
        Ok(Some(2))
    );
    assert_eq!(
        editor.apply(EditOp::ApplyTextDelta { file: 2, base_checksum: None }),
        Ok(None)
    );
    assert_eq!(editor.apply(EditOp::Window { file: 2, window: window(b"abc") }), Ok(None));
    assert_eq!(
        editor.apply(EditOp::CloseFile { file: 2, text_checksum: Some("sum".to_string()) }),
        Ok(None)
    );
    assert_eq!(
        editor.apply(EditOp::DeleteEntry { dir: 1, path: "a/f".to_string(), revision: None }),
        Err(EditError::PathConflict)
    );
    assert_eq!(
        editor.apply(EditOp::AbsentFile { dir: 1, path: "a/hidden".to_string() }),
        Ok(None)
    );
    assert_eq!(
        editor.apply(EditOp::AbsentDirectory { dir: 1, path: "a/dark".to_string() }),
        Ok(None)
    );
    assert_eq!(
        editor.apply(EditOp::AddFile { parent: 1, path: "a/g".to_string(), copyfrom: Some(("a/f".to_string(), 11)) }),
        Ok(Some(3))
    );
    assert_eq!(
        editor.apply(EditOp::OpenDirectory { parent: 3, path: "x".to_string(), base_revision: None }),
        Err(EditError::WrongKind)
    );
    assert_eq!(editor.apply(EditOp::Abort), Ok(None));
    assert_eq!(editor.phase(), Phase::Aborted);
    assert_eq!(editor.target_revision(), Some(12));
    assert_eq!(editor.node(1).unwrap().props[0].value, Some(vec![7]));
    assert_eq!(editor.node(2).unwrap().text_checksum.as_deref(), Some("sum"));
    assert_eq!(editor.node_state(2), NodeState::Closed);
    assert_eq!(editor.node_state(3), NodeState::Aborted);
}

#[test]
fn check_says_whether_a_node_takes_operations() {
    let mut editor = Editor::new();
    assert_eq!(editor.check(0), Err(EditError::NotActive));
    editor.open_root(None).unwrap();
    assert_eq!(editor.check(0), Ok(()));
    assert_eq!(editor.check(1), Err(EditError::UnknownNode));
    let f = editor.add_file(0, "f", None).unwrap();
    assert_eq!(editor.check(0), Err(EditError::StateOrdering));
    assert_eq!(editor.check_as(f, EntryKind::File), Ok(()));
    assert_eq!(editor.check_as(f, EntryKind::Directory), Err(EditError::WrongKind));
    editor.close(f).unwrap();
    assert_eq!(editor.check(f), Err(EditError::NodeClosed));
    assert_eq!(editor.check(0), Ok(()));
}

#[test]
fn the_depth_governs_how_far_the_exchange_descends() {
    let mut empty = Editor::within(Depth::Empty);
    assert_eq!(empty.depth_limit(), Depth::Empty);
    empty.open_root(None).unwrap();
    assert_eq!(empty.add_file(0, "f", None), Err(EditError::DepthExceeded));
    assert_eq!(empty.open_directory(0, "d", None), Err(EditError::DepthExceeded));
    assert_eq!(empty.change_prop(0, "p", Some(vec![1])), Ok(()));
    assert_eq!(empty.close(0), Ok(()));

    let mut files = Editor::within(Depth::Files);
    files.open_root(None).unwrap();
    assert_eq!(files.add_directory(0, "d", None), Err(EditError::DepthExceeded));
    assert_eq!(files.open_directory(0, "d", None), Err(EditError::DepthExceeded));
    assert_eq!(files.open_file(0, "f", None), Ok(1));
    files.close(1).unwrap();
    assert_eq!(files.add_file(0, "g", None), Ok(2));

    let mut immediates = Editor::within(Depth::Immediates);
    immediates.open_root(None).unwrap();
    assert_eq!(immediates.add_file(0, "f", None), Ok(1));
    immediates.close(1).unwrap();
    assert_eq!(immediates.add_directory(0, "d", None), Ok(2));
    assert_eq!(immediates.add_file(2, "d/f", None), Err(EditError::DepthExceeded));
    assert_eq!(immediates.add_directory(2, "d/e", None), Err(EditError::DepthExceeded));
    assert_eq!(immediates.close(2), Ok(()));

    let mut all = Editor::new();
    assert_eq!(all.depth_limit(), Depth::Infinity);
    all.open_root(None).unwrap();
    let mut parent = 0;
    for _ in 0..20 {
        parent = all.add_directory(parent, "d", None).unwrap();
    }
    assert_eq!(all.open_depth(), 21);
}

#[test]
fn the_windows_of_a_file_rebuild_its_content() {
    let mut editor = Editor::new();
    editor.open_root(None).unwrap();
    let file = editor.add_file(0, "f", None).unwrap();
    editor.apply_textdelta(file, None).unwrap();
    editor.apply_window(file, window(b"alpha ")).unwrap();
    editor.apply_window(file, window(b"beta")).unwrap();
    assert_eq!(editor.rebuild(file, &Vec::new()), Some(Ok(b"alpha beta".to_vec())));
    editor.apply_window(file, TextDeltaWindow::from_parts(0, 9, 0, Vec::new(), Vec::new())).unwrap();
    assert_eq!(
        editor.rebuild(file, &Vec::new()),
        Some(Err(StreamError { window: 2, error: DeltaError::SourceViewOutOfRange }))
    );
    assert_eq!(editor.rebuild(0, &Vec::new()), None);
    assert_eq!(editor.rebuild(9, &Vec::new()), None);
}

#[test]
fn a_lock_is_released_by_its_own_token() {
    let lock = Lock {
        path: "a".to_string(),
        token: "opaquelocktoken:42".to_string(),
        owner: "alice".to_string(),
        comment: None,
        creation_date: 0,
        expiration_date: Some(10),
    };
    assert!(lock.matches_token("opaquelocktoken:42"));
    assert!(!lock.matches_token("opaquelocktoken:43"));
    assert!(!lock.matches_token(""));
}

#[test]
fn a_run_of_operations_stops_at_the_first_that_is_turned_down() {
    let mut editor = Editor::new();
    let done = editor.run(vec![
        EditOp::SetTargetRevision { target: 3 },
        EditOp::OpenRoot { base_revision: Some(2) },
        EditOp::AddFile { parent: 0, path: "f".to_string(), copyfrom: None },
        EditOp::CloseFile { file: 1, text_checksum: None },
        EditOp::Close { node: 0 },
    ]);
    assert_eq!(done, Ok(()));
    assert_eq!(editor.phase(), Phase::Completed);
    assert_eq!(editor.node_count(), 2);

    let mut broken = Editor::new();
    let stopped = broken.run(vec![
        EditOp::OpenRoot { base_revision: None },
        EditOp::AddDirectory { parent: 0, path: "a".to_string(), copyfrom: None },
        EditOp::Close { node: 0 },
        EditOp::Close { node: 1 },
    ]);
    assert_eq!(stopped, Err(EditFailure { index: 2, error: EditError::StateOrdering }));
    assert_eq!(broken.phase(), Phase::Aborted);
    assert_eq!(broken.node_state(0), NodeState::Aborted);
    assert_eq!(broken.node_state(1), NodeState::Aborted);

    let mut nothing = Editor::new();
    assert_eq!(nothing.run(Vec::new()), Ok(()));
    assert_eq!(nothing.phase(), Phase::Idle);

    let mut ended = Editor::new();
    let late = ended.run(vec![
        EditOp::OpenRoot { base_revision: None },
        EditOp::Close { node: 0 },
        EditOp::Close { node: 0 },
    ]);
    assert_eq!(late, Err(EditFailure { index: 2, error: EditError::NotActive }));
    assert_eq!(ended.phase(), Phase::Completed);
}

#[test]
fn the_checksum_of_the_close_is_held_against_the_rebuilt_content() {
    let mut editor = Editor::new();
    editor.open_root(None).unwrap();
    let file = editor.add_file(0, "f", None).unwrap();
    editor.apply_textdelta(file, None).unwrap();
    editor.apply_window(file, window(b"content")).unwrap();
    // Not closed yet: nothing was announced.
    assert!(editor.verify_checksum(file, "anything").unwrap().is_ok());
    editor.close_file(file, Some("9a0364b9e99bb480dd25e1f0284c8555")).unwrap();
    assert!(editor.verify_checksum(file, "9a0364b9e99bb480dd25e1f0284c8555").unwrap().is_ok());
    let mismatch = editor.verify_checksum(file, "d41d8cd98f00b204e9800998ecf8427e").unwrap().unwrap_err();
    assert_eq!(mismatch.expected, "9a0364b9e99bb480dd25e1f0284c8555");
    assert_eq!(mismatch.actual, "d41d8cd98f00b204e9800998ecf8427e");
    assert!(editor.verify_checksum(0, "x").is_none());
    assert!(editor.verify_checksum(5, "x").is_none());
    let other = editor.add_file(0, "g", None).unwrap();
    editor.close_file(other, None).unwrap();
    assert!(editor.verify_checksum(other, "x").unwrap().is_ok());
}
