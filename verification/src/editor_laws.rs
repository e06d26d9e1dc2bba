//! What holds of an exchange after any sequence of operations.

use vstd::prelude::*;
use crate::editor::{spec_apply, EditOp};
use crate::editor_model::{
    aborted_is_wf,
    close_before_children_fails,
    depth_limit_is_kept,
    deepest,
    node_update_keeps_wf,
    open_root_keeps_wf,
    set_target_revision_keeps_wf,
    with_child_keeps_wf,
    with_closed_keeps_wf,
    with_entry_keeps_wf,
    copyfrom_view,
    EditError,
    EditorView,
    EntryChange,
    EntryKind,
    NodeState,
    OriginView,
    Phase,
};
use crate::types::Depth;

verus! {

/// The exchange after the first `n` of the operations were made on `s`, one
/// after the other. An operation that is turned down changes nothing, and
/// the next one is made all the same.
pub open spec fn after(s: EditorView, ops: Seq<EditOp>, n: nat) -> EditorView
    decreases n,
{
    if n == 0 {
        s
    } else {
        spec_apply(after(s, ops, (n - 1) as nat), ops[n - 1]).0
    }
}

/// An operation that is turned down leaves the exchange as it was.
pub proof fn rejected_changes_nothing(s: EditorView, op: EditOp)
    ensures
        spec_apply(s, op).1 is Err ==> spec_apply(s, op).0 == s,
{
}

/// One operation keeps an exchange well formed, opens at most one node,
/// and never changes the depth of the exchange.
pub proof fn operation_keeps_wf(s: EditorView, op: EditOp)
    requires
        s.wf(),
        s.nodes.len() < usize::MAX,
    ensures
        spec_apply(s, op).0.wf(),
        s.nodes.len() <= spec_apply(s, op).0.nodes.len() <= s.nodes.len() + 1,
        spec_apply(s, op).0.limit == s.limit,
        spec_apply(s, op).1 is Err ==> spec_apply(s, op).0 == s,
{
    let t = spec_apply(s, op).0;
    if spec_apply(s, op).1 is Ok {
        match op {
            EditOp::SetTargetRevision { target } => {
                set_target_revision_keeps_wf(s, target);
            },
            EditOp::OpenRoot { base_revision } => {
                open_root_keeps_wf(s, base_revision);
            },
            EditOp::DeleteEntry { dir, path, revision } => {
                with_entry_keeps_wf(
                    s,
                    dir as int,
                    path@,
                    EntryChange::Deleted { revision },
                );
            },
            EditOp::AddDirectory { parent, path, copyfrom } => {
                with_child_keeps_wf(
                    s,
                    parent as int,
                    path@,
                    EntryKind::Directory,
                    OriginView::Added {
                        copyfrom: copyfrom_view(copyfrom),
                    },
                    EntryChange::Added,
                );
            },
            EditOp::OpenDirectory { parent, path, base_revision } => {
                with_child_keeps_wf(
                    s,
                    parent as int,
                    path@,
                    EntryKind::Directory,
                    OriginView::Opened { base_revision },
                    EntryChange::Opened,
                );
            },
            EditOp::AbsentDirectory { dir, path } => {
                with_entry_keeps_wf(
                    s,
                    dir as int,
                    path@,
                    EntryChange::AbsentDirectory,
                );
            },
            EditOp::AddFile { parent, path, copyfrom } => {
                with_child_keeps_wf(
                    s,
                    parent as int,
                    path@,
                    EntryKind::File,
                    OriginView::Added {
                        copyfrom: copyfrom_view(copyfrom),
                    },
                    EntryChange::Added,
                );
            },
            EditOp::OpenFile { parent, path, base_revision } => {
                with_child_keeps_wf(
                    s,
                    parent as int,
                    path@,
                    EntryKind::File,
                    OriginView::Opened { base_revision },
                    EntryChange::Opened,
                );
            },
            EditOp::AbsentFile { dir, path } => {
                with_entry_keeps_wf(
                    s,
                    dir as int,
                    path@,
                    EntryChange::AbsentFile,
                );
            },
            EditOp::ChangeProp { node, name, value } => {
                node_update_keeps_wf(s, node as int, t.nodes[node as int]);
            },
            EditOp::ApplyTextDelta { file, base_checksum } => {
                node_update_keeps_wf(s, file as int, t.nodes[file as int]);
            },
            EditOp::Window { file, window } => {
                node_update_keeps_wf(s, file as int, t.nodes[file as int]);
            },
            EditOp::Close { node } => {
                with_closed_keeps_wf(s, node as int);
            },
            EditOp::CloseFile { file, text_checksum } => {
                with_closed_keeps_wf(s, file as int);
                let closed = s.with_closed(file as int);
                node_update_keeps_wf(closed, file as int, t.nodes[file as int]);
            },
            EditOp::Abort => {
                aborted_is_wf(s);
            },
        }
    }
}

/// Whatever operations are made, in whatever order, the exchange stays
/// well formed.
pub proof fn every_sequence_keeps_wf(s: EditorView, ops: Seq<EditOp>, n: nat)
    requires
        s.wf(),
        n <= ops.len(),
        s.nodes.len() + n < usize::MAX,
    ensures
        after(s, ops, n).wf(),
        after(s, ops, n).nodes.len() <= s.nodes.len() + n,
        after(s, ops, n).limit == s.limit,
    decreases n,
{
    if n > 0 {
        every_sequence_keeps_wf(s, ops, (n - 1) as nat);
        operation_keeps_wf(after(s, ops, (n - 1) as nat), ops[n - 1]);
    }
}

/// After any sequence of operations on a new exchange, a node that has an
/// open child is not closed: the close fails with a state-ordering error
/// and changes nothing.
pub proof fn no_close_before_children(limit: Depth, ops: Seq<EditOp>, node: int, child: int)
    requires
        ops.len() < usize::MAX,
        after(EditorView::idle_within(limit), ops, ops.len()).is_open_child(node, child),
    ensures
        ({
            let s = after(EditorView::idle_within(limit), ops, ops.len());
            &&& s.spec_close(node) == (s, Err::<(), EditError>(EditError::StateOrdering))
            &&& spec_apply(s, EditOp::Close { node: node as usize }).0 == s
            &&& spec_apply(s, EditOp::Close { node: node as usize }).1 is Err
        }),
{
    let s = after(EditorView::idle_within(limit), ops, ops.len());
    every_sequence_keeps_wf(EditorView::idle_within(limit), ops, ops.len());
    close_before_children_fails(s, node, child);
    assert(s.node_ok(child));
}

/// After any sequence of operations on a new exchange, an exchange that
/// has ended holds no open node, and no node lies deeper than the depth of
/// the exchange allows.
pub proof fn no_sequence_leaves_the_rules(limit: Depth, ops: Seq<EditOp>, node: int)
    requires
        ops.len() < usize::MAX,
        0 <= node < after(EditorView::idle_within(limit), ops, ops.len()).nodes.len(),
    ensures
        ({
            let s = after(EditorView::idle_within(limit), ops, ops.len());
            &&& s.limit == limit
            &&& (deepest(limit) matches Some(most) ==> s.nodes[node].depth <= most)
            &&& (s.phase == Phase::Completed || s.phase == Phase::Aborted) ==> s.nodes[node].state
                != NodeState::Open
            &&& s.nodes[node].state != NodeState::Unopened
        }),
{
    let s = after(EditorView::idle_within(limit), ops, ops.len());
    every_sequence_keeps_wf(EditorView::idle_within(limit), ops, ops.len());
    depth_limit_is_kept(s, node);
    assert(s.node_ok(node));
}

} // verus!
