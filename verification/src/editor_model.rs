//! The tree-delta editor protocol as mathematics: what an exchange is, what
//! each operation makes of it, and what holds of every exchange.
//!
//! The nodes of an exchange live in an arena and are named by their index.
//! The nodes that are open form a stack, the root at the bottom; only the
//! innermost open node takes operations.

use vstd::prelude::*;
use crate::delta::{windows_view, TextDeltaWindow, WindowView};
use crate::types::{opt_text, Depth, Revnum};

verus! {

/// What a node of the exchange is.
#[derive(Clone, Copy, Debug, PartialEq, Eq, Structural)]
pub enum EntryKind {
    Directory,
    File,
}

/// Where a node stands in its life.
#[derive(Clone, Copy, Debug, PartialEq, Eq, Structural)]
pub enum NodeState {
    Unopened,
    Open,
    Closed,
    /// The exchange was aborted while the node was open.
    Aborted,
}

/// Where the exchange stands.
#[derive(Clone, Copy, Debug, PartialEq, Eq, Structural)]
pub enum Phase {
    /// The root is not open yet.
    Idle,
    Active,
    /// The root was closed: the exchange ended well.
    Completed,
    Aborted,
}

/// Why an operation was turned down. The exchange is as it was before.
#[derive(Clone, Copy, Debug, PartialEq, Eq, Structural)]
pub enum EditError {
    /// The exchange has not begun, or it has ended.
    NotActive,
    /// No node has this index.
    UnknownNode,
    /// The node was closed or aborted.
    NodeClosed,
    /// The operation comes out of order: the node still has an open child,
    /// the root is opened twice, or a window comes without a text delta.
    StateOrdering,
    /// The node is a file where a directory is asked for, or the reverse.
    WrongKind,
    /// The path is both deleted and opened in one directory.
    PathConflict,
    /// The node would lie deeper than the depth of the exchange allows.
    DepthExceeded,
}

/// What was done to an entry of a directory.
#[derive(Clone, Copy, Debug)]
pub enum EntryChange {
    Deleted { revision: Option<Revnum> },
    Added,
    Opened,
    AbsentDirectory,
    AbsentFile,
}

/// One entry of a directory that the exchange touched.
#[derive(Debug)]
pub struct EntryRecord {
    pub path: String,
    pub change: EntryChange,
}

/// One property change. No value means that the property is deleted.
#[derive(Debug)]
pub struct PropChange {
    pub name: String,
    pub value: Option<Vec<u8>>,
}

/// How a node came into the exchange.
#[derive(Debug)]
pub enum Origin {
    Root { base_revision: Option<Revnum> },
    Added { copyfrom: Option<(String, Revnum)> },
    Opened { base_revision: Option<Revnum> },
}

/// `Origin` as plain values.
pub enum OriginView {
    Root { base_revision: Option<Revnum> },
    Added { copyfrom: Option<(Seq<char>, Revnum)> },
    Opened { base_revision: Option<Revnum> },
}

/// One node of the exchange.
#[derive(Debug)]
pub struct Node {
    pub kind: EntryKind,
    pub parent: Option<usize>,
    pub depth: usize,
    pub path: String,
    pub state: NodeState,
    pub origin: Origin,
    pub props: Vec<PropChange>,
    pub entries: Vec<EntryRecord>,
    pub delta_opened: bool,
    pub base_checksum: Option<String>,
    pub windows: Vec<TextDeltaWindow>,
    pub text_checksum: Option<String>,
}

/// A node as plain values.
pub struct NodeView {
    pub kind: EntryKind,
    pub parent: Option<usize>,
    /// The number of nodes above it; the root has depth 0.
    pub depth: usize,
    pub path: Seq<char>,
    pub state: NodeState,
    pub origin: OriginView,
    /// The property changes, in the order in which they came.
    pub props: Seq<(Seq<char>, Option<Seq<u8>>)>,
    /// The entries touched, for a directory, in the order in which they came.
    pub entries: Seq<(Seq<char>, EntryChange)>,
    pub delta_opened: bool,
    pub base_checksum: Option<Seq<char>>,
    /// The windows received, for a file, in the order in which they came.
    pub windows: Seq<WindowView>,
    pub text_checksum: Option<Seq<char>>,
}

/// An exchange as plain values.
pub struct EditorView {
    pub phase: Phase,
    /// How far the exchange may descend.
    pub limit: Depth,
    pub target_revision: Option<Revnum>,
    pub nodes: Seq<NodeView>,
    /// The open nodes, the root first and the innermost last.
    pub open: Seq<usize>,
}

pub open spec fn opt_bytes(bytes: Option<Vec<u8>>) -> Option<Seq<u8>> {
    match bytes {
        Some(b) => Some(b@),
        None => None,
    }
}

pub open spec fn copyfrom_view(copyfrom: Option<(String, Revnum)>) -> Option<(Seq<char>, Revnum)> {
    match copyfrom {
        Some((path, revision)) => Some((path@, revision)),
        None => None,
    }
}

impl View for Origin {
    type V = OriginView;

    open spec fn view(&self) -> OriginView {
        match self {
            Origin::Root { base_revision } => OriginView::Root { base_revision: *base_revision },
            Origin::Added { copyfrom } => OriginView::Added { copyfrom: copyfrom_view(*copyfrom) },
            Origin::Opened { base_revision } => OriginView::Opened {
                base_revision: *base_revision,
            },
        }
    }
}

impl View for PropChange {
    type V = (Seq<char>, Option<Seq<u8>>);

    open spec fn view(&self) -> (Seq<char>, Option<Seq<u8>>) {
        (self.name@, opt_bytes(self.value))
    }
}

impl View for EntryRecord {
    type V = (Seq<char>, EntryChange);

    open spec fn view(&self) -> (Seq<char>, EntryChange) {
        (self.path@, self.change)
    }
}

impl View for Node {
    type V = NodeView;

    open spec fn view(&self) -> NodeView {
        NodeView {
            kind: self.kind,
            parent: self.parent,
            depth: self.depth,
            path: self.path@,
            state: self.state,
            origin: self.origin@,
            props: Seq::new(self.props@.len(), |i: int| self.props@[i]@),
            entries: Seq::new(self.entries@.len(), |i: int| self.entries@[i]@),
            delta_opened: self.delta_opened,
            base_checksum: opt_text(self.base_checksum),
            windows: windows_view(self.windows@),
            text_checksum: opt_text(self.text_checksum),
        }
    }
}

/// Whether an exchange of depth `limit` may hold a node of `kind` under a
/// directory that stands `parent_depth` levels below the root: with
/// `Empty` the root alone, with `Files` the files of the root too, with
/// `Immediates` the files and directories of the root, with `Infinity`
/// every node.
pub open spec fn admits(limit: Depth, parent_depth: int, kind: EntryKind) -> bool {
    match limit {
        Depth::Infinity => true,
        Depth::Immediates => parent_depth == 0,
        Depth::Files => parent_depth == 0 && kind == EntryKind::File,
        Depth::Empty => false,
    }
}

/// Whether the record says that `path` was deleted (`deleted`) or opened
/// (not `deleted`).
pub open spec fn entry_marks(record: (Seq<char>, EntryChange), path: Seq<char>, deleted: bool) -> bool {
    record.0 == path && if deleted {
        record.1 is Deleted
    } else {
        record.1 is Opened
    }
}

/// Whether `path` was deleted, or opened, among the entries.
pub open spec fn path_marked(
    entries: Seq<(Seq<char>, EntryChange)>,
    path: Seq<char>,
    deleted: bool,
) -> bool {
    exists|i: int| 0 <= i < entries.len() && entry_marks(#[trigger] entries[i], path, deleted)
}

impl NodeView {
    /// A node that has just been opened.
    pub open spec fn fresh(
        kind: EntryKind,
        parent: Option<usize>,
        depth: usize,
        path: Seq<char>,
        origin: OriginView,
    ) -> NodeView {
        NodeView {
            kind,
            parent,
            depth,
            path,
            state: NodeState::Open,
            origin,
            props: Seq::empty(),
            entries: Seq::empty(),
            delta_opened: false,
            base_checksum: None,
            windows: Seq::empty(),
            text_checksum: None,
        }
    }

    /// The node after the exchange was aborted.
    pub open spec fn after_abort(self) -> NodeView {
        if self.state == NodeState::Open {
            NodeView { state: NodeState::Aborted, ..self }
        } else {
            self
        }
    }
}

impl EditorView {
    /// An exchange of unlimited depth before its first operation.
    pub open spec fn idle() -> EditorView {
        EditorView::idle_within(Depth::Infinity)
    }

    /// An exchange of the given depth before its first operation.
    pub open spec fn idle_within(limit: Depth) -> EditorView {
        EditorView {
            phase: Phase::Idle,
            limit,
            target_revision: None,
            nodes: Seq::empty(),
            open: Seq::empty(),
        }
    }

    /// What holds of one frame of the stack: it names a node that is open
    /// and stands as deep in the tree as the frame stands in the stack.
    pub open spec fn frame_ok(self, k: int) -> bool {
        &&& self.open[k] < self.nodes.len()
        &&& self.nodes[self.open[k] as int].state == NodeState::Open
        &&& self.nodes[self.open[k] as int].depth == k
    }

    /// What holds of one node: it was opened once; while it is open it
    /// stands on the stack, and so does its parent; it comes after its
    /// parent, which is a directory one level above it; and it lies no
    /// deeper than the depth of the exchange allows.
    pub open spec fn node_ok(self, i: int) -> bool {
        let n = self.nodes[i];
        &&& n.depth <= i
        &&& n.state != NodeState::Unopened
        &&& (n.state == NodeState::Open ==> n.depth < self.open.len()
            && self.open[n.depth as int] == i)
        &&& match n.parent {
            None => i == 0 && n.depth == 0,
            Some(p) => {
                &&& p < i
                &&& self.nodes[p as int].kind == EntryKind::Directory
                &&& n.depth == self.nodes[p as int].depth + 1
                &&& (n.state == NodeState::Open ==> self.nodes[p as int].state
                    == NodeState::Open)
                &&& admits(self.limit, self.nodes[p as int].depth as int, n.kind)
            },
        }
    }

    /// What holds of every exchange: the open nodes are exactly the nodes
    /// of the stack, each one level below the one before it; a node comes
    /// after its parent, which is a directory; and the parent of an open
    /// node is open.
    pub open spec fn wf(self) -> bool {
        &&& self.phase == Phase::Idle ==> self.nodes.len() == 0
        &&& (self.phase == Phase::Active) == (self.open.len() > 0)
        &&& forall|k: int| 0 <= k < self.open.len() ==> #[trigger] self.frame_ok(k)
        &&& forall|i: int| 0 <= i < self.nodes.len() ==> #[trigger] self.node_ok(i)
    }

    /// The state of the node with this index. An index that no node has
    /// yet stands for a node that is not opened.
    pub open spec fn node_state(self, node: int) -> NodeState {
        if 0 <= node < self.nodes.len() {
            self.nodes[node].state
        } else {
            NodeState::Unopened
        }
    }

    /// Whether the node has a child that is open.
    pub open spec fn has_open_child(self, node: int) -> bool {
        exists|c: int| #[trigger] self.is_open_child(node, c)
    }

    /// Whether `child` is a node under `node` that is open.
    pub open spec fn is_open_child(self, node: int, child: int) -> bool {
        &&& 0 <= child < self.nodes.len()
        &&& self.nodes[child].state == NodeState::Open
        &&& self.nodes[child].parent matches Some(p)
        &&& p == node
    }

    /// Whether the node takes operations now: the exchange runs, the node
    /// is open, and it is the innermost open node.
    pub open spec fn usable(self, node: int) -> Result<(), EditError> {
        if self.phase != Phase::Active {
            Err(EditError::NotActive)
        } else if node < 0 || node >= self.nodes.len() {
            Err(EditError::UnknownNode)
        } else if self.nodes[node].state != NodeState::Open {
            Err(EditError::NodeClosed)
        } else if self.open.last() != node {
            Err(EditError::StateOrdering)
        } else {
            Ok(())
        }
    }

    /// As `usable`, for an operation that is made on one kind of node.
    pub open spec fn usable_as(self, node: int, kind: EntryKind) -> Result<(), EditError> {
        match self.usable(node) {
            Err(e) => Err(e),
            Ok(_) => if self.nodes[node].kind != kind {
                Err(EditError::WrongKind)
            } else {
                Ok(())
            },
        }
    }

    pub open spec fn spec_set_target_revision(self, revision: Revnum) -> (
        EditorView,
        Result<(), EditError>,
    ) {
        if self.phase == Phase::Completed || self.phase == Phase::Aborted {
            (self, Err(EditError::NotActive))
        } else if self.phase == Phase::Active || self.target_revision.is_some() {
            (self, Err(EditError::StateOrdering))
        } else {
            (EditorView { target_revision: Some(revision), ..self }, Ok(()))
        }
    }

    pub open spec fn spec_open_root(self, base_revision: Option<Revnum>) -> (
        EditorView,
        Result<usize, EditError>,
    ) {
        if self.phase == Phase::Completed || self.phase == Phase::Aborted {
            (self, Err(EditError::NotActive))
        } else if self.phase == Phase::Active {
            (self, Err(EditError::StateOrdering))
        } else {
            (
                EditorView {
                    phase: Phase::Active,
                    nodes: seq![
                        NodeView::fresh(
                            EntryKind::Directory,
                            None,
                            0,
                            Seq::empty(),
                            OriginView::Root { base_revision },
                        ),
                    ],
                    open: seq![0usize],
                    ..self
                },
                Ok(0usize),
            )
        }
    }

    /// The exchange with one more entry recorded in the directory.
    pub open spec fn with_entry(self, dir: int, path: Seq<char>, change: EntryChange) -> EditorView {
        let d = self.nodes[dir];
        EditorView {
            nodes: self.nodes.update(dir, NodeView { entries: d.entries.push((path, change)), ..d }),
            ..self
        }
    }

    /// The exchange with a new open node under `parent`, which records it
    /// among its entries.
    pub open spec fn with_child(
        self,
        parent: int,
        path: Seq<char>,
        kind: EntryKind,
        origin: OriginView,
        change: EntryChange,
    ) -> EditorView {
        let recorded = self.with_entry(parent, path, change);
        EditorView {
            nodes: recorded.nodes.push(
                NodeView::fresh(
                    kind,
                    Some(parent as usize),
                    (self.nodes[parent].depth + 1) as usize,
                    path,
                    origin,
                ),
            ),
            open: self.open.push(self.nodes.len() as usize),
            ..recorded
        }
    }

    /// Adding a node: the parent must be the innermost open node and a
    /// directory, and the depth of the exchange must admit the node. The
    /// new node gets the next index.
    pub open spec fn spec_add(
        self,
        parent: int,
        path: Seq<char>,
        kind: EntryKind,
        copyfrom: Option<(Seq<char>, Revnum)>,
    ) -> (EditorView, Result<usize, EditError>) {
        match self.usable_as(parent, EntryKind::Directory) {
            Err(e) => (self, Err(e)),
            Ok(_) => if !admits(self.limit, self.nodes[parent].depth as int, kind) {
                (self, Err(EditError::DepthExceeded))
            } else {
                (
                    self.with_child(
                        parent,
                        path,
                        kind,
                        OriginView::Added { copyfrom },
                        EntryChange::Added,
                    ),
                    Ok(self.nodes.len() as usize),
                )
            },
        }
    }

    /// Opening an existing node: as adding, and the path must not have been
    /// deleted in this directory.
    pub open spec fn spec_open(
        self,
        parent: int,
        path: Seq<char>,
        kind: EntryKind,
        base_revision: Option<Revnum>,
    ) -> (EditorView, Result<usize, EditError>) {
        match self.usable_as(parent, EntryKind::Directory) {
            Err(e) => (self, Err(e)),
            Ok(_) => if !admits(self.limit, self.nodes[parent].depth as int, kind) {
                (self, Err(EditError::DepthExceeded))
            } else if path_marked(self.nodes[parent].entries, path, true) {
                (self, Err(EditError::PathConflict))
            } else {
                (
                    self.with_child(
                        parent,
                        path,
                        kind,
                        OriginView::Opened { base_revision },
                        EntryChange::Opened,
                    ),
                    Ok(self.nodes.len() as usize),
                )
            },
        }
    }

    /// Deleting an entry: the path must not have been opened in this
    /// directory.
    pub open spec fn spec_delete_entry(self, dir: int, path: Seq<char>, revision: Option<Revnum>) -> (
        EditorView,
        Result<(), EditError>,
    ) {
        match self.usable_as(dir, EntryKind::Directory) {
            Err(e) => (self, Err(e)),
            Ok(_) => if path_marked(self.nodes[dir].entries, path, false) {
                (self, Err(EditError::PathConflict))
            } else {
                (self.with_entry(dir, path, EntryChange::Deleted { revision }), Ok(()))
            },
        }
    }

    /// Marking an entry as one that the client may not see.
    pub open spec fn spec_absent(self, dir: int, path: Seq<char>, kind: EntryKind) -> (
        EditorView,
        Result<(), EditError>,
    ) {
        match self.usable_as(dir, EntryKind::Directory) {
            Err(e) => (self, Err(e)),
            Ok(_) => (
                self.with_entry(
                    dir,
                    path,
                    match kind {
                        EntryKind::Directory => EntryChange::AbsentDirectory,
                        EntryKind::File => EntryChange::AbsentFile,
                    },
                ),
                Ok(()),
            ),
        }
    }

    pub open spec fn spec_change_prop(self, node: int, name: Seq<char>, value: Option<Seq<u8>>) -> (
        EditorView,
        Result<(), EditError>,
    ) {
        match self.usable(node) {
            Err(e) => (self, Err(e)),
            Ok(_) => {
                let n = self.nodes[node];
                (
                    EditorView {
                        nodes: self.nodes.update(
                            node,
                            NodeView { props: n.props.push((name, value)), ..n },
                        ),
                        ..self
                    },
                    Ok(()),
                )
            },
        }
    }

    /// Announcing the content change of a file, at most once for a file.
    pub open spec fn spec_apply_textdelta(self, file: int, base_checksum: Option<Seq<char>>) -> (
        EditorView,
        Result<(), EditError>,
    ) {
        match self.usable_as(file, EntryKind::File) {
            Err(e) => (self, Err(e)),
            Ok(_) => {
                let n = self.nodes[file];
                if n.delta_opened {
                    (self, Err(EditError::StateOrdering))
                } else {
                    (
                        EditorView {
                            nodes: self.nodes.update(
                                file,
                                NodeView { delta_opened: true, base_checksum, ..n },
                            ),
                            ..self
                        },
                        Ok(()),
                    )
                }
            },
        }
    }

    /// Handing over the next window of a file's content change. The windows
    /// are kept in the order in which they came.
    pub open spec fn spec_apply_window(self, file: int, window: WindowView) -> (
        EditorView,
        Result<(), EditError>,
    ) {
        match self.usable_as(file, EntryKind::File) {
            Err(e) => (self, Err(e)),
            Ok(_) => {
                let n = self.nodes[file];
                if !n.delta_opened {
                    (self, Err(EditError::StateOrdering))
                } else {
                    (
                        EditorView {
                            nodes: self.nodes.update(
                                file,
                                NodeView { windows: n.windows.push(window), ..n },
                            ),
                            ..self
                        },
                        Ok(()),
                    )
                }
            },
        }
    }

    /// The exchange with the innermost open node closed. Closing the root
    /// ends the exchange.
    pub open spec fn with_closed(self, node: int) -> EditorView {
        EditorView {
            phase: if self.open.len() == 1 {
                Phase::Completed
            } else {
                Phase::Active
            },
            nodes: self.nodes.update(
                node,
                NodeView { state: NodeState::Closed, ..self.nodes[node] },
            ),
            open: self.open.drop_last(),
            ..self
        }
    }

    /// Closing a node of either kind.
    pub open spec fn spec_close(self, node: int) -> (EditorView, Result<(), EditError>) {
        match self.usable(node) {
            Err(e) => (self, Err(e)),
            Ok(_) => (self.with_closed(node), Ok(())),
        }
    }

    /// Closing a file with the checksum of its full content.
    pub open spec fn spec_close_file(self, file: int, text_checksum: Option<Seq<char>>) -> (
        EditorView,
        Result<(), EditError>,
    ) {
        match self.usable_as(file, EntryKind::File) {
            Err(e) => (self, Err(e)),
            Ok(_) => {
                let closed = self.with_closed(file);
                (
                    EditorView {
                        nodes: closed.nodes.update(
                            file,
                            NodeView { text_checksum, ..closed.nodes[file] },
                        ),
                        ..closed
                    },
                    Ok(()),
                )
            },
        }
    }

    /// The exchange after an abort: every open node is invalidated.
    pub open spec fn aborted(self) -> EditorView {
        EditorView {
            phase: Phase::Aborted,
            nodes: Seq::new(self.nodes.len(), |i: int| self.nodes[i].after_abort()),
            open: Seq::empty(),
            ..self
        }
    }

    /// Aborting: from any point of an exchange that has not ended.
    pub open spec fn spec_abort(self) -> (EditorView, Result<(), EditError>) {
        if self.phase == Phase::Completed || self.phase == Phase::Aborted {
            (self, Err(EditError::NotActive))
        } else {
            (self.aborted(), Ok(()))
        }
    }
}

/// An exchange before its first operation is well formed.
pub proof fn idle_is_wf(limit: Depth)
    ensures
        EditorView::idle().wf(),
        EditorView::idle_within(limit).wf(),
{
}

/// Recording the target revision keeps the exchange well formed.
pub proof fn set_target_revision_keeps_wf(s: EditorView, revision: Revnum)
    requires
        s.wf(),
    ensures
        s.spec_set_target_revision(revision).0.wf(),
{
    let t = s.spec_set_target_revision(revision).0;
    assert forall|k: int| 0 <= k < t.open.len() implies #[trigger] t.frame_ok(k) by {
        assert(s.frame_ok(k));
    }
    assert forall|i: int| 0 <= i < t.nodes.len() implies #[trigger] t.node_ok(i) by {
        assert(s.node_ok(i));
    }
}

/// Opening the root keeps the exchange well formed.
pub proof fn open_root_keeps_wf(s: EditorView, base_revision: Option<Revnum>)
    requires
        s.wf(),
    ensures
        s.spec_open_root(base_revision).0.wf(),
{
    let t = s.spec_open_root(base_revision).0;
    if s.phase == Phase::Idle {
        assert forall|k: int| 0 <= k < t.open.len() implies #[trigger] t.frame_ok(k) by {}
        assert forall|i: int| 0 <= i < t.nodes.len() implies #[trigger] t.node_ok(i) by {}
    }
}

/// Changing what the innermost open node holds, but not its place in the
/// tree, keeps the exchange well formed and the node in its turn.
pub proof fn node_update_keeps_wf(s: EditorView, node: int, changed: NodeView)
    requires
        s.wf(),
        0 <= node < s.nodes.len(),
        changed.kind == s.nodes[node].kind,
        changed.parent == s.nodes[node].parent,
        changed.depth == s.nodes[node].depth,
        changed.state == s.nodes[node].state,
    ensures
        (EditorView { nodes: s.nodes.update(node, changed), ..s }).wf(),
        (EditorView { nodes: s.nodes.update(node, changed), ..s }).usable(node) == s.usable(node),
{
    let t = EditorView { nodes: s.nodes.update(node, changed), ..s };
    assert forall|k: int| 0 <= k < t.open.len() implies #[trigger] t.frame_ok(k) by {
        assert(s.frame_ok(k));
    }
    assert forall|i: int| 0 <= i < t.nodes.len() implies #[trigger] t.node_ok(i) by {
        assert(s.node_ok(i));
    }
}

/// Recording an entry in the innermost open directory keeps the exchange
/// well formed.
pub proof fn with_entry_keeps_wf(s: EditorView, dir: int, path: Seq<char>, change: EntryChange)
    requires
        s.wf(),
        s.usable(dir) is Ok,
    ensures
        s.with_entry(dir, path, change).wf(),
        s.with_entry(dir, path, change).usable(dir) is Ok,
{
    let d = s.nodes[dir];
    node_update_keeps_wf(s, dir, NodeView { entries: d.entries.push((path, change)), ..d });
}

/// Opening a node under the innermost open directory keeps the exchange
/// well formed.
pub proof fn with_child_keeps_wf(
    s: EditorView,
    parent: int,
    path: Seq<char>,
    kind: EntryKind,
    origin: OriginView,
    change: EntryChange,
)
    requires
        s.wf(),
        s.usable_as(parent, EntryKind::Directory) is Ok,
        admits(s.limit, s.nodes[parent].depth as int, kind),
        s.nodes.len() < usize::MAX,
    ensures
        s.with_child(parent, path, kind, origin, change).wf(),
{
    with_entry_keeps_wf(s, parent, path, change);
    let r = s.with_entry(parent, path, change);
    let t = s.with_child(parent, path, kind, origin, change);
    let id = s.nodes.len() as int;
    let top = s.open.len() - 1;
    assert(s.frame_ok(top));
    assert(s.node_ok(parent));
    assert(s.open[top] == parent);
    assert(s.nodes[parent].depth == top);
    assert forall|k: int| 0 <= k < t.open.len() implies #[trigger] t.frame_ok(k) by {
        if k < s.open.len() {
            assert(r.frame_ok(k));
        }
    }
    assert forall|i: int| 0 <= i < t.nodes.len() implies #[trigger] t.node_ok(i) by {
        if i < id {
            assert(r.node_ok(i));
        }
    }
}

/// Closing the innermost open node keeps the exchange well formed.
pub proof fn with_closed_keeps_wf(s: EditorView, node: int)
    requires
        s.wf(),
        s.usable(node) is Ok,
    ensures
        s.with_closed(node).wf(),
{
    let t = s.with_closed(node);
    let top = s.open.len() - 1;
    assert(s.frame_ok(top));
    assert(s.open[top] == node);
    assert(s.nodes[node].depth == top);
    assert forall|k: int| 0 <= k < t.open.len() implies #[trigger] t.frame_ok(k) by {
        assert(s.frame_ok(k));
    }
    assert forall|i: int| 0 <= i < t.nodes.len() implies #[trigger] t.node_ok(i) by {
        assert(s.node_ok(i));
        let o = s.nodes[i];
        if i != node && o.state == NodeState::Open {
            assert(s.frame_ok(o.depth as int));
            match o.parent {
                None => {},
                Some(p) => {
                    assert(s.node_ok(p as int));
                },
            }
        }
    }
}

/// Aborting keeps the exchange well formed.
pub proof fn aborted_is_wf(s: EditorView)
    requires
        s.wf(),
    ensures
        s.aborted().wf(),
{
    let t = s.aborted();
    assert forall|i: int| 0 <= i < t.nodes.len() implies #[trigger] t.node_ok(i) by {
        assert(s.node_ok(i));
    }
}

/// A node cannot be closed before its children: while a child of it is
/// open, closing it fails with a state-ordering error and changes nothing.
pub proof fn close_before_children_fails(s: EditorView, node: int, child: int)
    requires
        s.wf(),
        s.is_open_child(node, child),
    ensures
        s.usable(node) == Err::<(), EditError>(EditError::StateOrdering),
        s.spec_close(node) == (s, Err::<(), EditError>(EditError::StateOrdering)),
        forall|checksum: Option<Seq<char>>|
            #[trigger] s.spec_close_file(node, checksum) == (
                s,
                Err::<(), EditError>(EditError::StateOrdering),
            ),
{
    let c = s.nodes[child];
    let n = s.nodes[node];
    assert(s.node_ok(child));
    assert(s.node_ok(node));
    assert(s.frame_ok(c.depth as int));
    assert(s.frame_ok(n.depth as int));
    let top = s.open.len() - 1;
    assert(s.frame_ok(top));
}

/// A node with an open child takes no operation at all.
pub proof fn parent_waits_for_child(s: EditorView, node: int)
    requires
        s.wf(),
        s.has_open_child(node),
    ensures
        s.usable(node) == Err::<(), EditError>(EditError::StateOrdering),
{
    let child = choose|c: int| #[trigger] s.is_open_child(node, c);
    close_before_children_fails(s, node, child);
}

/// The node that takes operations has no open child, so closing it is in
/// order.
pub proof fn usable_node_has_no_open_child(s: EditorView, node: int)
    requires
        s.wf(),
        s.usable(node) is Ok,
    ensures
        !s.has_open_child(node),
{
    if s.has_open_child(node) {
        parent_waits_for_child(s, node);
    }
}

/// After an abort no node is open, at whatever depth the exchange stood,
/// and the exchange takes no further operation.
pub proof fn abort_invalidates_open_nodes(s: EditorView)
    requires
        s.wf(),
        s.phase == Phase::Idle || s.phase == Phase::Active,
    ensures
        s.spec_abort().1 is Ok,
        s.spec_abort().0.phase == Phase::Aborted,
        s.spec_abort().0.open.len() == 0,
        s.spec_abort().0.nodes.len() == s.nodes.len(),
        forall|i: int|
            0 <= i < s.nodes.len() ==> (#[trigger] s.spec_abort().0.nodes[i]).state
                != NodeState::Open,
        forall|i: int|
            0 <= i < s.nodes.len() && s.nodes[i].state == NodeState::Open ==> (
            #[trigger] s.spec_abort().0.nodes[i]).state == NodeState::Aborted,
        forall|node: int|
            (#[trigger] s.spec_abort().0.usable(node)) == Err::<(), EditError>(
                EditError::NotActive,
            ),
{
}

/// In an exchange that has ended, well or not, no node is open.
pub proof fn ended_means_nothing_open(s: EditorView)
    requires
        s.wf(),
        s.phase == Phase::Completed || s.phase == Phase::Aborted,
    ensures
        forall|i: int| 0 <= i < s.nodes.len() ==> (#[trigger] s.nodes[i]).state != NodeState::Open,
{
    assert forall|i: int| 0 <= i < s.nodes.len() implies (#[trigger] s.nodes[i]).state
        != NodeState::Open by {
        assert(s.node_ok(i));
    }
}

/// The exchange ends well exactly by the close of the root: a close that
/// succeeds completes the exchange if and only if the node is the root.
pub proof fn closing_root_completes(s: EditorView, node: int)
    requires
        s.wf(),
        s.spec_close(node).1 is Ok,
    ensures
        (s.spec_close(node).0.phase == Phase::Completed) == (node == 0),
        s.spec_close(node).0.phase == Phase::Completed || s.spec_close(node).0.phase
            == Phase::Active,
        s.spec_close(node).0.nodes[node].state == NodeState::Closed,
{
    let top = s.open.len() - 1;
    assert(s.frame_ok(top));
    assert(s.frame_ok(0));
    assert(s.node_ok(node));
    assert(s.node_ok(s.open[0] as int));
    if node != 0 {
        match s.nodes[node].parent {
            None => {},
            Some(p) => {
                assert(s.node_ok(p as int));
            },
        }
    }
}

/// The greatest number of levels below the root at which an exchange of
/// depth `limit` holds nodes, if there is one.
pub open spec fn deepest(limit: Depth) -> Option<int> {
    match limit {
        Depth::Empty => Some(0),
        Depth::Files => Some(1),
        Depth::Immediates => Some(1),
        Depth::Infinity => None,
    }
}

/// The depth of the exchange governs how far it descends: no node lies
/// deeper than the depth allows, and with `Files` every node under the
/// root is a file.
pub proof fn depth_limit_is_kept(s: EditorView, node: int)
    requires
        s.wf(),
        0 <= node < s.nodes.len(),
    ensures
        deepest(s.limit) matches Some(most) ==> s.nodes[node].depth <= most,
        s.limit == Depth::Files && node != 0 ==> s.nodes[node].kind == EntryKind::File,
{
    assert(s.node_ok(node));
    match s.nodes[node].parent {
        None => {},
        Some(p) => {
            assert(s.node_ok(p as int));
        },
    }
}

} // verus!
