//! The driver of one tree-delta exchange: an arena of nodes and the stack
//! of those that are open. Every operation either does what the model says
//! or is turned down and changes nothing.

use vstd::prelude::*;
use crate::delta::{
    rebuilt,
    reconstruct,
    verify_text_checksum,
    ChecksumMismatch,
    StreamError,
    TextDeltaWindow,
};
use crate::editor_model::{
    aborted_is_wf,
    admits,
    entry_marks,
    node_update_keeps_wf,
    open_root_keeps_wf,
    path_marked,
    set_target_revision_keeps_wf,
    with_child_keeps_wf,
    with_closed_keeps_wf,
    with_entry_keeps_wf,
    EditError,
    EditorView,
    EntryChange,
    EntryKind,
    EntryRecord,
    Node,
    NodeState,
    NodeView,
    Origin,
    Phase,
    PropChange,
    copyfrom_view,
    opt_bytes,
};
use crate::types::{opt_text, Depth, Revnum};

verus! {

/// One tree-delta exchange.
#[derive(Debug)]
pub struct Editor {
    phase: Phase,
    limit: Depth,
    target_revision: Option<Revnum>,
    nodes: Vec<Node>,
    open: Vec<usize>,
}

/// One operation of the protocol, with the node that it is made on.
#[derive(Debug)]
pub enum EditOp {
    SetTargetRevision { target: Revnum },
    OpenRoot { base_revision: Option<Revnum> },
    DeleteEntry { dir: usize, path: String, revision: Option<Revnum> },
    AddDirectory { parent: usize, path: String, copyfrom: Option<(String, Revnum)> },
    OpenDirectory { parent: usize, path: String, base_revision: Option<Revnum> },
    AbsentDirectory { dir: usize, path: String },
    AddFile { parent: usize, path: String, copyfrom: Option<(String, Revnum)> },
    OpenFile { parent: usize, path: String, base_revision: Option<Revnum> },
    AbsentFile { dir: usize, path: String },
    ChangeProp { node: usize, name: String, value: Option<Vec<u8>> },
    ApplyTextDelta { file: usize, base_checksum: Option<String> },
    Window { file: usize, window: TextDeltaWindow },
    Close { node: usize },
    CloseFile { file: usize, text_checksum: Option<String> },
    Abort,
}

/// What an operation gives back when it is accepted: for one that opens a
/// node, the index of the new node.
pub open spec fn opened(outcome: (EditorView, Result<usize, EditError>)) -> (
    EditorView,
    Result<Option<usize>, EditError>,
) {
    (
        outcome.0,
        match outcome.1 {
            Ok(id) => Ok(Some(id)),
            Err(e) => Err(e),
        },
    )
}

/// As `opened`, for an operation that opens no node.
pub open spec fn done(outcome: (EditorView, Result<(), EditError>)) -> (
    EditorView,
    Result<Option<usize>, EditError>,
) {
    (
        outcome.0,
        match outcome.1 {
            Ok(_) => Ok(None),
            Err(e) => Err(e),
        },
    )
}

/// What one operation makes of an exchange, and what it gives back.
pub open spec fn spec_apply(s: EditorView, op: EditOp) -> (
    EditorView,
    Result<Option<usize>, EditError>,
) {
    match op {
        EditOp::SetTargetRevision { target } => done(s.spec_set_target_revision(target)),
        EditOp::OpenRoot { base_revision } => opened(s.spec_open_root(base_revision)),
        EditOp::DeleteEntry { dir, path, revision } => done(
            s.spec_delete_entry(dir as int, path@, revision),
        ),
        EditOp::AddDirectory { parent, path, copyfrom } => opened(
            s.spec_add(parent as int, path@, EntryKind::Directory, copyfrom_view(copyfrom)),
        ),
        EditOp::OpenDirectory { parent, path, base_revision } => opened(
            s.spec_open(parent as int, path@, EntryKind::Directory, base_revision),
        ),
        EditOp::AbsentDirectory { dir, path } => done(
            s.spec_absent(dir as int, path@, EntryKind::Directory),
        ),
        EditOp::AddFile { parent, path, copyfrom } => opened(
            s.spec_add(parent as int, path@, EntryKind::File, copyfrom_view(copyfrom)),
        ),
        EditOp::OpenFile { parent, path, base_revision } => opened(
            s.spec_open(parent as int, path@, EntryKind::File, base_revision),
        ),
        EditOp::AbsentFile { dir, path } => done(s.spec_absent(dir as int, path@, EntryKind::File)),
        EditOp::ChangeProp { node, name, value } => done(
            s.spec_change_prop(node as int, name@, opt_bytes(value)),
        ),
        EditOp::ApplyTextDelta { file, base_checksum } => done(
            s.spec_apply_textdelta(file as int, opt_text(base_checksum)),
        ),
        EditOp::Window { file, window } => done(s.spec_apply_window(file as int, window@)),
        EditOp::Close { node } => done(s.spec_close(node as int)),
        EditOp::CloseFile { file, text_checksum } => done(
            s.spec_close_file(file as int, opt_text(text_checksum)),
        ),
        EditOp::Abort => done(s.spec_abort()),
    }
}

/// Where a sequence of operations stopped: the index of the operation that
/// was turned down, and why.
#[derive(Clone, Copy, Debug, PartialEq, Eq, Structural)]
pub struct EditFailure {
    pub index: usize,
    pub error: EditError,
}

/// What the operations from `from` on make of an exchange when they are
/// made one after the other. The first one that is turned down ends the
/// run and aborts the exchange, if it has not ended already.
pub open spec fn spec_run(s: EditorView, ops: Seq<EditOp>, from: int) -> (
    EditorView,
    Result<(), EditFailure>,
)
    decreases ops.len() - from,
{
    if from >= ops.len() {
        (s, Ok(()))
    } else {
        match spec_apply(s, ops[from]).1 {
            Err(error) => (s.spec_abort().0, Err(EditFailure { index: from as usize, error })),
            Ok(_) => spec_run(spec_apply(s, ops[from]).0, ops, from + 1),
        }
    }
}

pub open spec fn entries_view(entries: Seq<EntryRecord>) -> Seq<(Seq<char>, EntryChange)> {
    Seq::new(entries.len(), |i: int| entries[i]@)
}

/// Whether `path` was deleted (`deleted`) or opened (not `deleted`) among
/// the entries.
fn path_is_marked(entries: &Vec<EntryRecord>, path: &String, deleted: bool) -> (found: bool)
    ensures
        found == path_marked(entries_view(entries@), path@, deleted),
{
    let mut i: usize = 0;
    while i < entries.len()
        invariant
            i <= entries.len(),
            forall|j: int| 0 <= j < i ==> !entry_marks(#[trigger] entries_view(entries@)[j], path@, deleted),
        decreases entries.len() - i,
    {
        let same: bool = entries[i].path == *path;
        let kind: bool = match entries[i].change {
            EntryChange::Deleted { revision } => deleted,
            EntryChange::Opened => !deleted,
            _ => false,
        };
        if same && kind {
            assert(entry_marks(entries_view(entries@)[i as int], path@, deleted));
            return true;
        }
        i += 1;
    }
    false
}

fn owned_copyfrom(copyfrom: Option<(&str, Revnum)>) -> (owned: Option<(String, Revnum)>)
    ensures
        copyfrom_view(owned) == (match copyfrom {
            Some((path, revision)) => Some((path@, revision)),
            None => None,
        }),
{
    match copyfrom {
        Some((path, revision)) => Some((path.to_owned(), revision)),
        None => None,
    }
}

fn owned_text(text: Option<&str>) -> (owned: Option<String>)
    ensures
        opt_text(owned) == (match text {
            Some(t) => Some(t@),
            None => None,
        }),
{
    match text {
        Some(t) => Some(t.to_owned()),
        None => None,
    }
}

impl View for Editor {
    type V = EditorView;

    closed spec fn view(&self) -> EditorView {
        EditorView {
            phase: self.phase,
            limit: self.limit,
            target_revision: self.target_revision,
            nodes: Seq::new(self.nodes@.len(), |i: int| self.nodes@[i]@),
            open: self.open@,
        }
    }
}

impl Editor {
    /// Whether the exchange is well formed. Every exchange that this
    /// module hands out is, and every operation keeps it so.
    pub open spec fn wf(&self) -> bool {
        self@.wf()
    }

    /// An exchange of unlimited depth before its first operation.
    pub fn new() -> (editor: Editor)
        ensures
            editor@ == EditorView::idle(),
            editor.wf(),
    {
        Editor::within(Depth::Infinity)
    }

    /// An exchange before its first operation that descends no further
    /// than `limit` allows.
    pub fn within(limit: Depth) -> (editor: Editor)
        ensures
            editor@ == EditorView::idle_within(limit),
            editor.wf(),
    {
        let editor = Editor {
            phase: Phase::Idle,
            limit,
            target_revision: None,
            nodes: Vec::new(),
            open: Vec::new(),
        };
        assert(editor@.nodes =~= Seq::empty());
        assert(editor@.open =~= Seq::empty());
        editor
    }

    pub fn phase(&self) -> (phase: Phase)
        ensures
            phase == self@.phase,
    {
        self.phase
    }

    /// How far the exchange may descend.
    pub fn depth_limit(&self) -> (limit: Depth)
        ensures
            limit == self@.limit,
    {
        self.limit
    }

    /// Whether the depth of the exchange admits a node of `kind` under the
    /// directory `parent`.
    fn admits_under(&self, parent: usize, kind: EntryKind) -> (admitted: bool)
        requires
            parent < self@.nodes.len(),
        ensures
            admitted == admits(self@.limit, self@.nodes[parent as int].depth as int, kind),
    {
        let at_root: bool = self.nodes[parent].depth == 0;
        match self.limit {
            Depth::Infinity => true,
            Depth::Immediates => at_root,
            Depth::Files => at_root && kind == EntryKind::File,
            Depth::Empty => false,
        }
    }

    /// The revision that the exchange brings the tree to, if it was named.
    pub fn target_revision(&self) -> (revision: Option<Revnum>)
        ensures
            revision == self@.target_revision,
    {
        self.target_revision
    }

    /// The number of nodes that were opened so far.
    pub fn node_count(&self) -> (count: usize)
        ensures
            count == self@.nodes.len(),
    {
        self.nodes.len()
    }

    /// The number of nodes that are open.
    pub fn open_depth(&self) -> (depth: usize)
        ensures
            depth == self@.open.len(),
    {
        self.open.len()
    }

    /// The innermost open node, which is the one that takes operations.
    pub fn current(&self) -> (node: Option<usize>)
        ensures
            node == (if self@.open.len() > 0 {
                Some(self@.open.last())
            } else {
                None
            }),
    {
        if self.open.len() > 0 {
            Some(self.open[self.open.len() - 1])
        } else {
            None
        }
    }

    pub fn node_state(&self, node: usize) -> (state: NodeState)
        ensures
            state == self@.node_state(node as int),
    {
        if node < self.nodes.len() {
            self.nodes[node].state
        } else {
            NodeState::Unopened
        }
    }

    /// The node with this index, if there is one.
    pub fn node(&self, node: usize) -> (found: Option<&Node>)
        ensures
            match found {
                Some(n) => node < self@.nodes.len() && n@ == self@.nodes[node as int],
                None => node >= self@.nodes.len(),
            },
    {
        if node < self.nodes.len() {
            Some(&self.nodes[node])
        } else {
            None
        }
    }

    /// The content that the windows of the file rebuild from `source`, in
    /// the order in which they were received. Gives nothing where the node
    /// is no file.
    pub fn rebuild(&self, file: usize, source: &Vec<u8>) -> (content: Option<
        Result<Vec<u8>, StreamError>,
    >)
        ensures
            match content {
                None => file >= self@.nodes.len() || self@.nodes[file as int].kind
                    != EntryKind::File,
                Some(rebuilding) => file < self@.nodes.len() && self@.nodes[file as int].kind
                    == EntryKind::File && (match rebuilt(
                    source@,
                    self@.nodes[file as int].windows,
                    self@.nodes[file as int].windows.len(),
                ) {
                    Ok(c) => rebuilding is Ok && rebuilding.unwrap()@ == c,
                    Err(e) => rebuilding == Err::<Vec<u8>, StreamError>(e),
                }),
            },
    {
        if file >= self.nodes.len() {
            return None;
        }
        if self.nodes[file].kind != EntryKind::File {
            return None;
        }
        Some(reconstruct(source, &self.nodes[file].windows))
    }

    /// Holds the checksum of the content that was rebuilt for the file
    /// against the one that the file was closed with. Where the file was
    /// closed with none, or is not closed yet, the content passes. Gives
    /// nothing where the node is no file.
    pub fn verify_checksum(&self, file: usize, actual: &str) -> (verdict: Option<
        Result<(), ChecksumMismatch>,
    >)
        ensures
            match verdict {
                None => file >= self@.nodes.len() || self@.nodes[file as int].kind
                    != EntryKind::File,
                Some(held) => file < self@.nodes.len() && self@.nodes[file as int].kind
                    == EntryKind::File && (match self@.nodes[file as int].text_checksum {
                    None => held is Ok,
                    Some(announced) => if announced == actual@ {
                        held is Ok
                    } else {
                        held is Err && held.unwrap_err().expected@ == announced
                            && held.unwrap_err().actual@ == actual@
                    },
                }),
            },
    {
        if file >= self.nodes.len() {
            return None;
        }
        if self.nodes[file].kind != EntryKind::File {
            return None;
        }
        match &self.nodes[file].text_checksum {
            Some(announced) => Some(verify_text_checksum(Some(announced.as_str()), actual)),
            None => Some(verify_text_checksum(None, actual)),
        }
    }

    /// Whether the node takes operations now.
    pub fn check(&self, node: usize) -> (verdict: Result<(), EditError>)
        requires
            self.wf(),
        ensures
            verdict == self@.usable(node as int),
    {
        if self.phase != Phase::Active {
            Err(EditError::NotActive)
        } else if node >= self.nodes.len() {
            Err(EditError::UnknownNode)
        } else if self.nodes[node].state != NodeState::Open {
            Err(EditError::NodeClosed)
        } else if self.open[self.open.len() - 1] != node {
            Err(EditError::StateOrdering)
        } else {
            Ok(())
        }
    }

    /// As `check`, for an operation that is made on one kind of node.
    pub fn check_as(&self, node: usize, kind: EntryKind) -> (verdict: Result<(), EditError>)
        requires
            self.wf(),
        ensures
            verdict == self@.usable_as(node as int, kind),
    {
        match self.check(node) {
            Err(e) => Err(e),
            Ok(_) => if self.nodes[node].kind != kind {
                Err(EditError::WrongKind)
            } else {
                Ok(())
            },
        }
    }

    /// Records the revision that the exchange brings the tree to. It can be
    /// done once, before the root is opened.
    pub fn set_target_revision(&mut self, revision: Revnum) -> (outcome: Result<(), EditError>)
        requires
            old(self).wf(),
        ensures
            final(self).wf(),
            (final(self)@, outcome) == old(self)@.spec_set_target_revision(revision),
    {
        if self.phase == Phase::Completed || self.phase == Phase::Aborted {
            return Err(EditError::NotActive);
        }
        if self.phase == Phase::Active || self.target_revision.is_some() {
            return Err(EditError::StateOrdering);
        }
        self.target_revision = Some(revision);
        proof {
            set_target_revision_keeps_wf(old(self)@, revision);
            assert(self@.nodes =~= old(self)@.nodes);
        }
        Ok(())
    }

    /// Opens the root directory, which begins the exchange. The root has
    /// the index 0.
    pub fn open_root(&mut self, base_revision: Option<Revnum>) -> (outcome: Result<
        usize,
        EditError,
    >)
        requires
            old(self).wf(),
        ensures
            final(self).wf(),
            (final(self)@, outcome) == old(self)@.spec_open_root(base_revision),
    {
        if self.phase == Phase::Completed || self.phase == Phase::Aborted {
            return Err(EditError::NotActive);
        }
        if self.phase == Phase::Active {
            return Err(EditError::StateOrdering);
        }
        let root = Node {
            kind: EntryKind::Directory,
            parent: None,
            depth: 0,
            path: String::new(),
            state: NodeState::Open,
            origin: Origin::Root { base_revision },
            props: Vec::new(),
            entries: Vec::new(),
            delta_opened: false,
            base_checksum: None,
            windows: Vec::new(),
            text_checksum: None,
        };
        proof {
            assert(root@.props =~= Seq::empty());
            assert(root@.entries =~= Seq::empty());
            assert(root@.windows =~= Seq::empty());
        }
        self.phase = Phase::Active;
        self.nodes.push(root);
        self.open.push(0);
        proof {
            open_root_keeps_wf(old(self)@, base_revision);
            assert(self@.nodes =~= old(self)@.spec_open_root(base_revision).0.nodes);
            assert(self@.open =~= old(self)@.spec_open_root(base_revision).0.open);
        }
        Ok(0)
    }

    /// Records an entry in the directory, which is the innermost open node.
    fn record_entry(&mut self, dir: usize, path: String, change: EntryChange)
        requires
            old(self).wf(),
            old(self)@.usable(dir as int) is Ok,
        ensures
            final(self).wf(),
            final(self)@ == old(self)@.with_entry(dir as int, path@, change),
    {
        self.nodes[dir].entries.push(EntryRecord { path, change });
        proof {
            let before = old(self)@.nodes[dir as int];
            assert(self.nodes@[dir as int]@.entries =~= before.entries.push((path@, change)));
            assert(self.nodes@[dir as int]@.props =~= before.props);
            assert(self@.nodes =~= old(self)@.with_entry(dir as int, path@, change).nodes);
            with_entry_keeps_wf(old(self)@, dir as int, path@, change);
        }
    }

    /// Opens a new node under the directory, which is the innermost open
    /// node, and returns its index.
    fn open_child(
        &mut self,
        parent: usize,
        path: String,
        kind: EntryKind,
        origin: Origin,
        change: EntryChange,
    ) -> (id: usize)
        requires
            old(self).wf(),
            old(self)@.usable_as(parent as int, EntryKind::Directory) is Ok,
            admits(old(self)@.limit, old(self)@.nodes[parent as int].depth as int, kind),
        ensures
            final(self).wf(),
            final(self)@ == old(self)@.with_child(parent as int, path@, kind, origin@, change),
            id == old(self)@.nodes.len(),
    {
        let id: usize = self.nodes.len();
        let depth: usize = self.nodes[parent].depth;
        proof {
            assert(old(self)@.node_ok(parent as int));
        }
        let child = Node {
            kind,
            parent: Some(parent),
            depth: depth + 1,
            path: path.clone(),
            state: NodeState::Open,
            origin,
            props: Vec::new(),
            entries: Vec::new(),
            delta_opened: false,
            base_checksum: None,
            windows: Vec::new(),
            text_checksum: None,
        };
        proof {
            assert(child@.props =~= Seq::empty());
            assert(child@.entries =~= Seq::empty());
            assert(child@.windows =~= Seq::empty());
        }
        self.record_entry(parent, path, change);
        self.nodes.push(child);
        self.open.push(id);
        proof {
            let want = old(self)@.with_child(parent as int, path@, kind, origin@, change);
            assert(self.nodes.len() <= usize::MAX);
            assert(self@.nodes =~= want.nodes);
            assert(self@.open =~= want.open);
            with_child_keeps_wf(old(self)@, parent as int, path@, kind, origin@, change);
        }
        id
    }

    /// Adds a directory under `parent` and opens it.
    pub fn add_directory(
        &mut self,
        parent: usize,
        path: &str,
        copyfrom: Option<(&str, Revnum)>,
    ) -> (outcome: Result<usize, EditError>)
        requires
            old(self).wf(),
        ensures
            final(self).wf(),
            (final(self)@, outcome) == old(self)@.spec_add(
                parent as int,
                path@,
                EntryKind::Directory,
                match copyfrom {
                    Some((from, revision)) => Some((from@, revision)),
                    None => None,
                },
            ),
    {
        self.add(parent, path, EntryKind::Directory, copyfrom)
    }

    /// Adds a file under `parent` and opens it.
    pub fn add_file(&mut self, parent: usize, path: &str, copyfrom: Option<(&str, Revnum)>) -> (outcome:
        Result<usize, EditError>)
        requires
            old(self).wf(),
        ensures
            final(self).wf(),
            (final(self)@, outcome) == old(self)@.spec_add(
                parent as int,
                path@,
                EntryKind::File,
                match copyfrom {
                    Some((from, revision)) => Some((from@, revision)),
                    None => None,
                },
            ),
    {
        self.add(parent, path, EntryKind::File, copyfrom)
    }

    fn add(&mut self, parent: usize, path: &str, kind: EntryKind, copyfrom: Option<(&str, Revnum)>) -> (outcome:
        Result<usize, EditError>)
        requires
            old(self).wf(),
        ensures
            final(self).wf(),
            (final(self)@, outcome) == old(self)@.spec_add(
                parent as int,
                path@,
                kind,
                match copyfrom {
                    Some((from, revision)) => Some((from@, revision)),
                    None => None,
                },
            ),
    {
        match self.check_as(parent, EntryKind::Directory) {
            Err(e) => Err(e),
            Ok(_) => {
                if !self.admits_under(parent, kind) {
                    return Err(EditError::DepthExceeded);
                }
                let origin = Origin::Added { copyfrom: owned_copyfrom(copyfrom) };
                Ok(self.open_child(parent, path.to_owned(), kind, origin, EntryChange::Added))
            },
        }
    }

    /// Opens an existing directory under `parent`.
    pub fn open_directory(&mut self, parent: usize, path: &str, base_revision: Option<Revnum>) -> (outcome:
        Result<usize, EditError>)
        requires
            old(self).wf(),
        ensures
            final(self).wf(),
            (final(self)@, outcome) == old(self)@.spec_open(
                parent as int,
                path@,
                EntryKind::Directory,
                base_revision,
            ),
    {
        self.open_existing(parent, path, EntryKind::Directory, base_revision)
    }

    /// Opens an existing file under `parent`.
    pub fn open_file(&mut self, parent: usize, path: &str, base_revision: Option<Revnum>) -> (outcome:
        Result<usize, EditError>)
        requires
            old(self).wf(),
        ensures
            final(self).wf(),
            (final(self)@, outcome) == old(self)@.spec_open(
                parent as int,
                path@,
                EntryKind::File,
                base_revision,
            ),
    {
        self.open_existing(parent, path, EntryKind::File, base_revision)
    }

    fn open_existing(
        &mut self,
        parent: usize,
        path: &str,
        kind: EntryKind,
        base_revision: Option<Revnum>,
    ) -> (outcome: Result<usize, EditError>)
        requires
            old(self).wf(),
        ensures
            final(self).wf(),
            (final(self)@, outcome) == old(self)@.spec_open(parent as int, path@, kind, base_revision),
    {
        match self.check_as(parent, EntryKind::Directory) {
            Err(e) => Err(e),
            Ok(_) => {
                if !self.admits_under(parent, kind) {
                    return Err(EditError::DepthExceeded);
                }
                let path: String = path.to_owned();
                assert(entries_view(self.nodes@[parent as int].entries@)
                    =~= self@.nodes[parent as int].entries);
                if path_is_marked(&self.nodes[parent].entries, &path, true) {
                    Err(EditError::PathConflict)
                } else {
                    let origin = Origin::Opened { base_revision };
                    Ok(self.open_child(parent, path, kind, origin, EntryChange::Opened))
                }
            },
        }
    }

    /// Removes an entry of the directory without opening it.
    pub fn delete_entry(&mut self, dir: usize, path: &str, revision: Option<Revnum>) -> (outcome:
        Result<(), EditError>)
        requires
            old(self).wf(),
        ensures
            final(self).wf(),
            (final(self)@, outcome) == old(self)@.spec_delete_entry(dir as int, path@, revision),
    {
        match self.check_as(dir, EntryKind::Directory) {
            Err(e) => Err(e),
            Ok(_) => {
                let path: String = path.to_owned();
                assert(entries_view(self.nodes@[dir as int].entries@)
                    =~= self@.nodes[dir as int].entries);
                if path_is_marked(&self.nodes[dir].entries, &path, false) {
                    Err(EditError::PathConflict)
                } else {
                    self.record_entry(dir, path, EntryChange::Deleted { revision });
                    Ok(())
                }
            },
        }
    }

    /// Marks a directory under `dir` as one that the client may not see.
    pub fn absent_directory(&mut self, dir: usize, path: &str) -> (outcome: Result<(), EditError>)
        requires
            old(self).wf(),
        ensures
            final(self).wf(),
            (final(self)@, outcome) == old(self)@.spec_absent(
                dir as int,
                path@,
                EntryKind::Directory,
            ),
    {
        match self.check_as(dir, EntryKind::Directory) {
            Err(e) => Err(e),
            Ok(_) => {
                self.record_entry(dir, path.to_owned(), EntryChange::AbsentDirectory);
                Ok(())
            },
        }
    }

    /// Marks a file under `dir` as one that the client may not see.
    pub fn absent_file(&mut self, dir: usize, path: &str) -> (outcome: Result<(), EditError>)
        requires
            old(self).wf(),
        ensures
            final(self).wf(),
            (final(self)@, outcome) == old(self)@.spec_absent(dir as int, path@, EntryKind::File),
    {
        match self.check_as(dir, EntryKind::Directory) {
            Err(e) => Err(e),
            Ok(_) => {
                self.record_entry(dir, path.to_owned(), EntryChange::AbsentFile);
                Ok(())
            },
        }
    }

    /// Records a property change on the node. No value deletes the
    /// property.
    pub fn change_prop(&mut self, node: usize, name: &str, value: Option<Vec<u8>>) -> (outcome:
        Result<(), EditError>)
        requires
            old(self).wf(),
        ensures
            final(self).wf(),
            (final(self)@, outcome) == old(self)@.spec_change_prop(
                node as int,
                name@,
                opt_bytes(value),
            ),
    {
        match self.check(node) {
            Err(e) => Err(e),
            Ok(_) => {
                self.nodes[node].props.push(PropChange { name: name.to_owned(), value });
                proof {
                    let before = old(self)@.nodes[node as int];
                    let after = NodeView {
                        props: before.props.push((name@, opt_bytes(value))),
                        ..before
                    };
                    assert(self.nodes@[node as int]@.props =~= after.props);
                    assert(self.nodes@[node as int]@.entries =~= before.entries);
                    assert(self@.nodes =~= old(self)@.nodes.update(node as int, after));
                    node_update_keeps_wf(old(self)@, node as int, after);
                }
                Ok(())
            },
        }
    }

    /// Announces the content change of the file. The windows follow.
    pub fn apply_textdelta(&mut self, file: usize, base_checksum: Option<&str>) -> (outcome: Result<
        (),
        EditError,
    >)
        requires
            old(self).wf(),
        ensures
            final(self).wf(),
            (final(self)@, outcome) == old(self)@.spec_apply_textdelta(
                file as int,
                match base_checksum {
                    Some(c) => Some(c@),
                    None => None,
                },
            ),
    {
        match self.check_as(file, EntryKind::File) {
            Err(e) => Err(e),
            Ok(_) => {
                if self.nodes[file].delta_opened {
                    return Err(EditError::StateOrdering);
                }
                let checksum: Option<String> = owned_text(base_checksum);
                self.nodes[file].delta_opened = true;
                self.nodes[file].base_checksum = checksum;
                proof {
                    let before = old(self)@.nodes[file as int];
                    let after = NodeView {
                        delta_opened: true,
                        base_checksum: opt_text(checksum),
                        ..before
                    };
                    assert(self.nodes@[file as int]@.props =~= before.props);
                    assert(self.nodes@[file as int]@.entries =~= before.entries);
                    assert(self@.nodes =~= old(self)@.nodes.update(file as int, after));
                    node_update_keeps_wf(old(self)@, file as int, after);
                }
                Ok(())
            },
        }
    }

    /// Takes the next window of the file's content change. The windows are
    /// kept in the order in which they come.
    pub fn apply_window(&mut self, file: usize, window: TextDeltaWindow) -> (outcome: Result<
        (),
        EditError,
    >)
        requires
            old(self).wf(),
        ensures
            final(self).wf(),
            (final(self)@, outcome) == old(self)@.spec_apply_window(file as int, window@),
    {
        match self.check_as(file, EntryKind::File) {
            Err(e) => Err(e),
            Ok(_) => {
                if !self.nodes[file].delta_opened {
                    return Err(EditError::StateOrdering);
                }
                self.nodes[file].windows.push(window);
                proof {
                    let before = old(self)@.nodes[file as int];
                    let after = NodeView { windows: before.windows.push(window@), ..before };
                    assert(self.nodes@[file as int]@.windows =~= after.windows);
                    assert(self.nodes@[file as int]@.props =~= before.props);
                    assert(self.nodes@[file as int]@.entries =~= before.entries);
                    assert(self@.nodes =~= old(self)@.nodes.update(file as int, after));
                    node_update_keeps_wf(old(self)@, file as int, after);
                }
                Ok(())
            },
        }
    }

    /// Closes the innermost open node and takes it off the stack.
    fn close_top(&mut self, node: usize)
        requires
            old(self).wf(),
            old(self)@.usable(node as int) is Ok,
        ensures
            final(self).wf(),
            final(self)@ == old(self)@.with_closed(node as int),
    {
        self.nodes[node].state = NodeState::Closed;
        self.open.pop();
        if self.open.len() == 0 {
            self.phase = Phase::Completed;
        }
        proof {
            let before = old(self)@.nodes[node as int];
            let want = old(self)@.with_closed(node as int);
            assert(self.nodes@[node as int]@.props =~= before.props);
            assert(self.nodes@[node as int]@.entries =~= before.entries);
            assert(self@.nodes =~= want.nodes);
            assert(self@.open =~= want.open);
            with_closed_keeps_wf(old(self)@, node as int);
        }
    }

    /// Closes the node. It must be the innermost open node: a node whose
    /// child is still open is not closed. Closing the root ends the
    /// exchange.
    pub fn close(&mut self, node: usize) -> (outcome: Result<(), EditError>)
        requires
            old(self).wf(),
        ensures
            final(self).wf(),
            (final(self)@, outcome) == old(self)@.spec_close(node as int),
    {
        match self.check(node) {
            Err(e) => Err(e),
            Ok(_) => {
                self.close_top(node);
                Ok(())
            },
        }
    }

    /// Closes the file and records the checksum of its full content, by
    /// which the receiver holds what it rebuilt against what was meant.
    pub fn close_file(&mut self, file: usize, text_checksum: Option<&str>) -> (outcome: Result<
        (),
        EditError,
    >)
        requires
            old(self).wf(),
        ensures
            final(self).wf(),
            (final(self)@, outcome) == old(self)@.spec_close_file(
                file as int,
                match text_checksum {
                    Some(c) => Some(c@),
                    None => None,
                },
            ),
    {
        match self.check_as(file, EntryKind::File) {
            Err(e) => Err(e),
            Ok(_) => {
                let checksum: Option<String> = owned_text(text_checksum);
                self.close_top(file);
                let ghost closed = self@;
                assert(closed.nodes.len() == old(self)@.nodes.len());
                self.nodes[file].text_checksum = checksum;
                proof {
                    let before = closed.nodes[file as int];
                    let after = NodeView { text_checksum: opt_text(checksum), ..before };
                    assert(self.nodes@[file as int]@.props =~= before.props);
                    assert(self.nodes@[file as int]@.entries =~= before.entries);
                    assert(self@.nodes =~= closed.nodes.update(file as int, after));
                    node_update_keeps_wf(closed, file as int, after);
                }
                Ok(())
            },
        }
    }

    /// Aborts the exchange: it ends at once, and every node that was open
    /// is invalidated.
    pub fn abort(&mut self) -> (outcome: Result<(), EditError>)
        requires
            old(self).wf(),
        ensures
            final(self).wf(),
            (final(self)@, outcome) == old(self)@.spec_abort(),
    {
        if self.phase == Phase::Completed || self.phase == Phase::Aborted {
            return Err(EditError::NotActive);
        }
        let ghost before = self@;
        let mut i: usize = 0;
        while i < self.nodes.len()
            invariant
                i <= self.nodes.len(),
                self.nodes.len() == before.nodes.len(),
                self.phase == before.phase,
                self.limit == before.limit,
                self.target_revision == before.target_revision,
                forall|j: int| 0 <= j < i ==> (#[trigger] self.nodes@[j])@ == before.nodes[j].after_abort(),
                forall|j: int|
                    i <= j < self.nodes.len() ==> (#[trigger] self.nodes@[j])@ == before.nodes[j],
            decreases self.nodes.len() - i,
        {
            if self.nodes[i].state == NodeState::Open {
                let ghost nodes_before = self.nodes@;
                self.nodes[i].state = NodeState::Aborted;
                proof {
                    assert(self.nodes@[i as int]@.props =~= nodes_before[i as int]@.props);
                    assert(self.nodes@[i as int]@.entries =~= nodes_before[i as int]@.entries);
                    assert forall|j: int| 0 <= j < self.nodes.len() && j != i implies self.nodes@[j]
                        == nodes_before[j] by {}
                }
            }
            i += 1;
        }
        self.open = Vec::new();
        self.phase = Phase::Aborted;
        proof {
            assert(self@.nodes =~= before.aborted().nodes);
            assert(self@.open =~= before.aborted().open);
            aborted_is_wf(before);
        }
        Ok(())
    }

    /// Makes the operations one after the other. The first one that is
    /// turned down ends the run: the exchange is aborted, which
    /// invalidates every open node, and the failure says which operation
    /// it was.
    pub fn run(&mut self, ops: Vec<EditOp>) -> (outcome: Result<(), EditFailure>)
        requires
            old(self).wf(),
        ensures
            final(self).wf(),
            (final(self)@, outcome) == spec_run(old(self)@, ops@, 0),
    {
        let ghost all = ops@;
        let count: usize = ops.len();
        let mut index: usize = 0;
        for op in it: ops.into_iter()
            invariant
                self.wf(),
                index == it.index(),
                it.seq() == all,
                all.len() == count,
                spec_run(self@, all, index as int) == spec_run(old(self)@, all, 0),
        {
            let ghost before = self@;
            match self.apply(op) {
                Ok(_) => {},
                Err(error) => {
                    proof {
                        assert(self@ == before) by {
                            crate::editor_laws::rejected_changes_nothing(before, op);
                        }
                    }
                    let aborted = self.abort();
                    return Err(EditFailure { index, error });
                },
            }
            index += 1;
        }
        Ok(())
    }

    /// Makes one operation of the protocol. An operation that opens a node
    /// gives back the index of the new node.
    pub fn apply(&mut self, op: EditOp) -> (outcome: Result<Option<usize>, EditError>)
        requires
            old(self).wf(),
        ensures
            final(self).wf(),
            (final(self)@, outcome) == spec_apply(old(self)@, op),
    {
        match op {
            EditOp::SetTargetRevision { target } => match self.set_target_revision(target) {
                Ok(_) => Ok(None),
                Err(e) => Err(e),
            },
            EditOp::OpenRoot { base_revision } => match self.open_root(base_revision) {
                Ok(id) => Ok(Some(id)),
                Err(e) => Err(e),
            },
            EditOp::DeleteEntry { dir, path, revision } => match self.delete_entry(
                dir,
                path.as_str(),
                revision,
            ) {
                Ok(_) => Ok(None),
                Err(e) => Err(e),
            },
            EditOp::AddDirectory { parent, path, copyfrom } => {
                let from = match &copyfrom {
                    Some((p, r)) => Some((p.as_str(), *r)),
                    None => None,
                };
                match self.add_directory(parent, path.as_str(), from) {
                    Ok(id) => Ok(Some(id)),
                    Err(e) => Err(e),
                }
            },
            EditOp::OpenDirectory { parent, path, base_revision } => match self.open_directory(
                parent,
                path.as_str(),
                base_revision,
            ) {
                Ok(id) => Ok(Some(id)),
                Err(e) => Err(e),
            },
            EditOp::AbsentDirectory { dir, path } => match self.absent_directory(
                dir,
                path.as_str(),
            ) {
                Ok(_) => Ok(None),
                Err(e) => Err(e),
            },
            EditOp::AddFile { parent, path, copyfrom } => {
                let from = match &copyfrom {
                    Some((p, r)) => Some((p.as_str(), *r)),
                    None => None,
                };
                match self.add_file(parent, path.as_str(), from) {
                    Ok(id) => Ok(Some(id)),
                    Err(e) => Err(e),
                }
            },
            EditOp::OpenFile { parent, path, base_revision } => match self.open_file(
                parent,
                path.as_str(),
                base_revision,
            ) {
                Ok(id) => Ok(Some(id)),
                Err(e) => Err(e),
            },
            EditOp::AbsentFile { dir, path } => match self.absent_file(dir, path.as_str()) {
                Ok(_) => Ok(None),
                Err(e) => Err(e),
            },
            EditOp::ChangeProp { node, name, value } => match self.change_prop(
                node,
                name.as_str(),
                value,
            ) {
                Ok(_) => Ok(None),
                Err(e) => Err(e),
            },
            EditOp::ApplyTextDelta { file, base_checksum } => {
                let checksum = match &base_checksum {
                    Some(c) => Some(c.as_str()),
                    None => None,
                };
                match self.apply_textdelta(file, checksum) {
                    Ok(_) => Ok(None),
                    Err(e) => Err(e),
                }
            },
            EditOp::Window { file, window } => match self.apply_window(file, window) {
                Ok(_) => Ok(None),
                Err(e) => Err(e),
            },
            EditOp::Close { node } => match self.close(node) {
                Ok(_) => Ok(None),
                Err(e) => Err(e),
            },
            EditOp::CloseFile { file, text_checksum } => {
                let checksum = match &text_checksum {
                    Some(c) => Some(c.as_str()),
                    None => None,
                };
                match self.close_file(file, checksum) {
                    Ok(_) => Ok(None),
                    Err(e) => Err(e),
                }
            },
            EditOp::Abort => match self.abort() {
                Ok(_) => Ok(None),
                Err(e) => Err(e),
            },
        }
    }
}

} // verus!
