//! The session: the one logical connection to a repository. It lets one
//! exchange run at a time, carries it from its report through its edit to
//! its end, and is free again when the exchange has ended, however it ended.

use vstd::prelude::*;
use crate::auth::{CredKind, Credential};
use crate::auth_chain::{
    save_keeps_store_wf,
    spec_save,
    store_wf,
    CredentialStore,
    StoreView,
    StoredCredential,
};
use crate::commit::{
    delivery_steps_keep_wf,
    CommitAction,
    CommitCallback,
    CommitCallbackView,
    CommitError,
    CommitStage,
};
use crate::common::ErrorChain;
use crate::editor::{spec_apply, EditOp, Editor};
use crate::editor_laws::rejected_changes_nothing;
use crate::editor_model::{
    aborted_is_wf,
    idle_is_wf,
    EditError,
    EditorView,
    Origin,
    OriginView,
    Phase,
};
use crate::locks::{
    batch_steps_keep_wf,
    failed_path_does_not_abort,
    opt_lock,
    paths_view,
    BatchError,
    BatchStage,
    BatchView,
    LockBatch,
    LockReport,
    PathOutcome,
};
use crate::reporter::{ReportError, ReportItem, ReportItemView, ReportStage, Reporter, ReporterView};
use crate::types::{opt_text, CommitInfo, Depth, Revnum};

verus! {

/// What an exchange is for.
#[derive(Clone, Copy, Debug, PartialEq, Eq, Structural)]
pub enum ExchangeKind {
    Update,
    Switch,
    Diff,
    Replay,
    ReplayRange,
    Commit,
}

/// Where the session stands.
#[derive(Clone, Copy, Debug, PartialEq, Eq, Structural)]
pub enum SessionStage {
    /// No exchange is in flight: the access guard is free.
    Idle,
    /// The caller reports the state of its tree.
    Reporting,
    /// The tree-delta exchange runs.
    Editing,
    /// The edit of a commit is closed and its result is awaited.
    Committing,
    /// The paths of a lock or unlock request are answered one by one.
    Locking,
}

/// Why a step was turned down, or why the exchange failed.
#[derive(Clone, Copy, Debug, PartialEq, Eq, Structural)]
pub enum SessionError {
    /// An exchange is already in flight.
    Busy,
    /// The step does not fit the stage of the session.
    OutOfTurn,
    /// The range of revisions ends before it starts.
    InvalidRange { start: Revnum, end: Revnum },
    Report(ReportError),
    Edit(EditError),
}

/// What the caller asked of the exchange, for the transport to send.
#[derive(Debug)]
pub struct ExchangeRequest {
    /// The path that the exchange is about; empty for the whole tree.
    pub target: String,
    /// The other place of the repository, for a switch or a diff.
    pub url: Option<String>,
    pub depth: Depth,
    pub send_copyfrom_args: bool,
    pub ignore_ancestry: bool,
    /// Whether the content of files is to be sent.
    pub text_deltas: bool,
    /// The oldest revision that a replay may rest on.
    pub low_water_mark: Revnum,
    pub keep_locks: bool,
    /// The revision properties of a commit: names and values.
    pub revprops: Vec<(String, Vec<u8>)>,
    /// The lock tokens of a commit: paths and tokens.
    pub lock_tokens: Vec<(String, String)>,
}

/// `ExchangeRequest` as plain values.
pub struct RequestView {
    pub target: Seq<char>,
    pub url: Option<Seq<char>>,
    pub depth: Depth,
    pub send_copyfrom_args: bool,
    pub ignore_ancestry: bool,
    pub text_deltas: bool,
    pub low_water_mark: Revnum,
    pub keep_locks: bool,
    pub revprops: Seq<(Seq<char>, Seq<u8>)>,
    pub lock_tokens: Seq<(Seq<char>, Seq<char>)>,
}

pub open spec fn revprops_view(revprops: Seq<(String, Vec<u8>)>) -> Seq<(Seq<char>, Seq<u8>)> {
    Seq::new(revprops.len(), |i: int| (revprops[i].0@, revprops[i].1@))
}

pub open spec fn tokens_view(tokens: Seq<(String, String)>) -> Seq<(Seq<char>, Seq<char>)> {
    Seq::new(tokens.len(), |i: int| (tokens[i].0@, tokens[i].1@))
}

impl RequestView {
    /// A request that asks for the whole tree at unlimited depth and for
    /// nothing else.
    pub open spec fn blank() -> RequestView {
        RequestView {
            target: Seq::empty(),
            url: None,
            depth: Depth::Infinity,
            send_copyfrom_args: false,
            ignore_ancestry: false,
            text_deltas: false,
            low_water_mark: 0,
            keep_locks: false,
            revprops: Seq::empty(),
            lock_tokens: Seq::empty(),
        }
    }
}

impl View for ExchangeRequest {
    type V = RequestView;

    open spec fn view(&self) -> RequestView {
        RequestView {
            target: self.target@,
            url: opt_text(self.url),
            depth: self.depth,
            send_copyfrom_args: self.send_copyfrom_args,
            ignore_ancestry: self.ignore_ancestry,
            text_deltas: self.text_deltas,
            low_water_mark: self.low_water_mark,
            keep_locks: self.keep_locks,
            revprops: revprops_view(self.revprops@),
            lock_tokens: tokens_view(self.lock_tokens@),
        }
    }
}

impl ExchangeRequest {
    pub fn blank() -> (request: ExchangeRequest)
        ensures
            request@ == RequestView::blank(),
    {
        let request = ExchangeRequest {
            target: String::new(),
            url: None,
            depth: Depth::Infinity,
            send_copyfrom_args: false,
            ignore_ancestry: false,
            text_deltas: false,
            low_water_mark: 0,
            keep_locks: false,
            revprops: Vec::new(),
            lock_tokens: Vec::new(),
        };
        assert(request@.revprops =~= Seq::empty());
        assert(request@.lock_tokens =~= Seq::empty());
        request
    }
}

/// The one connection to a repository.
#[derive(Debug)]
pub struct RemoteAccess {
    url: String,
    corrected_url: String,
    stage: SessionStage,
    kind: ExchangeKind,
    request: ExchangeRequest,
    reporter: Reporter,
    editor: Editor,
    has_callback: bool,
    commit: CommitCallback,
    replay_next: Revnum,
    replay_end: Revnum,
    batch: LockBatch,
    credentials: Vec<StoredCredential>,
}

/// A session as plain values.
pub struct SessionView {
    pub stage: SessionStage,
    pub kind: ExchangeKind,
    /// What was asked of the exchange that runs, or of the one that ran
    /// last.
    pub request: RequestView,
    pub reporter: ReporterView,
    pub editor: EditorView,
    /// Whether the caller of the commit gave a callback.
    pub has_callback: bool,
    pub commit: CommitCallbackView,
    /// The revision that a replay of a range stands at, and its last one.
    pub replay_next: Revnum,
    pub replay_end: Revnum,
    /// The lock or unlock request that runs, or the one that ran last.
    pub batch: BatchView,
}

/// An exchange of unlimited depth that has not begun, with its target
/// revision recorded.
pub open spec fn editor_for(target: Revnum) -> EditorView {
    EditorView { target_revision: Some(target), ..EditorView::idle() }
}

/// The revision that the root of the exchange was opened against.
pub open spec fn root_base(editor: EditorView) -> Option<Revnum> {
    if editor.nodes.len() > 0 {
        match editor.nodes[0].origin {
            OriginView::Root { base_revision } => base_revision,
            _ => None,
        }
    } else {
        None
    }
}

impl SessionView {
    /// Whether an exchange is in flight.
    pub open spec fn busy(self) -> bool {
        self.stage != SessionStage::Idle
    }

    /// What holds of every session.
    pub open spec fn wf(self) -> bool {
        &&& self.editor.wf()
        &&& self.commit.wf()
        &&& self.batch.wf()
        &&& self.stage == SessionStage::Reporting ==> self.reporter.stage == ReportStage::Reporting
        &&& self.stage == SessionStage::Reporting ==> self.kind == ExchangeKind::Update
            || self.kind == ExchangeKind::Switch || self.kind == ExchangeKind::Diff
        &&& self.stage == SessionStage::Editing ==> self.editor.phase == Phase::Idle
            || self.editor.phase == Phase::Active
        &&& self.stage == SessionStage::Editing && self.kind == ExchangeKind::ReplayRange
            ==> self.replay_next <= self.replay_end
        &&& self.stage == SessionStage::Committing ==> self.commit.stage == CommitStage::Pending
            || self.commit.stage == CommitStage::Delivering
        &&& self.stage == SessionStage::Locking ==> self.batch.stage == BatchStage::Running
            || self.batch.stage == BatchStage::Delivering
    }

    /// Beginning an update, a switch or a diff: the session must be free.
    /// The report comes first.
    pub open spec fn spec_begin_report(
        self,
        kind: ExchangeKind,
        requested: Option<Revnum>,
        request: RequestView,
    ) -> (SessionView, Result<(), SessionError>) {
        if self.busy() {
            (self, Err(SessionError::Busy))
        } else {
            (
                SessionView {
                    stage: SessionStage::Reporting,
                    kind,
                    request,
                    reporter: ReporterView::fresh(requested, request.depth),
                    ..self
                },
                Ok(()),
            )
        }
    }

    /// Beginning the replay of one revision.
    pub open spec fn spec_replay(self, revision: Revnum, request: RequestView) -> (
        SessionView,
        Result<(), SessionError>,
    ) {
        if self.busy() {
            (self, Err(SessionError::Busy))
        } else {
            (
                SessionView {
                    stage: SessionStage::Editing,
                    kind: ExchangeKind::Replay,
                    request,
                    editor: editor_for(revision),
                    ..self
                },
                Ok(()),
            )
        }
    }

    /// Beginning the replay of the revisions from `start` to `end`.
    pub open spec fn spec_replay_range(self, start: Revnum, end: Revnum, request: RequestView) -> (
        SessionView,
        Result<(), SessionError>,
    ) {
        if self.busy() {
            (self, Err(SessionError::Busy))
        } else if start > end {
            (self, Err(SessionError::InvalidRange { start, end }))
        } else {
            (
                SessionView {
                    stage: SessionStage::Editing,
                    kind: ExchangeKind::ReplayRange,
                    request,
                    editor: editor_for(start),
                    replay_next: start,
                    replay_end: end,
                    ..self
                },
                Ok(()),
            )
        }
    }

    /// Beginning a commit.
    pub open spec fn spec_get_commit_editor(self, has_callback: bool, request: RequestView) -> (
        SessionView,
        Result<(), SessionError>,
    ) {
        if self.busy() {
            (self, Err(SessionError::Busy))
        } else {
            (
                SessionView {
                    stage: SessionStage::Editing,
                    kind: ExchangeKind::Commit,
                    request,
                    editor: EditorView::idle(),
                    has_callback,
                    ..self
                },
                Ok(()),
            )
        }
    }

    /// One statement of the report.
    pub open spec fn spec_state(self, item: ReportItemView) -> (
        SessionView,
        Result<(), SessionError>,
    ) {
        if self.stage != SessionStage::Reporting {
            (self, Err(SessionError::OutOfTurn))
        } else {
            (SessionView { reporter: self.reporter.spec_state(item).0, ..self }, Ok(()))
        }
    }

    /// Committing the report, with `head` the newest revision of the
    /// server. The exchange follows, with its target revision recorded; or
    /// the revision asked for does not exist, and the session is free.
    pub open spec fn spec_finish_report(self, head: Revnum) -> (
        SessionView,
        Result<Revnum, SessionError>,
    ) {
        if self.stage != SessionStage::Reporting {
            (self, Err(SessionError::OutOfTurn))
        } else {
            let reporter = self.reporter.spec_finish(head).0;
            match self.reporter.target(head) {
                Ok(target) => (
                    SessionView {
                        stage: SessionStage::Editing,
                        reporter,
                        editor: self.reporter.exchange(target),
                        ..self
                    },
                    Ok(target),
                ),
                Err(e) => (
                    SessionView { stage: SessionStage::Idle, reporter, ..self },
                    Err(SessionError::Report(e)),
                ),
            }
        }
    }

    /// Cancelling the report: no exchange follows, and the session is free.
    pub open spec fn spec_abort_report(self) -> (SessionView, Result<(), SessionError>) {
        if self.stage != SessionStage::Reporting {
            (self, Err(SessionError::OutOfTurn))
        } else {
            (
                SessionView {
                    stage: SessionStage::Idle,
                    reporter: self.reporter.spec_abort().0,
                    ..self
                },
                Ok(()),
            )
        }
    }

    /// The session after an operation of the exchange was accepted and
    /// left the editor as `editor`. When the editor has ended, the session
    /// is free, but for two cases: a commit awaits its result, and the
    /// replay of a range goes on with the next revision.
    pub open spec fn settled(self, editor: EditorView) -> SessionView {
        if editor.phase == Phase::Completed {
            if self.kind == ExchangeKind::Commit {
                SessionView {
                    stage: SessionStage::Committing,
                    editor,
                    commit: CommitCallbackView::pending(self.has_callback, root_base(editor)),
                    ..self
                }
            } else if self.kind == ExchangeKind::ReplayRange && self.replay_next
                < self.replay_end {
                SessionView {
                    editor: editor_for((self.replay_next + 1) as Revnum),
                    replay_next: (self.replay_next + 1) as Revnum,
                    ..self
                }
            } else {
                SessionView { stage: SessionStage::Idle, editor, ..self }
            }
        } else if editor.phase == Phase::Aborted {
            SessionView { stage: SessionStage::Idle, editor, ..self }
        } else {
            SessionView { editor, ..self }
        }
    }

    /// One operation of the exchange. One that the editor turns down
    /// changes nothing.
    pub open spec fn spec_edit(self, op: EditOp) -> (
        SessionView,
        Result<Option<usize>, SessionError>,
    ) {
        if self.stage != SessionStage::Editing {
            (self, Err(SessionError::OutOfTurn))
        } else {
            match spec_apply(self.editor, op).1 {
                Err(e) => (self, Err(SessionError::Edit(e))),
                Ok(opened) => (self.settled(spec_apply(self.editor, op).0), Ok(opened)),
            }
        }
    }

    /// The session after the exchange was given up, at whatever stage: the
    /// report is cancelled, every open node is invalidated, a commit that
    /// is not final is rejected, and the session is free.
    pub open spec fn spec_abort(self) -> SessionView {
        SessionView {
            stage: SessionStage::Idle,
            reporter: if self.stage == SessionStage::Reporting {
                self.reporter.spec_abort().0
            } else {
                self.reporter
            },
            editor: if self.stage == SessionStage::Editing {
                self.editor.aborted()
            } else {
                self.editor
            },
            commit: if self.stage == SessionStage::Committing {
                self.commit.spec_rejected()
            } else {
                self.commit
            },
            ..self
        }
    }

    /// Beginning a lock or unlock request over the given paths. A request
    /// over no path is done at once.
    pub open spec fn spec_lock(self, paths: Seq<Seq<char>>, forced: bool) -> (
        SessionView,
        Result<(), SessionError>,
    ) {
        if self.busy() {
            (self, Err(SessionError::Busy))
        } else {
            (
                SessionView {
                    stage: if paths.len() == 0 {
                        SessionStage::Idle
                    } else {
                        SessionStage::Locking
                    },
                    batch: BatchView::fresh(paths, forced),
                    ..self
                },
                Ok(()),
            )
        }
    }

    /// The session after the answer for a path came.
    pub open spec fn spec_lock_result(self, path: Seq<char>, failed: bool) -> SessionView {
        if self.stage != SessionStage::Locking {
            self
        } else {
            SessionView { batch: self.batch.spec_path_result(path, failed), ..self }
        }
    }

    /// The session after the callback returned for a path: it is free when
    /// that was the last path, or when the callback failed.
    pub open spec fn spec_lock_callback_returned(self, failed: bool) -> SessionView {
        if self.stage != SessionStage::Locking {
            self
        } else {
            let batch = self.batch.spec_callback_returned(failed);
            SessionView {
                stage: if batch.stage == BatchStage::Running || batch.stage
                    == BatchStage::Delivering {
                    SessionStage::Locking
                } else {
                    SessionStage::Idle
                },
                batch,
                ..self
            }
        }
    }

    /// The session after the commit became final with a result of this
    /// revision.
    pub open spec fn spec_commit_finalized(self, committed: Revnum) -> SessionView {
        if self.stage != SessionStage::Committing {
            self
        } else {
            let commit = self.commit.spec_finalized(committed);
            SessionView {
                stage: if commit.stage == CommitStage::Delivering {
                    SessionStage::Committing
                } else {
                    SessionStage::Idle
                },
                commit,
                ..self
            }
        }
    }

    /// The session after the callback of the commit returned.
    pub open spec fn spec_commit_callback_returned(self, failed: bool) -> SessionView {
        if self.stage != SessionStage::Committing {
            self
        } else {
            let commit = self.commit.spec_callback_returned(failed);
            SessionView {
                stage: if commit.stage == CommitStage::Pending {
                    SessionStage::Committing
                } else {
                    SessionStage::Idle
                },
                commit,
                ..self
            }
        }
    }
}

impl View for RemoteAccess {
    type V = SessionView;

    closed spec fn view(&self) -> SessionView {
        SessionView {
            stage: self.stage,
            kind: self.kind,
            request: self.request@,
            reporter: self.reporter@,
            editor: self.editor@,
            has_callback: self.has_callback,
            commit: self.commit@,
            replay_next: self.replay_next,
            replay_end: self.replay_end,
            batch: self.batch@,
        }
    }
}

pub open spec fn stored_view(credentials: Seq<StoredCredential>) -> StoreView {
    Seq::new(credentials.len(), |i: int| credentials[i]@)
}

/// The store after the first `n` of the credentials were offered to it for
/// keeping, in their order.
pub open spec fn kept(store: StoreView, credentials: StoreView, n: nat) -> StoreView
    decreases n,
{
    if n == 0 {
        store
    } else {
        spec_save(
            kept(store, credentials, (n - 1) as nat),
            credentials[n - 1].0,
            credentials[n - 1].1,
            credentials[n - 1].2,
        )
    }
}

pub open spec fn first_of_each<T>(pairs: Seq<(String, T)>) -> Seq<Seq<char>> {
    Seq::new(pairs.len(), |i: int| pairs[i].0@)
}

/// The paths of a request, copied out of its pairs.
fn paths_of<T>(pairs: &Vec<(String, T)>) -> (paths: Vec<String>)
    ensures
        paths_view(paths@) == first_of_each(pairs@),
{
    let mut paths: Vec<String> = Vec::new();
    let mut i: usize = 0;
    while i < pairs.len()
        invariant
            i <= pairs.len(),
            paths@.len() == i,
            forall|j: int| 0 <= j < i ==> paths@[j]@ == pairs@[j].0@,
        decreases pairs.len() - i,
    {
        paths.push(pairs[i].0.clone());
        i += 1;
    }
    assert(paths_view(paths@) =~= first_of_each(pairs@));
    paths
}

fn owned(text: Option<&str>) -> (copy: Option<String>)
    ensures
        opt_text(copy) == (match text {
            Some(t) => Some(t@),
            None => None,
        }),
{
    match text {
        Some(t) => Some(t.to_owned()),
        None => None,
    }
}

impl RemoteAccess {
    pub open spec fn wf(&self) -> bool {
        self@.wf()
    }

    /// The address that the session was opened with.
    pub closed spec fn spec_url(&self) -> Seq<char> {
        self.url@
    }

    /// The address that the server sent the session on to; the address
    /// that it was opened with where the server sent it nowhere.
    pub closed spec fn spec_corrected_url(&self) -> Seq<char> {
        self.corrected_url@
    }

    /// The credentials that the session holds, in the order in which it
    /// got them.
    pub closed spec fn held(&self) -> StoreView {
        stored_view(self.credentials@)
    }

    /// What no step of an exchange changes: the addresses of the session
    /// and the credentials that it holds.
    pub open spec fn same_connection(&self, other: &RemoteAccess) -> bool {
        &&& self.spec_url() == other.spec_url()
        &&& self.spec_corrected_url() == other.spec_corrected_url()
        &&& self.held() == other.held()
    }

    /// Opens a session on `url`. `corrected_url` is the address that the
    /// server sent the session on to, if it did.
    pub fn open(url: &str, corrected_url: Option<&str>) -> (session: RemoteAccess)
        ensures
            session.wf(),
            !session@.busy(),
            session@.request == RequestView::blank(),
            session@.editor == EditorView::idle(),
            session@.commit == CommitCallbackView::pending(false, None),
            session.spec_url() == url@,
            session.spec_corrected_url() == (match corrected_url {
                Some(c) => c@,
                None => url@,
            }),
            session.held().len() == 0,
    {
        let corrected: String = match corrected_url {
            Some(c) => c.to_owned(),
            None => url.to_owned(),
        };
        RemoteAccess {
            url: url.to_owned(),
            corrected_url: corrected,
            stage: SessionStage::Idle,
            kind: ExchangeKind::Update,
            request: ExchangeRequest::blank(),
            reporter: Reporter::new(None, Depth::Infinity),
            editor: Editor::new(),
            has_callback: false,
            commit: CommitCallback::new(false, None),
            replay_next: 0,
            replay_end: 0,
            batch: LockBatch::new(Vec::new(), false),
            credentials: Vec::new(),
        }
    }

    /// Whether an exchange is in flight. While one is, no second one can
    /// be begun.
    pub fn busy(&self) -> (busy: bool)
        ensures
            busy == self@.busy(),
    {
        self.stage != SessionStage::Idle
    }

    pub fn stage(&self) -> (stage: SessionStage)
        ensures
            stage == self@.stage,
    {
        self.stage
    }

    pub fn corrected_url(&self) -> (url: &str)
        ensures
            url@ == self.spec_corrected_url(),
    {
        self.corrected_url.as_str()
    }

    pub fn get_session_url(&self) -> (url: &str)
        ensures
            url@ == self.spec_url(),
    {
        self.url.as_str()
    }

    /// What was asked of the exchange, for the transport to send.
    pub fn request(&self) -> (request: &ExchangeRequest)
        ensures
            request@ == self@.request,
    {
        &self.request
    }

    /// The editor of the exchange, to look at.
    pub fn editor(&self) -> (editor: &Editor)
        ensures
            editor@ == self@.editor,
    {
        &self.editor
    }

    /// The report of the exchange, to look at.
    pub fn reporter(&self) -> (reporter: &Reporter)
        ensures
            reporter@ == self@.reporter,
    {
        &self.reporter
    }

    /// The delivery of the commit result, to look at.
    pub fn commit(&self) -> (commit: &CommitCallback)
        ensures
            commit@ == self@.commit,
    {
        &self.commit
    }

    /// The lock or unlock request, to look at.
    pub fn batch(&self) -> (batch: &LockBatch)
        ensures
            batch@ == self@.batch,
    {
        &self.batch
    }

    /// The revision at which the replay of a range stands.
    pub fn replay_revision(&self) -> (revision: Revnum)
        ensures
            revision == self@.replay_next,
    {
        self.replay_next
    }

    /// Asks for the session for one round trip that is no exchange. It is
    /// turned down while an exchange is in flight.
    pub fn check_free(&self) -> (verdict: Result<(), SessionError>)
        ensures
            verdict == (if self@.busy() {
                Err::<(), SessionError>(SessionError::Busy)
            } else {
                Ok::<(), SessionError>(())
            }),
    {
        if self.stage != SessionStage::Idle {
            Err(SessionError::Busy)
        } else {
            Ok(())
        }
    }

    fn begin_report(&mut self, kind: ExchangeKind, requested: Option<Revnum>, request: ExchangeRequest) -> (outcome:
        Result<(), SessionError>)
        requires
            old(self).wf(),
            kind == ExchangeKind::Update || kind == ExchangeKind::Switch || kind
                == ExchangeKind::Diff,
        ensures
            final(self).wf(),
            (final(self)@, outcome) == old(self)@.spec_begin_report(kind, requested, request@),
            final(self).same_connection(old(self)),
    {
        if self.stage != SessionStage::Idle {
            return Err(SessionError::Busy);
        }
        self.stage = SessionStage::Reporting;
        self.kind = kind;
        self.reporter = Reporter::new(requested, request.depth);
        self.request = request;
        Ok(())
    }

    /// Begins an update of `update_target` to `revision_to_update_to`, or
    /// to the newest revision where none is named. No depth means
    /// unlimited depth. The report follows.
    pub fn do_update(
        &mut self,
        revision_to_update_to: Option<Revnum>,
        update_target: &str,
        depth: Option<Depth>,
        send_copyfrom_args: bool,
        ignore_ancestry: bool,
    ) -> (outcome: Result<(), SessionError>)
        requires
            old(self).wf(),
        ensures
            final(self).wf(),
            (final(self)@, outcome) == old(self)@.spec_begin_report(
                ExchangeKind::Update,
                revision_to_update_to,
                RequestView {
                    target: update_target@,
                    depth: Depth::spec_or_default(depth),
                    send_copyfrom_args,
                    ignore_ancestry,
                    ..RequestView::blank()
                },
            ),
            final(self).same_connection(old(self)),
    {
        let mut request = ExchangeRequest::blank();
        request.target = update_target.to_owned();
        request.depth = Depth::or_default(depth);
        request.send_copyfrom_args = send_copyfrom_args;
        request.ignore_ancestry = ignore_ancestry;
        self.begin_report(ExchangeKind::Update, revision_to_update_to, request)
    }

    /// Begins a switch of `switch_target` to `switch_url`. The report
    /// follows.
    pub fn do_switch(
        &mut self,
        revision_to_update_to: Option<Revnum>,
        switch_target: &str,
        switch_url: &str,
        depth: Option<Depth>,
        send_copyfrom_args: bool,
        ignore_ancestry: bool,
    ) -> (outcome: Result<(), SessionError>)
        requires
            old(self).wf(),
        ensures
            final(self).wf(),
            (final(self)@, outcome) == old(self)@.spec_begin_report(
                ExchangeKind::Switch,
                revision_to_update_to,
                RequestView {
                    target: switch_target@,
                    url: Some(switch_url@),
                    depth: Depth::spec_or_default(depth),
                    send_copyfrom_args,
                    ignore_ancestry,
                    ..RequestView::blank()
                },
            ),
            final(self).same_connection(old(self)),
    {
        let mut request = ExchangeRequest::blank();
        request.target = switch_target.to_owned();
        request.url = Some(switch_url.to_owned());
        request.depth = Depth::or_default(depth);
        request.send_copyfrom_args = send_copyfrom_args;
        request.ignore_ancestry = ignore_ancestry;
        self.begin_report(ExchangeKind::Switch, revision_to_update_to, request)
    }

    /// Begins a diff of `diff_target` against `versus_url`. The report
    /// follows.
    pub fn do_diff(
        &mut self,
        revision_to_update_to: Option<Revnum>,
        diff_target: &str,
        versus_url: &str,
        depth: Option<Depth>,
        ignore_ancestry: bool,
        text_deltas: bool,
    ) -> (outcome: Result<(), SessionError>)
        requires
            old(self).wf(),
        ensures
            final(self).wf(),
            (final(self)@, outcome) == old(self)@.spec_begin_report(
                ExchangeKind::Diff,
                revision_to_update_to,
                RequestView {
                    target: diff_target@,
                    url: Some(versus_url@),
                    depth: Depth::spec_or_default(depth),
                    ignore_ancestry,
                    text_deltas,
                    ..RequestView::blank()
                },
            ),
            final(self).same_connection(old(self)),
    {
        let mut request = ExchangeRequest::blank();
        request.target = diff_target.to_owned();
        request.url = Some(versus_url.to_owned());
        request.depth = Depth::or_default(depth);
        request.ignore_ancestry = ignore_ancestry;
        request.text_deltas = text_deltas;
        self.begin_report(ExchangeKind::Diff, revision_to_update_to, request)
    }

    /// Begins the replay of one revision. The exchange brings the tree to
    /// that revision.
    pub fn replay(&mut self, revision: Revnum, low_water_mark: Revnum, send_deltas: bool) -> (outcome:
        Result<(), SessionError>)
        requires
            old(self).wf(),
        ensures
            final(self).wf(),
            (final(self)@, outcome) == old(self)@.spec_replay(
                revision,
                RequestView { low_water_mark, text_deltas: send_deltas, ..RequestView::blank() },
            ),
            final(self).same_connection(old(self)),
    {
        if self.stage != SessionStage::Idle {
            return Err(SessionError::Busy);
        }
        let mut request = ExchangeRequest::blank();
        request.low_water_mark = low_water_mark;
        request.text_deltas = send_deltas;
        let mut editor = Editor::new();
        let set = editor.set_target_revision(revision);
        assert(set is Ok);
        self.stage = SessionStage::Editing;
        self.kind = ExchangeKind::Replay;
        self.request = request;
        self.editor = editor;
        Ok(())
    }

    /// Begins the replay of the revisions from `start_rev` to `end_rev`,
    /// one exchange for each, in rising order. The session is held until
    /// the last one has ended.
    pub fn replay_range(
        &mut self,
        start_rev: Revnum,
        end_rev: Revnum,
        low_water_mark: Revnum,
        send_deltas: bool,
    ) -> (outcome: Result<(), SessionError>)
        requires
            old(self).wf(),
        ensures
            final(self).wf(),
            (final(self)@, outcome) == old(self)@.spec_replay_range(
                start_rev,
                end_rev,
                RequestView { low_water_mark, text_deltas: send_deltas, ..RequestView::blank() },
            ),
            final(self).same_connection(old(self)),
    {
        if self.stage != SessionStage::Idle {
            return Err(SessionError::Busy);
        }
        if start_rev > end_rev {
            return Err(SessionError::InvalidRange { start: start_rev, end: end_rev });
        }
        let mut request = ExchangeRequest::blank();
        request.low_water_mark = low_water_mark;
        request.text_deltas = send_deltas;
        let mut editor = Editor::new();
        let set = editor.set_target_revision(start_rev);
        assert(set is Ok);
        self.stage = SessionStage::Editing;
        self.kind = ExchangeKind::ReplayRange;
        self.request = request;
        self.editor = editor;
        self.replay_next = start_rev;
        self.replay_end = end_rev;
        Ok(())
    }

    /// Begins a commit with the given revision properties. The caller
    /// describes the new tree through the editor; when the root is closed
    /// the result of the commit is awaited. `has_callback` says whether the
    /// caller gave a callback for it. No lock tokens means none.
    pub fn get_commit_editor(
        &mut self,
        revprops: Vec<(String, Vec<u8>)>,
        has_callback: bool,
        lock_tokens: Option<Vec<(String, String)>>,
        keep_locks: bool,
    ) -> (outcome: Result<(), SessionError>)
        requires
            old(self).wf(),
        ensures
            final(self).wf(),
            (final(self)@, outcome) == old(self)@.spec_get_commit_editor(
                has_callback,
                RequestView {
                    revprops: revprops_view(revprops@),
                    lock_tokens: match lock_tokens {
                        Some(tokens) => tokens_view(tokens@),
                        None => Seq::empty(),
                    },
                    keep_locks,
                    ..RequestView::blank()
                },
            ),
            final(self).same_connection(old(self)),
    {
        if self.stage != SessionStage::Idle {
            return Err(SessionError::Busy);
        }
        let mut request = ExchangeRequest::blank();
        request.revprops = revprops;
        match lock_tokens {
            Some(tokens) => {
                request.lock_tokens = tokens;
            },
            None => {},
        }
        request.keep_locks = keep_locks;
        self.stage = SessionStage::Editing;
        self.kind = ExchangeKind::Commit;
        self.request = request;
        self.editor = Editor::new();
        self.has_callback = has_callback;
        Ok(())
    }

    /// Makes one statement of the report.
    pub fn report(&mut self, item: ReportItem) -> (outcome: Result<(), SessionError>)
        requires
            old(self).wf(),
        ensures
            final(self).wf(),
            (final(self)@, outcome) == old(self)@.spec_state(item@),
            final(self).same_connection(old(self)),
    {
        if self.stage != SessionStage::Reporting {
            return Err(SessionError::OutOfTurn);
        }
        let stated = self.reporter.state(item);
        assert(stated is Ok);
        Ok(())
    }

    /// Commits the report, with `head` the newest revision of the server,
    /// and gives the target revision of the exchange that follows.
    pub fn finish_report(&mut self, head: Revnum) -> (outcome: Result<Revnum, SessionError>)
        requires
            old(self).wf(),
        ensures
            final(self).wf(),
            (final(self)@, outcome) == old(self)@.spec_finish_report(head),
            final(self).same_connection(old(self)),
    {
        if self.stage != SessionStage::Reporting {
            return Err(SessionError::OutOfTurn);
        }
        match self.reporter.finish_report(head) {
            Ok(editor) => {
                let target: Option<Revnum> = editor.target_revision();
                self.editor = editor;
                self.stage = SessionStage::Editing;
                match target {
                    Some(t) => Ok(t),
                    None => Ok(head),
                }
            },
            Err(e) => {
                self.stage = SessionStage::Idle;
                Err(SessionError::Report(e))
            },
        }
    }

    /// Cancels the report.
    pub fn abort_report(&mut self) -> (outcome: Result<(), SessionError>)
        requires
            old(self).wf(),
        ensures
            final(self).wf(),
            (final(self)@, outcome) == old(self)@.spec_abort_report(),
            final(self).same_connection(old(self)),
    {
        if self.stage != SessionStage::Reporting {
            return Err(SessionError::OutOfTurn);
        }
        let aborted = self.reporter.abort_report();
        assert(aborted is Ok);
        self.stage = SessionStage::Idle;
        Ok(())
    }

    /// The revision that the root of the exchange was opened against.
    fn root_base_revision(&self) -> (base: Option<Revnum>)
        ensures
            base == root_base(self@.editor),
    {
        match self.editor.node(0) {
            Some(root) => match &root.origin {
                Origin::Root { base_revision } => *base_revision,
                _ => None,
            },
            None => None,
        }
    }

    /// Makes one operation of the exchange.
    pub fn edit(&mut self, op: EditOp) -> (outcome: Result<Option<usize>, SessionError>)
        requires
            old(self).wf(),
        ensures
            final(self).wf(),
            (final(self)@, outcome) == old(self)@.spec_edit(op),
            final(self).same_connection(old(self)),
    {
        if self.stage != SessionStage::Editing {
            return Err(SessionError::OutOfTurn);
        }
        proof {
            rejected_changes_nothing(self@.editor, op);
        }
        match self.editor.apply(op) {
            Err(e) => Err(SessionError::Edit(e)),
            Ok(opened) => {
                let phase = self.editor.phase();
                if phase == Phase::Completed {
                    if self.kind == ExchangeKind::Commit {
                        let base = self.root_base_revision();
                        self.commit = CommitCallback::new(self.has_callback, base);
                        self.stage = SessionStage::Committing;
                    } else if self.kind == ExchangeKind::ReplayRange && self.replay_next
                        < self.replay_end {
                        let next: Revnum = self.replay_next + 1;
                        let mut editor = Editor::new();
                        let set = editor.set_target_revision(next);
                        assert(set is Ok);
                        self.editor = editor;
                        self.replay_next = next;
                    } else {
                        self.stage = SessionStage::Idle;
                    }
                } else if phase == Phase::Aborted {
                    self.stage = SessionStage::Idle;
                }
                Ok(opened)
            },
        }
    }

    /// Gives the exchange up, at whatever stage and depth it stands. The
    /// session is free afterwards. Says whether an exchange was in flight.
    pub fn abort(&mut self) -> (was_busy: bool)
        requires
            old(self).wf(),
        ensures
            final(self).wf(),
            final(self)@ == old(self)@.spec_abort(),
            was_busy == old(self)@.busy(),
            final(self).same_connection(old(self)),
    {
        let was_busy: bool = self.stage != SessionStage::Idle;
        match self.stage {
            SessionStage::Reporting => {
                let aborted = self.reporter.abort_report();
            },
            SessionStage::Editing => {
                let aborted = self.editor.abort();
                assert(aborted is Ok);
            },
            SessionStage::Committing => {
                self.commit.abandon();
            },
            SessionStage::Locking => {},
            SessionStage::Idle => {},
        }
        self.stage = SessionStage::Idle;
        was_busy
    }

    /// The exchange failed outside the engine: in the transport, at the
    /// server, or in a callback of the consumer. The exchange is given up
    /// as by `abort`, and the error goes back to the caller of the
    /// operation.
    pub fn fail(&mut self, error: ErrorChain) -> (returned: ErrorChain)
        requires
            old(self).wf(),
        ensures
            final(self).wf(),
            final(self)@ == old(self)@.spec_abort(),
            returned == error,
            final(self).same_connection(old(self)),
    {
        let was_busy = self.abort();
        error
    }

    /// The commit became final with this result. The callback is to be
    /// invoked with it, if the caller gave one.
    pub fn commit_finalized(&mut self, info: CommitInfo) -> (action: Result<
        CommitAction,
        CommitError,
    >)
        requires
            old(self).wf(),
        ensures
            final(self).wf(),
            final(self)@ == old(self)@.spec_commit_finalized(info.revision),
            final(self).same_connection(old(self)),
            match action {
                Ok(CommitAction::Invoke(handed)) => old(self)@.stage == SessionStage::Committing
                    && final(self)@.commit.stage == CommitStage::Delivering && handed == info,
                Ok(CommitAction::Done) => old(self)@.stage == SessionStage::Committing
                    && final(self)@.commit.stage == CommitStage::Succeeded,
                Err(CommitError::OutOfTurn) => old(self)@.stage != SessionStage::Committing
                    || old(self)@.commit.stage != CommitStage::Pending,
                Err(CommitError::StaleRevision { base, committed }) => old(self)@.stage
                    == SessionStage::Committing && old(self)@.commit.base_revision == Some(base)
                    && committed == info.revision && committed <= base,
                Err(CommitError::Callback(_)) => false,
            },
    {
        if self.stage != SessionStage::Committing {
            return Err(CommitError::OutOfTurn);
        }
        let action = self.commit.finalized(info);
        if self.commit.stage() != CommitStage::Delivering {
            self.stage = SessionStage::Idle;
        }
        action
    }

    /// The callback of the commit returned. Its failure fails the commit.
    /// The session is free afterwards.
    pub fn commit_callback_returned(&mut self, result: Result<(), ErrorChain>) -> (outcome: Result<
        (),
        CommitError,
    >)
        requires
            old(self).wf(),
        ensures
            final(self).wf(),
            final(self)@ == old(self)@.spec_commit_callback_returned(result is Err),
            final(self).same_connection(old(self)),
            match outcome {
                Ok(_) => old(self)@.stage == SessionStage::Committing && old(self)@.commit.stage
                    == CommitStage::Delivering && result is Ok,
                Err(CommitError::Callback(e)) => old(self)@.stage == SessionStage::Committing
                    && old(self)@.commit.stage == CommitStage::Delivering && result == Err::<
                    (),
                    ErrorChain,
                >(e),
                Err(CommitError::OutOfTurn) => old(self)@.stage != SessionStage::Committing
                    || old(self)@.commit.stage != CommitStage::Delivering,
                Err(CommitError::StaleRevision { .. }) => false,
            },
    {
        if self.stage != SessionStage::Committing {
            return Err(CommitError::OutOfTurn);
        }
        let outcome = self.commit.callback_returned(result);
        if self.commit.stage() != CommitStage::Pending {
            self.stage = SessionStage::Idle;
        }
        outcome
    }

    fn begin_batch(&mut self, paths: Vec<String>, forced: bool) -> (outcome: Result<(), SessionError>)
        requires
            old(self).wf(),
        ensures
            final(self).wf(),
            (final(self)@, outcome) == old(self)@.spec_lock(paths_view(paths@), forced),
            final(self).same_connection(old(self)),
    {
        if self.stage != SessionStage::Idle {
            return Err(SessionError::Busy);
        }
        let none: bool = paths.len() == 0;
        self.batch = LockBatch::new(paths, forced);
        if !none {
            self.stage = SessionStage::Locking;
        }
        Ok(())
    }

    /// Begins a lock request over the paths of `path_revs`, each with the
    /// revision that the caller knows of it. `steal_lock` says that locks
    /// of others are to be stolen. Each path is answered on its own.
    pub fn lock(&mut self, path_revs: &Vec<(String, Revnum)>, steal_lock: bool) -> (outcome: Result<
        (),
        SessionError,
    >)
        requires
            old(self).wf(),
        ensures
            final(self).wf(),
            (final(self)@, outcome) == old(self)@.spec_lock(first_of_each(path_revs@), steal_lock),
            final(self).same_connection(old(self)),
    {
        self.begin_batch(paths_of(path_revs), steal_lock)
    }

    /// Begins an unlock request over the paths of `path_tokens`, each with
    /// the token of its lock. `break_lock` says that locks are to be broken
    /// whatever their token.
    pub fn unlock(&mut self, path_tokens: &Vec<(String, String)>, break_lock: bool) -> (outcome:
        Result<(), SessionError>)
        requires
            old(self).wf(),
        ensures
            final(self).wf(),
            (final(self)@, outcome) == old(self)@.spec_lock(
                first_of_each(path_tokens@),
                break_lock,
            ),
            final(self).same_connection(old(self)),
    {
        self.begin_batch(paths_of(path_tokens), break_lock)
    }

    /// Takes the answer of the server for one path of the request and
    /// gives what the callback is to be handed for it.
    pub fn lock_result(&mut self, outcome: &PathOutcome) -> (report: Result<LockReport, BatchError>)
        requires
            old(self).wf(),
        ensures
            final(self).wf(),
            final(self)@ == old(self)@.spec_lock_result(outcome.path@, outcome.error is Some),
            final(self).same_connection(old(self)),
            match report {
                Ok(r) => old(self)@.stage == SessionStage::Locking && old(self)@.batch.expects(
                    outcome.path@,
                ) && r.path@ == outcome.path@ && r.forced == old(self)@.batch.forced && opt_lock(
                    r.lock,
                ) == opt_lock(outcome.lock) && opt_text(r.error) == (match outcome.error {
                    Some(e) => Some(e.message@),
                    None => None,
                }),
                Err(BatchError::OutOfTurn) => old(self)@.stage != SessionStage::Locking
                    || old(self)@.batch.stage != BatchStage::Running,
                Err(BatchError::UnknownPath) => old(self)@.stage == SessionStage::Locking
                    && old(self)@.batch.stage == BatchStage::Running && !old(self)@.batch.expects(
                    outcome.path@,
                ),
                Err(BatchError::Callback(_)) => false,
            },
    {
        if self.stage != SessionStage::Locking {
            return Err(BatchError::OutOfTurn);
        }
        self.batch.path_result(outcome)
    }

    /// The callback returned for a path. Gives whether paths are left. The
    /// session is free when none is left, and when the callback failed.
    pub fn lock_callback_returned(&mut self, result: Result<(), ErrorChain>) -> (more: Result<
        bool,
        BatchError,
    >)
        requires
            old(self).wf(),
        ensures
            final(self).wf(),
            final(self)@ == old(self)@.spec_lock_callback_returned(result is Err),
            final(self).same_connection(old(self)),
            match more {
                Ok(left) => old(self)@.stage == SessionStage::Locking && old(self)@.batch.stage
                    == BatchStage::Delivering && result is Ok && left == (old(self)@.batch.pending.len() > 0) && left == final(self)@.busy(),
                Err(BatchError::Callback(e)) => old(self)@.stage == SessionStage::Locking
                    && old(self)@.batch.stage == BatchStage::Delivering && result == Err::<
                    (),
                    ErrorChain,
                >(e) && !final(self)@.busy(),
                Err(BatchError::OutOfTurn) => old(self)@.stage != SessionStage::Locking
                    || old(self)@.batch.stage != BatchStage::Delivering,
                Err(BatchError::UnknownPath) => false,
            },
    {
        if self.stage != SessionStage::Locking {
            return Err(BatchError::OutOfTurn);
        }
        let more = self.batch.callback_returned(result);
        let stage = self.batch.stage();
        if stage != BatchStage::Running && stage != BatchStage::Delivering {
            self.stage = SessionStage::Idle;
        }
        more
    }

    /// Takes a credential into the session, which holds it until it is
    /// closed.
    pub fn hold_credential(&mut self, kind: CredKind, realm: &str, credential: Credential)
        requires
            old(self).wf(),
        ensures
            final(self).wf(),
            final(self)@ == old(self)@,
            final(self).spec_url() == old(self).spec_url(),
            final(self).spec_corrected_url() == old(self).spec_corrected_url(),
            final(self).held() == old(self).held().push((kind, realm@, credential@)),
    {
        self.credentials.push(StoredCredential { kind, realm: realm.to_owned(), credential });
        assert(self.held() =~= old(self).held().push((kind, realm@, credential@)));
    }

    /// Closes the session and offers its credentials to the store, which
    /// keeps those that may be kept. Gives the number that were kept.
    pub fn close(self, store: &mut CredentialStore) -> (count: usize)
        requires
            old(store).wf(),
        ensures
            final(store).wf(),
            final(store)@ == kept(old(store)@, self.held(), self.held().len()),
            count == final(store)@.len() - old(store)@.len(),
    {
        let mut count: usize = 0;
        let mut i: usize = 0;
        while i < self.credentials.len()
            invariant
                i <= self.credentials.len(),
                count <= i,
                store.wf(),
                store@ == kept(old(store)@, self.held(), i as nat),
                count == store@.len() - old(store)@.len(),
            decreases self.credentials.len() - i,
        {
            let entry = &self.credentials[i];
            assert(self.held()[i as int] == entry@);
            if store.save(entry.kind, entry.realm.as_str(), &entry.credential) {
                count += 1;
            }
            i += 1;
        }
        count
    }
}

/// Every step keeps a session well formed.
pub proof fn session_steps_keep_wf(
    s: SessionView,
    head: Revnum,
    committed: Revnum,
    path: Seq<char>,
    failed: bool,
)
    requires
        s.wf(),
    ensures
        s.spec_finish_report(head).0.wf(),
        s.spec_abort_report().0.wf(),
        s.spec_abort().wf(),
        s.spec_commit_finalized(committed).wf(),
        s.spec_commit_callback_returned(failed).wf(),
        s.spec_lock_result(path, failed).wf(),
        s.spec_lock_callback_returned(failed).wf(),
{
    aborted_is_wf(s.editor);
    delivery_steps_keep_wf(s.commit, committed, failed);
    batch_steps_keep_wf(s.batch, path, failed);
    idle_is_wf(s.reporter.depth);
}

/// A path of a lock or unlock request that fails does not end the request:
/// while paths are left the session stays with the request; after the last
/// one it is free.
pub proof fn failed_path_keeps_request(s: SessionView, path: Seq<char>)
    requires
        s.wf(),
        s.stage == SessionStage::Locking,
        s.batch.expects(path),
    ensures
        ({
            let t = s.spec_lock_result(path, true).spec_lock_callback_returned(false);
            &&& t.batch.reported == s.batch.reported + 1
            &&& t.batch.stage != BatchStage::Failed
            &&& t.busy() == (s.batch.pending.len() > 1)
        }),
{
    failed_path_does_not_abort(s.batch, path);
}

/// Aborting leaves the session free, at whatever stage the exchange stood
/// and however deep its open nodes were. No node is open afterwards, and
/// a new exchange of any kind can be begun.
pub proof fn abort_frees_session(
    s: SessionView,
    kind: ExchangeKind,
    requested: Option<Revnum>,
    request: RequestView,
    paths: Seq<Seq<char>>,
)
    requires
        s.wf(),
    ensures
        !s.spec_abort().busy(),
        s.spec_abort().wf(),
        s.spec_abort().spec_begin_report(kind, requested, request).1 is Ok,
        s.spec_abort().spec_replay(0, request).1 is Ok,
        s.spec_abort().spec_replay_range(0, 0, request).1 is Ok,
        s.spec_abort().spec_get_commit_editor(true, request).1 is Ok,
        s.spec_abort().spec_lock(paths, false).1 is Ok,
        s.stage == SessionStage::Editing ==> s.spec_abort().editor.phase == Phase::Aborted
            && s.spec_abort().editor.open.len() == 0,
        s.stage == SessionStage::Editing ==> s.spec_edit(EditOp::Abort).1 is Ok && !s.spec_edit(
            EditOp::Abort,
        ).0.busy() && s.spec_edit(EditOp::Abort).0.editor == s.spec_abort().editor,
{
    aborted_is_wf(s.editor);
    delivery_steps_keep_wf(s.commit, 0, false);
}

/// While an exchange is in flight no second exchange begins: every
/// attempt is answered with `Busy` and changes nothing.
pub proof fn one_exchange_at_a_time(
    s: SessionView,
    kind: ExchangeKind,
    requested: Option<Revnum>,
    request: RequestView,
    start: Revnum,
    end: Revnum,
    has_callback: bool,
    paths: Seq<Seq<char>>,
    forced: bool,
)
    requires
        s.busy(),
    ensures
        s.spec_begin_report(kind, requested, request) == (
            s,
            Err::<(), SessionError>(SessionError::Busy),
        ),
        s.spec_replay(start, request) == (s, Err::<(), SessionError>(SessionError::Busy)),
        s.spec_replay_range(start, end, request) == (
            s,
            Err::<(), SessionError>(SessionError::Busy),
        ),
        s.spec_get_commit_editor(has_callback, request) == (
            s,
            Err::<(), SessionError>(SessionError::Busy),
        ),
        s.spec_lock(paths, forced) == (s, Err::<(), SessionError>(SessionError::Busy)),
{
}

/// The session is free again when the exchange has ended: an operation
/// that ends the editor leaves the session idle, but for a commit, which
/// awaits its result, and for a range that has revisions left.
pub proof fn ended_exchange_frees_session(s: SessionView, op: EditOp)
    requires
        s.wf(),
        s.spec_edit(op).1 is Ok,
    ensures
        ({
            let t = s.spec_edit(op).0;
            let e = spec_apply(s.editor, op).0;
            &&& e.phase == Phase::Aborted ==> !t.busy()
            &&& e.phase == Phase::Completed && s.kind != ExchangeKind::Commit && !(s.kind
                == ExchangeKind::ReplayRange && s.replay_next < s.replay_end) ==> !t.busy()
            &&& e.phase == Phase::Completed && s.kind == ExchangeKind::Commit ==> t.stage
                == SessionStage::Committing && t.commit.invocations == 0
            &&& e.phase == Phase::Completed && s.kind == ExchangeKind::ReplayRange
                && s.replay_next < s.replay_end ==> t.stage == SessionStage::Editing
                && t.replay_next == s.replay_next + 1 && t.editor.target_revision == Some(
                t.replay_next,
            )
        }),
{
}

/// The exchange that follows a report has the target revision that the
/// report gave: the revision asked for, or the newest one of the server
/// where none was asked for.
pub proof fn report_sets_target_revision(s: SessionView, head: Revnum)
    requires
        s.wf(),
        s.spec_finish_report(head).1 is Ok,
    ensures
        ({
            let t = s.spec_finish_report(head).0;
            let target = s.spec_finish_report(head).1.unwrap();
            &&& t.stage == SessionStage::Editing
            &&& t.editor.phase == Phase::Idle
            &&& t.editor.target_revision == Some(target)
            &&& t.editor.limit == s.reporter.depth
            &&& target <= head
            &&& s.reporter.requested is None ==> target == head
        }),
{
}

/// Credentials that may not be kept leave no trace in the store when the
/// session is closed: the store is the same as before the session.
pub proof fn unsaveable_credentials_leave_no_trace(store: StoreView, credentials: StoreView, n: nat)
    requires
        n <= credentials.len(),
        forall|i: int| 0 <= i < credentials.len() ==> !(#[trigger] credentials[i]).2.may_save(),
    ensures
        kept(store, credentials, n) == store,
    decreases n,
{
    if n > 0 {
        unsaveable_credentials_leave_no_trace(store, credentials, (n - 1) as nat);
    }
}

/// Whatever the session held, the store holds only credentials that may be
/// kept after the session is closed.
pub proof fn closing_keeps_store_wf(store: StoreView, credentials: StoreView, n: nat)
    requires
        store_wf(store),
        n <= credentials.len(),
    ensures
        store_wf(kept(store, credentials, n)),
    decreases n,
{
    if n > 0 {
        closing_keeps_store_wf(store, credentials, (n - 1) as nat);
        save_keeps_store_wf(
            kept(store, credentials, (n - 1) as nat),
            credentials[n - 1].0,
            credentials[n - 1].1,
            credentials[n - 1].2,
        );
    }
}

} // verus!
