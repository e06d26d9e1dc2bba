//! The reporter: the half of an update or switch in which the caller says
//! what its tree holds now, before the server computes the changes.

use vstd::prelude::*;
use crate::editor::Editor;
use crate::editor_model::EditorView;
use crate::types::{opt_text, Depth, Revnum};

verus! {

/// Where a report stands.
#[derive(Clone, Copy, Debug, PartialEq, Eq, Structural)]
pub enum ReportStage {
    Reporting,
    /// The report was committed.
    Finished,
    /// The report was cancelled.
    Aborted,
}

/// Why a step of the report was turned down, or why the report failed.
#[derive(Clone, Copy, Debug, PartialEq, Eq, Structural)]
pub enum ReportError {
    /// The report was already finished or aborted.
    Closed,
    /// The revision asked for is after the newest one that the server has.
    NoSuchRevision { requested: Revnum, head: Revnum },
}

/// One statement of the report.
#[derive(Debug)]
pub enum ReportItem {
    /// The subtree at `path` is at `revision`.
    SetPath { path: String, revision: Revnum, depth: Depth, start_empty: bool, lock_token: Option<String> },
    /// The path is not there.
    DeletePath { path: String },
    /// The subtree at `path` comes from another place of the repository.
    LinkPath {
        path: String,
        url: String,
        revision: Revnum,
        depth: Depth,
        start_empty: bool,
        lock_token: Option<String>,
    },
}

/// `ReportItem` as plain values.
pub enum ReportItemView {
    SetPath {
        path: Seq<char>,
        revision: Revnum,
        depth: Depth,
        start_empty: bool,
        lock_token: Option<Seq<char>>,
    },
    DeletePath { path: Seq<char> },
    LinkPath {
        path: Seq<char>,
        url: Seq<char>,
        revision: Revnum,
        depth: Depth,
        start_empty: bool,
        lock_token: Option<Seq<char>>,
    },
}

impl View for ReportItem {
    type V = ReportItemView;

    open spec fn view(&self) -> ReportItemView {
        match self {
            ReportItem::SetPath { path, revision, depth, start_empty, lock_token } => {
                ReportItemView::SetPath {
                    path: path@,
                    revision: *revision,
                    depth: *depth,
                    start_empty: *start_empty,
                    lock_token: opt_text(*lock_token),
                }
            },
            ReportItem::DeletePath { path } => ReportItemView::DeletePath { path: path@ },
            ReportItem::LinkPath { path, url, revision, depth, start_empty, lock_token } => {
                ReportItemView::LinkPath {
                    path: path@,
                    url: url@,
                    revision: *revision,
                    depth: *depth,
                    start_empty: *start_empty,
                    lock_token: opt_text(*lock_token),
                }
            },
        }
    }
}

/// The report of one update or switch.
#[derive(Debug)]
pub struct Reporter {
    stage: ReportStage,
    requested: Option<Revnum>,
    depth: Depth,
    items: Vec<ReportItem>,
}

/// A report as plain values.
pub struct ReporterView {
    pub stage: ReportStage,
    /// The revision that the caller wants the tree brought to. None means
    /// the newest.
    pub requested: Option<Revnum>,
    /// How far the exchange that follows may descend.
    pub depth: Depth,
    /// The statements, in the order in which they were made.
    pub items: Seq<ReportItemView>,
}

impl ReporterView {
    pub open spec fn fresh(requested: Option<Revnum>, depth: Depth) -> ReporterView {
        ReporterView { stage: ReportStage::Reporting, requested, depth, items: Seq::empty() }
    }

    /// The exchange that follows a report that was committed with this
    /// target: it has not begun, its target revision is recorded, and it
    /// descends as far as the depth of the report allows.
    pub open spec fn exchange(self, target: Revnum) -> EditorView {
        EditorView { target_revision: Some(target), ..EditorView::idle_within(self.depth) }
    }

    /// One more statement, while the report is open.
    pub open spec fn spec_state(self, item: ReportItemView) -> (ReporterView, Result<(), ReportError>) {
        if self.stage != ReportStage::Reporting {
            (self, Err(ReportError::Closed))
        } else {
            (ReporterView { items: self.items.push(item), ..self }, Ok(()))
        }
    }

    /// The revision that the exchange brings the tree to, with the newest
    /// revision of the server being `head`: the one asked for, or `head`
    /// where none was asked for.
    pub open spec fn target(self, head: Revnum) -> Result<Revnum, ReportError> {
        match self.requested {
            None => Ok(head),
            Some(requested) => if requested <= head {
                Ok(requested)
            } else {
                Err(ReportError::NoSuchRevision { requested, head })
            },
        }
    }

    /// Committing the report. It closes the report, whether or not the
    /// revision asked for exists.
    pub open spec fn spec_finish(self, head: Revnum) -> (ReporterView, Result<Revnum, ReportError>) {
        if self.stage != ReportStage::Reporting {
            (self, Err(ReportError::Closed))
        } else {
            (ReporterView { stage: ReportStage::Finished, ..self }, self.target(head))
        }
    }

    /// Cancelling the report.
    pub open spec fn spec_abort(self) -> (ReporterView, Result<(), ReportError>) {
        if self.stage != ReportStage::Reporting {
            (self, Err(ReportError::Closed))
        } else {
            (ReporterView { stage: ReportStage::Aborted, ..self }, Ok(()))
        }
    }
}

/// A report ends once: after it was finished or aborted, every further
/// statement, finish and abort is turned down and changes nothing.
pub proof fn report_ends_once(s: ReporterView, item: ReportItemView, head: Revnum)
    requires
        s.stage != ReportStage::Reporting,
    ensures
        s.spec_state(item) == (s, Err::<(), ReportError>(ReportError::Closed)),
        s.spec_finish(head) == (s, Err::<Revnum, ReportError>(ReportError::Closed)),
        s.spec_abort() == (s, Err::<(), ReportError>(ReportError::Closed)),
{
}

/// Of finish and abort exactly one takes effect: whichever comes first
/// closes the report, and the other is then turned down.
pub proof fn finish_and_abort_exclude(s: ReporterView, head: Revnum)
    requires
        s.stage == ReportStage::Reporting,
    ensures
        s.spec_finish(head).0.stage == ReportStage::Finished,
        s.spec_finish(head).0.spec_abort().1 == Err::<(), ReportError>(ReportError::Closed),
        s.spec_abort().0.stage == ReportStage::Aborted,
        s.spec_abort().0.spec_finish(head).1 == Err::<Revnum, ReportError>(ReportError::Closed),
{
}

/// Where no revision was asked for, the exchange brings the tree to the
/// newest revision of the server, whatever the report said.
pub proof fn finish_targets_head(s: ReporterView, head: Revnum)
    requires
        s.stage == ReportStage::Reporting,
        s.requested is None,
    ensures
        s.spec_finish(head).1 == Ok::<Revnum, ReportError>(head),
{
}

impl View for Reporter {
    type V = ReporterView;

    closed spec fn view(&self) -> ReporterView {
        ReporterView {
            stage: self.stage,
            requested: self.requested,
            depth: self.depth,
            items: Seq::new(self.items@.len(), |i: int| self.items@[i]@),
        }
    }
}

fn owned_token(token: Option<&str>) -> (owned: Option<String>)
    ensures
        opt_text(owned) == (match token {
            Some(t) => Some(t@),
            None => None,
        }),
{
    match token {
        Some(t) => Some(t.to_owned()),
        None => None,
    }
}

impl Reporter {
    /// A report for an exchange that brings the tree to `requested`, or to
    /// the newest revision where none is named, and that descends as far
    /// as `depth` allows.
    pub fn new(requested: Option<Revnum>, depth: Depth) -> (reporter: Reporter)
        ensures
            reporter@ == ReporterView::fresh(requested, depth),
    {
        let reporter = Reporter {
            stage: ReportStage::Reporting,
            requested,
            depth,
            items: Vec::new(),
        };
        assert(reporter@.items =~= Seq::empty());
        reporter
    }

    pub fn stage(&self) -> (stage: ReportStage)
        ensures
            stage == self@.stage,
    {
        self.stage
    }

    /// The number of statements made so far.
    pub fn len(&self) -> (count: usize)
        ensures
            count == self@.items.len(),
    {
        self.items.len()
    }

    /// The statement with this index, if there is one.
    pub fn item(&self, index: usize) -> (found: Option<&ReportItem>)
        ensures
            match found {
                Some(item) => index < self@.items.len() && item@ == self@.items[index as int],
                None => index >= self@.items.len(),
            },
    {
        if index < self.items.len() {
            Some(&self.items[index])
        } else {
            None
        }
    }

    /// Makes one statement.
    pub fn state(&mut self, item: ReportItem) -> (outcome: Result<(), ReportError>)
        ensures
            (final(self)@, outcome) == old(self)@.spec_state(item@),
    {
        if self.stage != ReportStage::Reporting {
            return Err(ReportError::Closed);
        }
        self.items.push(item);
        assert(self@.items =~= old(self)@.items.push(item@));
        Ok(())
    }

    /// Declares the revision at which a subtree stands.
    pub fn set_path(
        &mut self,
        path: &str,
        revision: Revnum,
        depth: Depth,
        start_empty: bool,
        lock_token: Option<&str>,
    ) -> (outcome: Result<(), ReportError>)
        ensures
            (final(self)@, outcome) == old(self)@.spec_state(
                ReportItemView::SetPath {
                    path: path@,
                    revision,
                    depth,
                    start_empty,
                    lock_token: match lock_token {
                        Some(t) => Some(t@),
                        None => None,
                    },
                },
            ),
    {
        self.state(
            ReportItem::SetPath {
                path: path.to_owned(),
                revision,
                depth,
                start_empty,
                lock_token: owned_token(lock_token),
            },
        )
    }

    /// Declares that a path is not there.
    pub fn delete_path(&mut self, path: &str) -> (outcome: Result<(), ReportError>)
        ensures
            (final(self)@, outcome) == old(self)@.spec_state(
                ReportItemView::DeletePath { path: path@ },
            ),
    {
        self.state(ReportItem::DeletePath { path: path.to_owned() })
    }

    /// Declares that a subtree comes from another place of the repository.
    pub fn link_path(
        &mut self,
        path: &str,
        url: &str,
        revision: Revnum,
        depth: Depth,
        start_empty: bool,
        lock_token: Option<&str>,
    ) -> (outcome: Result<(), ReportError>)
        ensures
            (final(self)@, outcome) == old(self)@.spec_state(
                ReportItemView::LinkPath {
                    path: path@,
                    url: url@,
                    revision,
                    depth,
                    start_empty,
                    lock_token: match lock_token {
                        Some(t) => Some(t@),
                        None => None,
                    },
                },
            ),
    {
        self.state(
            ReportItem::LinkPath {
                path: path.to_owned(),
                url: url.to_owned(),
                revision,
                depth,
                start_empty,
                lock_token: owned_token(lock_token),
            },
        )
    }

    /// Commits the report, with `head` the newest revision of the server.
    /// It gives the exchange that follows: an editor that has not begun,
    /// whose target revision is the one asked for, or `head` where none was
    /// asked for, and which descends as far as the depth of the report
    /// allows.
    pub fn finish_report(&mut self, head: Revnum) -> (outcome: Result<Editor, ReportError>)
        ensures
            final(self)@ == old(self)@.spec_finish(head).0,
            match outcome {
                Ok(editor) => old(self)@.spec_finish(head).1 is Ok && editor.wf() && editor@
                    == old(self)@.exchange(old(self)@.spec_finish(head).1.unwrap()),
                Err(e) => old(self)@.spec_finish(head).1 == Err::<Revnum, ReportError>(e),
            },
    {
        if self.stage != ReportStage::Reporting {
            return Err(ReportError::Closed);
        }
        self.stage = ReportStage::Finished;
        assert(self@.items =~= old(self)@.items);
        let target: Revnum = match self.requested {
            None => head,
            Some(requested) => {
                if requested > head {
                    return Err(ReportError::NoSuchRevision { requested, head });
                }
                requested
            },
        };
        let mut editor = Editor::within(self.depth);
        let set = editor.set_target_revision(target);
        assert(set is Ok);
        Ok(editor)
    }

    /// Cancels the report. No exchange follows.
    pub fn abort_report(&mut self) -> (outcome: Result<(), ReportError>)
        ensures
            (final(self)@, outcome) == old(self)@.spec_abort(),
    {
        if self.stage != ReportStage::Reporting {
            return Err(ReportError::Closed);
        }
        self.stage = ReportStage::Aborted;
        assert(self@.items =~= old(self)@.items);
        Ok(())
    }
}

} // verus!
