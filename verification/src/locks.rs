//! Locks and the bulk operations on them: each path of a lock or unlock
//! request is answered on its own, and the answer is handed to the callback
//! of the caller once. A path that fails does not stop the paths after it.

use vstd::prelude::*;
use crate::common::ErrorChain;
use crate::types::opt_text;

verus! {

/// A path-level exclusive reservation.
#[derive(Debug)]
pub struct Lock {
    pub path: String,
    /// The token is opaque; it is given back to release the lock.
    pub token: String,
    pub owner: String,
    pub comment: Option<String>,
    pub creation_date: i64,
    pub expiration_date: Option<i64>,
}

/// A lock as plain values.
pub struct LockView {
    pub path: Seq<char>,
    pub token: Seq<char>,
    pub owner: Seq<char>,
    pub comment: Option<Seq<char>>,
    pub creation_date: i64,
    pub expiration_date: Option<i64>,
}

impl View for Lock {
    type V = LockView;

    open spec fn view(&self) -> LockView {
        LockView {
            path: self.path@,
            token: self.token@,
            owner: self.owner@,
            comment: opt_text(self.comment),
            creation_date: self.creation_date,
            expiration_date: self.expiration_date,
        }
    }
}

impl Lock {
    /// Whether `token` is the token of the lock, which releases it.
    pub fn matches_token(&self, token: &str) -> (matches: bool)
        ensures
            matches == (self.token@ == token@),
    {
        let given: String = token.to_owned();
        self.token == given
    }

    /// An independent copy that the receiver may keep.
    pub fn dup(&self) -> (copy: Lock)
        ensures
            copy@ == self@,
    {
        Lock {
            path: self.path.clone(),
            token: self.token.clone(),
            owner: self.owner.clone(),
            comment: match &self.comment {
                Some(c) => Some(c.clone()),
                None => None,
            },
            creation_date: self.creation_date,
            expiration_date: self.expiration_date,
        }
    }
}

pub open spec fn opt_lock(lock: Option<Lock>) -> Option<LockView> {
    match lock {
        Some(l) => Some(l@),
        None => None,
    }
}

/// What the server answered for one path.
#[derive(Debug)]
pub struct PathOutcome {
    pub path: String,
    pub lock: Option<Lock>,
    pub error: Option<ErrorChain>,
}

/// What the callback is handed for one path.
#[derive(Debug)]
pub struct LockReport {
    pub path: String,
    /// Whether the lock was to be stolen or broken.
    pub forced: bool,
    pub lock: Option<Lock>,
    /// The message of the failure, where the path failed.
    pub error: Option<String>,
}

/// Where a bulk operation stands.
#[derive(Clone, Copy, Debug, PartialEq, Eq, Structural)]
pub enum BatchStage {
    /// The answer for a path is awaited.
    Running,
    /// The callback is out with the answer for a path.
    Delivering,
    /// Every path was answered and reported.
    Finished,
    /// The callback failed, which ends the operation.
    Failed,
}

/// Why a step of a bulk operation was turned down, or why it failed.
#[derive(Debug)]
pub enum BatchError {
    OutOfTurn,
    /// The answer is for a path that the request does not hold, or that
    /// was answered before.
    UnknownPath,
    Callback(ErrorChain),
}

/// One lock or unlock request over several paths.
#[derive(Debug)]
pub struct LockBatch {
    forced: bool,
    pending: Vec<String>,
    reported: usize,
    failures: usize,
    stage: BatchStage,
}

/// A bulk operation as plain values.
pub struct BatchView {
    pub forced: bool,
    /// The paths that are not answered yet.
    pub pending: Seq<Seq<char>>,
    /// The number of paths whose answer was handed to the callback.
    pub reported: nat,
    /// The number of those that had failed.
    pub failures: nat,
    pub stage: BatchStage,
}

/// The first place from `from` on at which `path` stands among `paths`, or
/// the number of paths if it stands nowhere.
pub open spec fn position(paths: Seq<Seq<char>>, path: Seq<char>, from: int) -> int
    decreases paths.len() - from,
{
    if from >= paths.len() {
        paths.len() as int
    } else if paths[from] == path {
        from
    } else {
        position(paths, path, from + 1)
    }
}

/// `position` is within the paths, finds the path, and passes none.
pub proof fn position_is_first(paths: Seq<Seq<char>>, path: Seq<char>, from: int)
    requires
        0 <= from <= paths.len(),
    ensures
        from <= position(paths, path, from) <= paths.len(),
        position(paths, path, from) < paths.len() ==> paths[position(paths, path, from)] == path,
        forall|i: int| from <= i < position(paths, path, from) ==> paths[i] != path,
    decreases paths.len() - from,
{
    if from < paths.len() && paths[from] != path {
        position_is_first(paths, path, from + 1);
    }
}

impl BatchView {
    pub open spec fn fresh(paths: Seq<Seq<char>>, forced: bool) -> BatchView {
        BatchView {
            forced,
            pending: paths,
            reported: 0,
            failures: 0,
            stage: if paths.len() == 0 {
                BatchStage::Finished
            } else {
                BatchStage::Running
            },
        }
    }

    /// What holds of every bulk operation.
    pub open spec fn wf(self) -> bool {
        &&& self.failures <= self.reported
        &&& self.reported + self.pending.len() <= usize::MAX
        &&& self.stage == BatchStage::Running ==> self.pending.len() > 0
        &&& self.stage == BatchStage::Delivering ==> self.reported >= 1
        &&& self.stage == BatchStage::Finished ==> self.pending.len() == 0
    }

    /// Whether an answer for `path` is in turn.
    pub open spec fn expects(self, path: Seq<char>) -> bool {
        self.stage == BatchStage::Running && position(self.pending, path, 0) < self.pending.len()
    }

    /// The answer for a path came: the path is taken from those that are
    /// pending, the answer is counted, a failure too, and goes out to the
    /// callback.
    pub open spec fn spec_path_result(self, path: Seq<char>, failed: bool) -> BatchView {
        if !self.expects(path) {
            self
        } else {
            BatchView {
                pending: self.pending.remove(position(self.pending, path, 0)),
                reported: self.reported + 1,
                failures: if failed {
                    self.failures + 1
                } else {
                    self.failures
                },
                stage: BatchStage::Delivering,
                ..self
            }
        }
    }

    /// The callback returned. Only its own failure ends the operation
    /// early.
    pub open spec fn spec_callback_returned(self, failed: bool) -> BatchView {
        if self.stage != BatchStage::Delivering {
            self
        } else if failed {
            BatchView { stage: BatchStage::Failed, ..self }
        } else if self.pending.len() == 0 {
            BatchView { stage: BatchStage::Finished, ..self }
        } else {
            BatchView { stage: BatchStage::Running, ..self }
        }
    }
}

/// Every step keeps a bulk operation well formed.
pub proof fn batch_steps_keep_wf(s: BatchView, path: Seq<char>, failed: bool)
    requires
        s.wf(),
    ensures
        s.spec_path_result(path, failed).wf(),
        s.spec_callback_returned(failed).wf(),
{
    position_is_first(s.pending, path, 0);
}

/// A request that has just begun is well formed.
pub proof fn fresh_batch_is_wf(paths: Seq<Seq<char>>, forced: bool)
    requires
        paths.len() <= usize::MAX,
    ensures
        BatchView::fresh(paths, forced).wf(),
{
}

/// A path that fails does not stop the operation: after its answer was
/// handed to the callback and the callback returned well, the operation
/// goes on with the paths that are left, or is finished if none is left.
pub proof fn failed_path_does_not_abort(s: BatchView, path: Seq<char>)
    requires
        s.wf(),
        s.expects(path),
    ensures
        ({
            let t = s.spec_path_result(path, true).spec_callback_returned(false);
            &&& t.stage != BatchStage::Failed
            &&& t.reported == s.reported + 1
            &&& t.failures == s.failures + 1
            &&& t.pending.len() == s.pending.len() - 1
            &&& t.stage == (if s.pending.len() == 1 {
                BatchStage::Finished
            } else {
                BatchStage::Running
            })
        }),
{
    position_is_first(s.pending, path, 0);
}

/// The callback is invoked once for each path: every answer that is taken
/// takes its path from those that are pending, so that the count of the
/// answers handed over and the count of the paths left always add up to
/// the paths of the request; and an answer for a path that is not pending
/// is not handed over.
pub proof fn each_path_reported_once(s: BatchView, path: Seq<char>, failed: bool)
    requires
        s.wf(),
    ensures
        ({
            let t = s.spec_path_result(path, failed);
            &&& t.reported + t.pending.len() == s.reported + s.pending.len()
            &&& !s.expects(path) ==> t == s
            &&& s.expects(path) ==> t.reported == s.reported + 1
        }),
        s.spec_callback_returned(failed).reported == s.reported,
        s.spec_callback_returned(failed).pending == s.pending,
{
    position_is_first(s.pending, path, 0);
}

pub open spec fn paths_view(paths: Seq<String>) -> Seq<Seq<char>> {
    Seq::new(paths.len(), |i: int| paths[i]@)
}

impl View for LockBatch {
    type V = BatchView;

    closed spec fn view(&self) -> BatchView {
        BatchView {
            forced: self.forced,
            pending: paths_view(self.pending@),
            reported: self.reported as nat,
            failures: self.failures as nat,
            stage: self.stage,
        }
    }
}

impl LockBatch {
    pub open spec fn wf(&self) -> bool {
        self@.wf()
    }

    /// A request over the given paths. `forced` says that locks are to be
    /// stolen, or broken.
    pub fn new(paths: Vec<String>, forced: bool) -> (batch: LockBatch)
        ensures
            batch.wf(),
            batch@ == BatchView::fresh(paths_view(paths@), forced),
    {
        let stage = if paths.len() == 0 {
            BatchStage::Finished
        } else {
            BatchStage::Running
        };
        LockBatch { forced, pending: paths, reported: 0, failures: 0, stage }
    }

    pub fn stage(&self) -> (stage: BatchStage)
        ensures
            stage == self@.stage,
    {
        self.stage
    }

    /// The number of paths whose answer was handed to the callback.
    pub fn reported(&self) -> (count: usize)
        ensures
            count == self@.reported,
    {
        self.reported
    }

    /// The number of paths that failed.
    pub fn failures(&self) -> (count: usize)
        ensures
            count == self@.failures,
    {
        self.failures
    }

    /// The number of paths that are not answered yet.
    pub fn pending(&self) -> (count: usize)
        ensures
            count == self@.pending.len(),
    {
        self.pending.len()
    }

    /// Takes the answer of the server for one path and gives what the
    /// callback is to be handed: the path, whether the lock was forced, a
    /// copy of the lock, and the message of the failure if the path failed.
    pub fn path_result(&mut self, outcome: &PathOutcome) -> (report: Result<LockReport, BatchError>)
        requires
            old(self).wf(),
        ensures
            final(self).wf(),
            final(self)@ == old(self)@.spec_path_result(outcome.path@, outcome.error is Some),
            match report {
                Ok(r) => old(self)@.expects(outcome.path@) && r.path@ == outcome.path@ && r.forced
                    == old(self)@.forced && opt_lock(r.lock) == opt_lock(outcome.lock) && opt_text(
                    r.error,
                ) == (match outcome.error {
                    Some(e) => Some(e.message@),
                    None => None,
                }),
                Err(BatchError::OutOfTurn) => old(self)@.stage != BatchStage::Running,
                Err(BatchError::UnknownPath) => old(self)@.stage == BatchStage::Running && !old(self)@.expects(outcome.path@),
                Err(BatchError::Callback(_)) => false,
            },
    {
        if self.stage != BatchStage::Running {
            return Err(BatchError::OutOfTurn);
        }
        let mut i: usize = 0;
        while i < self.pending.len() && self.pending[i] != outcome.path
            invariant
                *self == *old(self),
                i <= self.pending.len(),
                position(self@.pending, outcome.path@, i as int) == position(
                    self@.pending,
                    outcome.path@,
                    0,
                ),
            decreases self.pending.len() - i,
        {
            i += 1;
        }
        if i >= self.pending.len() {
            return Err(BatchError::UnknownPath);
        }
        proof {
            batch_steps_keep_wf(old(self)@, outcome.path@, outcome.error is Some);
        }
        let taken: String = self.pending.remove(i);
        assert(self@.pending =~= old(self)@.pending.remove(i as int));
        self.reported = self.reported + 1;
        let error: Option<String> = match &outcome.error {
            Some(e) => {
                self.failures = self.failures + 1;
                Some(e.message.clone())
            },
            None => None,
        };
        self.stage = BatchStage::Delivering;
        let lock: Option<Lock> = match &outcome.lock {
            Some(l) => Some(l.dup()),
            None => None,
        };
        Ok(LockReport { path: taken, forced: self.forced, lock, error })
    }

    /// The callback returned. Gives whether paths are left. The failure of
    /// the callback ends the operation and is its error.
    pub fn callback_returned(&mut self, result: Result<(), ErrorChain>) -> (more: Result<
        bool,
        BatchError,
    >)
        requires
            old(self).wf(),
        ensures
            final(self).wf(),
            final(self)@ == old(self)@.spec_callback_returned(result is Err),
            match more {
                Ok(left) => old(self)@.stage == BatchStage::Delivering && result is Ok && left == (
                old(self)@.pending.len() > 0),
                Err(BatchError::Callback(e)) => old(self)@.stage == BatchStage::Delivering
                    && result == Err::<(), ErrorChain>(e),
                Err(BatchError::OutOfTurn) => old(self)@.stage != BatchStage::Delivering,
                Err(BatchError::UnknownPath) => false,
            },
    {
        if self.stage != BatchStage::Delivering {
            return Err(BatchError::OutOfTurn);
        }
        match result {
            Err(e) => {
                self.stage = BatchStage::Failed;
                Err(BatchError::Callback(e))
            },
            Ok(_) => {
                if self.pending.len() == 0 {
                    self.stage = BatchStage::Finished;
                    Ok(false)
                } else {
                    self.stage = BatchStage::Running;
                    Ok(true)
                }
            },
        }
    }
}

} // verus!
