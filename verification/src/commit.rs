//! Delivery of the result of a write operation to the callback of the
//! caller who began it: at most once, only after the change is final, and
//! with the failure of the callback made the failure of the operation.

use vstd::prelude::*;
use crate::common::ErrorChain;
use crate::types::{CommitInfo, Revnum};

verus! {

/// Where the delivery stands.
#[derive(Clone, Copy, Debug, PartialEq, Eq, Structural)]
pub enum CommitStage {
    /// The change is not final yet.
    Pending,
    /// The callback was invoked and has not returned.
    Delivering,
    /// The operation succeeded.
    Succeeded,
    /// The operation failed before the callback could be invoked.
    Rejected,
    /// The callback was invoked and failed, which fails the operation.
    CallbackFailed,
}

/// What the caller of `finalized` has to do next.
#[derive(Debug)]
pub enum CommitAction {
    /// Invoke the callback with this result, then report how it went.
    Invoke(CommitInfo),
    /// No callback was given: the operation is done.
    Done,
}

/// Why a step of the delivery was turned down, or how the operation failed.
#[derive(Debug)]
pub enum CommitError {
    /// The step does not fit the stage: the change was already final, or no
    /// callback is out.
    OutOfTurn,
    /// The result names a revision that is not after the one that the write
    /// was based on.
    StaleRevision { base: Revnum, committed: Revnum },
    /// The callback failed with this error.
    Callback(ErrorChain),
}

/// The delivery of one commit result.
#[derive(Debug)]
pub struct CommitCallback {
    has_callback: bool,
    base_revision: Option<Revnum>,
    stage: CommitStage,
    invocations: usize,
    delivered: Option<Revnum>,
}

/// A delivery as plain values.
pub struct CommitCallbackView {
    pub has_callback: bool,
    /// The revision that the write was based on, if it is known.
    pub base_revision: Option<Revnum>,
    pub stage: CommitStage,
    /// How often the callback was invoked.
    pub invocations: nat,
    /// The revision of the result that was handed to the callback.
    pub delivered: Option<Revnum>,
}

impl CommitCallbackView {
    pub open spec fn pending(has_callback: bool, base_revision: Option<Revnum>) -> CommitCallbackView {
        CommitCallbackView {
            has_callback,
            base_revision,
            stage: CommitStage::Pending,
            invocations: 0,
            delivered: None,
        }
    }

    /// Whether a result with this revision can stand for a write on this
    /// base: its revision must be after the base.
    pub open spec fn advances(self, committed: Revnum) -> bool {
        match self.base_revision {
            Some(base) => committed > base,
            None => true,
        }
    }

    /// What holds of every delivery: the callback is invoked at most once,
    /// never before the change is final and never for a write that was
    /// rejected; it is invoked exactly once where a callback was given and
    /// the operation succeeded; and what it was handed is after the base.
    pub open spec fn wf(self) -> bool {
        &&& self.invocations <= 1
        &&& (self.invocations == 1) == self.delivered.is_some()
        &&& (self.stage == CommitStage::Pending || self.stage == CommitStage::Rejected)
            ==> self.invocations == 0
        &&& (self.stage == CommitStage::Delivering || self.stage == CommitStage::CallbackFailed)
            ==> self.invocations == 1 && self.has_callback
        &&& self.stage == CommitStage::Succeeded ==> (self.invocations == 1) == self.has_callback
        &&& self.delivered matches Some(committed) ==> self.advances(committed)
    }

    /// The change became final with this result.
    pub open spec fn spec_finalized(self, committed: Revnum) -> CommitCallbackView {
        if self.stage != CommitStage::Pending {
            self
        } else if !self.advances(committed) {
            CommitCallbackView { stage: CommitStage::Rejected, ..self }
        } else if self.has_callback {
            CommitCallbackView {
                stage: CommitStage::Delivering,
                invocations: 1,
                delivered: Some(committed),
                ..self
            }
        } else {
            CommitCallbackView { stage: CommitStage::Succeeded, ..self }
        }
    }

    /// The write failed before it became final.
    pub open spec fn spec_rejected(self) -> CommitCallbackView {
        if self.stage != CommitStage::Pending {
            self
        } else {
            CommitCallbackView { stage: CommitStage::Rejected, ..self }
        }
    }

    /// The callback returned.
    pub open spec fn spec_callback_returned(self, failed: bool) -> CommitCallbackView {
        if self.stage != CommitStage::Delivering {
            self
        } else if failed {
            CommitCallbackView { stage: CommitStage::CallbackFailed, ..self }
        } else {
            CommitCallbackView { stage: CommitStage::Succeeded, ..self }
        }
    }
}

impl View for CommitCallback {
    type V = CommitCallbackView;

    closed spec fn view(&self) -> CommitCallbackView {
        CommitCallbackView {
            has_callback: self.has_callback,
            base_revision: self.base_revision,
            stage: self.stage,
            invocations: self.invocations as nat,
            delivered: self.delivered,
        }
    }
}

impl CommitCallback {
    pub open spec fn wf(&self) -> bool {
        self@.wf()
    }

    /// The delivery for a write that is about to begin. `has_callback` says
    /// whether the caller gave a callback; `base_revision` is the revision
    /// that the write is based on, where it is known.
    pub fn new(has_callback: bool, base_revision: Option<Revnum>) -> (delivery: CommitCallback)
        ensures
            delivery.wf(),
            delivery@ == CommitCallbackView::pending(has_callback, base_revision),
    {
        CommitCallback {
            has_callback,
            base_revision,
            stage: CommitStage::Pending,
            invocations: 0,
            delivered: None,
        }
    }

    pub fn stage(&self) -> (stage: CommitStage)
        ensures
            stage == self@.stage,
    {
        self.stage
    }

    /// How often the callback was invoked: 0 or 1.
    pub fn invocations(&self) -> (count: usize)
        ensures
            count == self@.invocations,
    {
        self.invocations
    }

    /// The change is final, with this result. Where that is in turn and the
    /// result is after the base, the callback is to be invoked with the
    /// result, or the operation is done if no callback was given.
    pub fn finalized(&mut self, info: CommitInfo) -> (action: Result<CommitAction, CommitError>)
        requires
            old(self).wf(),
        ensures
            final(self).wf(),
            final(self)@ == old(self)@.spec_finalized(info.revision),
            match action {
                Ok(CommitAction::Invoke(handed)) => old(self)@.stage == CommitStage::Pending && old(
                    self,
                )@.advances(info.revision) && old(self)@.has_callback && handed == info,
                Ok(CommitAction::Done) => old(self)@.stage == CommitStage::Pending && old(
                    self,
                )@.advances(info.revision) && !old(self)@.has_callback,
                Err(CommitError::OutOfTurn) => old(self)@.stage != CommitStage::Pending,
                Err(CommitError::StaleRevision { base, committed }) => old(self)@.stage
                    == CommitStage::Pending && old(self)@.base_revision == Some(base) && committed
                    == info.revision && committed <= base,
                Err(CommitError::Callback(_)) => false,
            },
    {
        if self.stage != CommitStage::Pending {
            return Err(CommitError::OutOfTurn);
        }
        match self.base_revision {
            Some(base) => {
                if info.revision <= base {
                    self.stage = CommitStage::Rejected;
                    return Err(CommitError::StaleRevision { base, committed: info.revision });
                }
            },
            None => {},
        }
        if self.has_callback {
            self.stage = CommitStage::Delivering;
            self.invocations = 1;
            self.delivered = Some(info.revision);
            Ok(CommitAction::Invoke(info))
        } else {
            self.stage = CommitStage::Succeeded;
            Ok(CommitAction::Done)
        }
    }

    /// The write failed before it became final. The callback is not
    /// invoked; the error goes back to the caller of the operation.
    pub fn rejected(&mut self, error: ErrorChain) -> (returned: ErrorChain)
        requires
            old(self).wf(),
        ensures
            final(self).wf(),
            final(self)@ == old(self)@.spec_rejected(),
            returned == error,
    {
        if self.stage == CommitStage::Pending {
            self.stage = CommitStage::Rejected;
        }
        error
    }

    /// The write was given up before it became final. The callback is not
    /// invoked.
    pub fn abandon(&mut self)
        requires
            old(self).wf(),
        ensures
            final(self).wf(),
            final(self)@ == old(self)@.spec_rejected(),
    {
        if self.stage == CommitStage::Pending {
            self.stage = CommitStage::Rejected;
        }
    }

    /// The callback returned. Its failure is the failure of the operation.
    pub fn callback_returned(&mut self, result: Result<(), ErrorChain>) -> (outcome: Result<
        (),
        CommitError,
    >)
        requires
            old(self).wf(),
        ensures
            final(self).wf(),
            final(self)@ == old(self)@.spec_callback_returned(result is Err),
            match outcome {
                Ok(_) => old(self)@.stage == CommitStage::Delivering && result is Ok,
                Err(CommitError::Callback(e)) => old(self)@.stage == CommitStage::Delivering
                    && result == Err::<(), ErrorChain>(e),
                Err(CommitError::OutOfTurn) => old(self)@.stage != CommitStage::Delivering,
                Err(CommitError::StaleRevision { .. }) => false,
            },
    {
        if self.stage != CommitStage::Delivering {
            return Err(CommitError::OutOfTurn);
        }
        match result {
            Ok(_) => {
                self.stage = CommitStage::Succeeded;
                Ok(())
            },
            Err(e) => {
                self.stage = CommitStage::CallbackFailed;
                Err(CommitError::Callback(e))
            },
        }
    }
}

/// Every step keeps a delivery well formed.
pub proof fn delivery_steps_keep_wf(s: CommitCallbackView, committed: Revnum, failed: bool)
    requires
        s.wf(),
    ensures
        s.spec_finalized(committed).wf(),
        s.spec_rejected().wf(),
        s.spec_callback_returned(failed).wf(),
        CommitCallbackView::pending(s.has_callback, s.base_revision).wf(),
{
}

/// No step invokes the callback a second time, and none takes an
/// invocation back.
pub proof fn callback_invoked_at_most_once(s: CommitCallbackView, committed: Revnum, failed: bool)
    requires
        s.wf(),
    ensures
        s.invocations <= s.spec_finalized(committed).invocations <= 1,
        s.spec_rejected().invocations == s.invocations,
        s.spec_callback_returned(failed).invocations == s.invocations,
        s.invocations == 1 ==> s.spec_finalized(committed) == s,
{
}

/// A write operation with a callback that succeeds has invoked the
/// callback exactly once; one that was rejected has never invoked it; and
/// the result that the callback was handed names a revision after the one
/// that the write was based on.
pub proof fn callback_once_per_successful_write(s: CommitCallbackView)
    requires
        s.wf(),
    ensures
        s.stage == CommitStage::Succeeded && s.has_callback ==> s.invocations == 1,
        s.stage == CommitStage::Rejected ==> s.invocations == 0,
        s.stage == CommitStage::Pending ==> s.invocations == 0,
        s.invocations == 1 ==> s.delivered is Some && s.advances(s.delivered.unwrap()),
        forall|base: Revnum|
            s.invocations == 1 && s.base_revision == Some(base) ==> s.delivered.unwrap() > base,
{
}

/// A write from its beginning to its end, with a callback: when the change
/// becomes final with a result after the base and the callback returns
/// well, the operation has succeeded and the callback was invoked once.
/// When the write fails first, the operation is rejected and the callback
/// was not invoked, whatever comes later.
pub proof fn write_from_start_to_end(base_revision: Option<Revnum>, committed: Revnum, later: Revnum)
    ensures
        ({
            let start = CommitCallbackView::pending(true, base_revision);
            let end = start.spec_finalized(committed).spec_callback_returned(false);
            start.advances(committed) ==> end.stage == CommitStage::Succeeded && end.invocations
                == 1 && end.delivered == Some(committed)
        }),
        ({
            let start = CommitCallbackView::pending(true, base_revision);
            let end = start.spec_rejected().spec_finalized(later).spec_callback_returned(false);
            end.stage == CommitStage::Rejected && end.invocations == 0
        }),
{
}

} // verus!
