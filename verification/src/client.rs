//! The client: what each of its operations asks for once the choices that
//! the caller left open are made, and the delivery of the result of its
//! write operations.

use vstd::prelude::*;
use crate::commit::{CommitAction, CommitCallback, CommitCallbackView, CommitError, CommitStage};
use crate::common::ErrorChain;
use crate::types::{CommitInfo, ConfigError, Depth, NativeEOL, Revision};

verus! {

/// What `add` asks for.
#[derive(Clone, Copy, Debug, PartialEq, Eq, Structural)]
pub struct AddOptions {
    pub depth: Depth,
    pub force: bool,
    pub no_ignore: bool,
    pub add_parents: bool,
    pub no_autoprops: bool,
}

/// What `checkout` asks for.
#[derive(Clone, Copy, Debug, PartialEq, Eq, Structural)]
pub struct CheckoutOptions {
    pub revision: Revision,
    pub peg_revision: Revision,
    pub depth: Depth,
    pub ignore_externals: bool,
    pub allow_unver_obstructions: bool,
}

/// What `export` asks for.
#[derive(Clone, Copy, Debug, PartialEq, Eq, Structural)]
pub struct ExportOptions {
    pub peg_revision: Revision,
    pub revision: Revision,
    pub overwrite: bool,
    pub ignore_externals: bool,
    pub ignore_keywords: bool,
    pub depth: Depth,
    pub native_eol: NativeEOL,
}

/// What `cat` asks for.
#[derive(Clone, Copy, Debug, PartialEq, Eq, Structural)]
pub struct CatOptions {
    pub revision: Revision,
    pub peg_revision: Revision,
    pub expand_keywords: bool,
}

/// What `delete` asks for.
#[derive(Debug)]
pub struct DeleteRequest {
    pub paths: Vec<String>,
    pub force: bool,
    pub keep_local: bool,
    /// The revision properties that are set with the change.
    pub revprops: Vec<(String, String)>,
}

/// What `mkdir` asks for.
#[derive(Debug)]
pub struct MkdirRequest {
    pub paths: Vec<String>,
    pub make_parents: bool,
    /// The revision properties that are set with the change.
    pub revprops: Vec<(String, Vec<u8>)>,
}

/// A choice that the caller left open is made as `false`.
pub open spec fn chosen(flag: Option<bool>) -> bool {
    match flag {
        Some(f) => f,
        None => false,
    }
}

pub open spec fn chosen_depth(depth: Option<Depth>) -> Depth {
    match depth {
        Some(d) => d,
        None => Depth::Infinity,
    }
}

pub open spec fn chosen_revision(revision: Option<Revision>) -> Revision {
    match revision {
        Some(r) => r,
        None => Revision::Unspecified,
    }
}

pub open spec fn word(text: Option<&str>) -> Option<Seq<char>> {
    match text {
        Some(t) => Some(t@),
        None => None,
    }
}

fn flag(choice: Option<bool>) -> (made: bool)
    ensures
        made == chosen(choice),
{
    match choice {
        Some(f) => f,
        None => false,
    }
}

/// The client, with the delivery of the result of the write operation that
/// it began last.
#[derive(Debug)]
pub struct Client {
    write: CommitCallback,
}

impl Client {
    pub open spec fn wf(&self) -> bool {
        self.write().wf()
    }

    /// The delivery of the result of the write operation that was begun
    /// last.
    pub closed spec fn write(&self) -> CommitCallbackView {
        self.write@
    }

    pub fn new() -> (client: Client)
        ensures
            client.wf(),
            client.write() == CommitCallbackView::pending(false, None),
    {
        Client { write: CommitCallback::new(false, None) }
    }

    pub fn add(
        &self,
        depth: Option<Depth>,
        force: Option<bool>,
        no_ignore: Option<bool>,
        add_parents: Option<bool>,
        no_autoprops: Option<bool>,
    ) -> (options: AddOptions)
        ensures
            options == (AddOptions {
                depth: chosen_depth(depth),
                force: chosen(force),
                no_ignore: chosen(no_ignore),
                add_parents: chosen(add_parents),
                no_autoprops: chosen(no_autoprops),
            }),
    {
        AddOptions {
            depth: Depth::or_default(depth),
            force: flag(force),
            no_ignore: flag(no_ignore),
            add_parents: flag(add_parents),
            no_autoprops: flag(no_autoprops),
        }
    }

    pub fn checkout(
        &self,
        rev: Option<Revision>,
        peg_revision: Option<Revision>,
        depth: Option<Depth>,
        ignore_externals: Option<bool>,
        allow_unver_obstructions: Option<bool>,
    ) -> (options: CheckoutOptions)
        ensures
            options == (CheckoutOptions {
                revision: chosen_revision(rev),
                peg_revision: chosen_revision(peg_revision),
                depth: chosen_depth(depth),
                ignore_externals: chosen(ignore_externals),
                allow_unver_obstructions: chosen(allow_unver_obstructions),
            }),
    {
        CheckoutOptions {
            revision: Revision::or_default(rev),
            peg_revision: Revision::or_default(peg_revision),
            depth: Depth::or_default(depth),
            ignore_externals: flag(ignore_externals),
            allow_unver_obstructions: flag(allow_unver_obstructions),
        }
    }

    /// What an export asks for. A word for the line ending that is not
    /// known is an error of the configuration, never the standard ending.
    pub fn export(
        &self,
        rev: Option<Revision>,
        peg_rev: Option<Revision>,
        depth: Option<Depth>,
        ignore_externals: Option<bool>,
        overwrite: Option<bool>,
        native_eol: Option<&str>,
        ignore_keywords: Option<bool>,
    ) -> (options: Result<ExportOptions, ConfigError>)
        ensures
            match NativeEOL::spec_parse(word(native_eol)) {
                Some(eol) => options == Ok::<ExportOptions, ConfigError>(
                    ExportOptions {
                        peg_revision: chosen_revision(peg_rev),
                        revision: chosen_revision(rev),
                        overwrite: chosen(overwrite),
                        ignore_externals: chosen(ignore_externals),
                        ignore_keywords: chosen(ignore_keywords),
                        depth: chosen_depth(depth),
                        native_eol: eol,
                    },
                ),
                None => options == Err::<ExportOptions, ConfigError>(
                    ConfigError::UnknownNativeEol,
                ),
            },
    {
        match NativeEOL::parse(native_eol) {
            Err(e) => Err(e),
            Ok(eol) => Ok(
                ExportOptions {
                    peg_revision: Revision::or_default(peg_rev),
                    revision: Revision::or_default(rev),
                    overwrite: flag(overwrite),
                    ignore_externals: flag(ignore_externals),
                    ignore_keywords: flag(ignore_keywords),
                    depth: Depth::or_default(depth),
                    native_eol: eol,
                },
            ),
        }
    }

    pub fn cat(&self, rev: Option<Revision>, peg_rev: Option<Revision>, expand_keywords: Option<bool>) -> (options:
        CatOptions)
        ensures
            options == (CatOptions {
                revision: chosen_revision(rev),
                peg_revision: chosen_revision(peg_rev),
                expand_keywords: chosen(expand_keywords),
            }),
    {
        CatOptions {
            revision: Revision::or_default(rev),
            peg_revision: Revision::or_default(peg_rev),
            expand_keywords: flag(expand_keywords),
        }
    }

    /// Begins the deletion of paths, a write operation. No revision
    /// properties means none. `has_callback` says whether the caller gave a
    /// callback for the result.
    pub fn delete(
        &mut self,
        paths: Vec<String>,
        force: Option<bool>,
        keep_local: Option<bool>,
        revprops: Option<Vec<(String, String)>>,
        has_callback: bool,
    ) -> (request: DeleteRequest)
        ensures
            final(self).wf(),
            final(self).write() == CommitCallbackView::pending(has_callback, None),
            request.paths == paths,
            request.force == chosen(force),
            request.keep_local == chosen(keep_local),
            match revprops {
                Some(given) => request.revprops == given,
                None => request.revprops@.len() == 0,
            },
    {
        self.write = CommitCallback::new(has_callback, None);
        let revprops = match revprops {
            Some(given) => given,
            None => Vec::new(),
        };
        DeleteRequest { paths, force: flag(force), keep_local: flag(keep_local), revprops }
    }

    /// Begins the creation of directories, a write operation. No revision
    /// properties means none. `has_callback` says whether the caller gave a
    /// callback for the result.
    pub fn mkdir(
        &mut self,
        paths: Vec<String>,
        make_parents: Option<bool>,
        revprops: Option<Vec<(String, Vec<u8>)>>,
        has_callback: bool,
    ) -> (request: MkdirRequest)
        ensures
            final(self).wf(),
            final(self).write() == CommitCallbackView::pending(has_callback, None),
            request.paths == paths,
            request.make_parents == chosen(make_parents),
            match revprops {
                Some(given) => request.revprops == given,
                None => request.revprops@.len() == 0,
            },
    {
        self.write = CommitCallback::new(has_callback, None);
        let revprops = match revprops {
            Some(given) => given,
            None => Vec::new(),
        };
        MkdirRequest { paths, make_parents: flag(make_parents), revprops }
    }

    /// The write operation became final with this result. The callback is
    /// to be invoked with it, if the caller gave one.
    pub fn commit_finalized(&mut self, info: CommitInfo) -> (action: Result<CommitAction, CommitError>)
        requires
            old(self).wf(),
        ensures
            final(self).wf(),
            final(self).write() == old(self).write().spec_finalized(info.revision),
            match action {
                Ok(CommitAction::Invoke(handed)) => old(self).write().stage == CommitStage::Pending
                    && old(self).write().advances(info.revision) && old(self).write().has_callback
                    && handed == info,
                Ok(CommitAction::Done) => old(self).write().stage == CommitStage::Pending && old(self).write().advances(info.revision) && !old(self).write().has_callback,
                Err(CommitError::OutOfTurn) => old(self).write().stage != CommitStage::Pending,
                Err(CommitError::StaleRevision { base, committed }) => old(self).write().stage
                    == CommitStage::Pending && old(self).write().base_revision == Some(base)
                    && committed == info.revision && committed <= base,
                Err(CommitError::Callback(_)) => false,
            },
    {
        self.write.finalized(info)
    }

    /// The write operation failed. The callback is not invoked.
    pub fn commit_failed(&mut self, error: ErrorChain) -> (returned: ErrorChain)
        requires
            old(self).wf(),
        ensures
            final(self).wf(),
            final(self).write() == old(self).write().spec_rejected(),
            returned == error,
    {
        self.write.rejected(error)
    }

    /// The callback returned. Its failure fails the write operation.
    pub fn commit_callback_returned(&mut self, result: Result<(), ErrorChain>) -> (outcome: Result<
        (),
        CommitError,
    >)
        requires
            old(self).wf(),
        ensures
            final(self).wf(),
            final(self).write() == old(self).write().spec_callback_returned(result is Err),
            match outcome {
                Ok(_) => old(self).write().stage == CommitStage::Delivering
                    && result is Ok,
                Err(CommitError::Callback(e)) => old(self).write().stage
                    == CommitStage::Delivering && result == Err::<(), ErrorChain>(e),
                Err(CommitError::OutOfTurn) => old(self).write().stage
                    != CommitStage::Delivering,
                Err(CommitError::StaleRevision { .. }) => false,
            },
    {
        self.write.callback_returned(result)
    }

    /// How often the callback of the write operation was invoked.
    pub fn callback_invocations(&self) -> (count: usize)
        ensures
            count == self.write().invocations,
    {
        self.write.invocations()
    }
}

} // verus!
