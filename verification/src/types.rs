//! Value types that cross the boundary of the engine, with the numbers and
//! words that stand for them outside.

use vstd::prelude::*;

verus! {

/// An immutable repository snapshot id.
pub type Revnum = u64;

/// Recursion limit for a tree operation.
#[derive(Clone, Copy, Debug, PartialEq, Eq, Structural)]
pub enum Depth {
    Empty,
    Files,
    Immediates,
    Infinity,
}

impl Depth {
    /// The number that stands for this depth outside the engine.
    pub open spec fn code(self) -> int {
        match self {
            Depth::Empty => 0,
            Depth::Files => 1,
            Depth::Immediates => 2,
            Depth::Infinity => 3,
        }
    }

    pub open spec fn spec_from_code(code: int) -> Option<Depth> {
        if code == 0 {
            Some(Depth::Empty)
        } else if code == 1 {
            Some(Depth::Files)
        } else if code == 2 {
            Some(Depth::Immediates)
        } else if code == 3 {
            Some(Depth::Infinity)
        } else {
            None
        }
    }

    pub fn to_code(self) -> (code: u8)
        ensures
            code == self.code(),
    {
        match self {
            Depth::Empty => 0,
            Depth::Files => 1,
            Depth::Immediates => 2,
            Depth::Infinity => 3,
        }
    }

    pub fn from_code(code: i64) -> (depth: Option<Depth>)
        ensures
            depth == Depth::spec_from_code(code as int),
    {
        if code == 0 {
            Some(Depth::Empty)
        } else if code == 1 {
            Some(Depth::Files)
        } else if code == 2 {
            Some(Depth::Immediates)
        } else if code == 3 {
            Some(Depth::Infinity)
        } else {
            None
        }
    }

    /// The depth that an operation runs at: unlimited, when the caller
    /// names none.
    pub open spec fn spec_or_default(depth: Option<Depth>) -> Depth {
        match depth {
            Some(d) => d,
            None => Depth::Infinity,
        }
    }

    /// The depth that an operation runs at when the caller names none.
    pub fn or_default(depth: Option<Depth>) -> (resolved: Depth)
        ensures
            resolved == Depth::spec_or_default(depth),
    {
        match depth {
            Some(d) => d,
            None => Depth::Infinity,
        }
    }

    /// Every depth is found again from its code.
    pub proof fn code_round_trip(depth: Depth)
        ensures
            Depth::spec_from_code(depth.code()) == Some(depth),
            0 <= depth.code() <= 3,
    {
    }
}

impl Default for Depth {
    fn default() -> (depth: Depth)
        ensures
            depth == Depth::Infinity,
    {
        Depth::Infinity
    }
}

/// What an existence check found at a path.
#[derive(Clone, Copy, Debug, PartialEq, Eq, Structural)]
pub enum NodeKind {
    NoNode,
    File,
    Dir,
    Symlink,
    Unknown,
}

impl NodeKind {
    /// The number that stands for this kind outside the engine.
    pub open spec fn code(self) -> int {
        match self {
            NodeKind::NoNode => 0,
            NodeKind::File => 1,
            NodeKind::Dir => 2,
            NodeKind::Symlink => 3,
            NodeKind::Unknown => 4,
        }
    }

    pub open spec fn spec_from_code(code: int) -> Option<NodeKind> {
        if code == 0 {
            Some(NodeKind::NoNode)
        } else if code == 1 {
            Some(NodeKind::File)
        } else if code == 2 {
            Some(NodeKind::Dir)
        } else if code == 3 {
            Some(NodeKind::Symlink)
        } else if code == 4 {
            Some(NodeKind::Unknown)
        } else {
            None
        }
    }

    pub fn to_code(self) -> (code: i64)
        ensures
            code == self.code(),
    {
        match self {
            NodeKind::NoNode => 0,
            NodeKind::File => 1,
            NodeKind::Dir => 2,
            NodeKind::Symlink => 3,
            NodeKind::Unknown => 4,
        }
    }

    pub fn from_code(code: i64) -> (kind: Option<NodeKind>)
        ensures
            kind == NodeKind::spec_from_code(code as int),
    {
        if code == 0 {
            Some(NodeKind::NoNode)
        } else if code == 1 {
            Some(NodeKind::File)
        } else if code == 2 {
            Some(NodeKind::Dir)
        } else if code == 3 {
            Some(NodeKind::Symlink)
        } else if code == 4 {
            Some(NodeKind::Unknown)
        } else {
            None
        }
    }

    /// Every kind is found again from its code.
    pub proof fn code_round_trip(kind: NodeKind)
        ensures
            NodeKind::spec_from_code(kind.code()) == Some(kind),
            0 <= kind.code() <= 4,
    {
    }
}

/// A revision as a caller names it: by number, by date or by a symbolic word.
#[derive(Clone, Copy, Debug, PartialEq, Eq, Structural)]
pub enum Revision {
    Unspecified,
    Number(Revnum),
    Date(i64),
    Head,
    Working,
    Base,
    Committed,
    Previous,
}

impl Revision {
    /// The revision that an operation takes when the caller names none.
    pub fn or_default(revision: Option<Revision>) -> (resolved: Revision)
        ensures
            resolved == (match revision {
                Some(r) => r,
                None => Revision::Unspecified,
            }),
    {
        match revision {
            Some(r) => r,
            None => Revision::Unspecified,
        }
    }

    /// The snapshot number, where the revision names one.
    pub fn number(self) -> (n: Option<Revnum>)
        ensures
            n == (match self {
                Revision::Number(k) => Some(k),
                _ => None,
            }),
    {
        match self {
            Revision::Number(k) => Some(k),
            _ => None,
        }
    }
}

impl Default for Revision {
    fn default() -> (revision: Revision)
        ensures
            revision == Revision::Unspecified,
    {
        Revision::Unspecified
    }
}

/// The line ending that an export writes.
#[derive(Clone, Copy, Debug, PartialEq, Eq, Structural)]
pub enum NativeEOL {
    Standard,
    LF,
    CR,
    CRLF,
}

/// Why a caller's configuration was turned down.
#[derive(Clone, Copy, Debug, PartialEq, Eq, Structural)]
pub enum ConfigError {
    /// The word for the line ending is none of the three that are known.
    UnknownNativeEol,
}

impl ConfigError {
    pub fn message(self) -> (text: String)
        ensures
            text@ == "native_eol must be one of 'LF', 'CR', 'CRLF' or None"@,
    {
        "native_eol must be one of 'LF', 'CR', 'CRLF' or None".to_owned()
    }
}

impl NativeEOL {
    /// What a word for a line ending means. No word means the standard
    /// ending; a word that is not known means nothing.
    pub open spec fn spec_parse(word: Option<Seq<char>>) -> Option<NativeEOL> {
        match word {
            None => Some(NativeEOL::Standard),
            Some(w) => if w == "LF"@ {
                Some(NativeEOL::LF)
            } else if w == "CR"@ {
                Some(NativeEOL::CR)
            } else if w == "CRLF"@ {
                Some(NativeEOL::CRLF)
            } else {
                None
            },
        }
    }

    /// Reads the word for a line ending. An unknown word is an error, never
    /// the standard ending.
    pub fn parse(word: Option<&str>) -> (parsed: Result<NativeEOL, ConfigError>)
        ensures
            match NativeEOL::spec_parse(
                match word {
                    Some(w) => Some(w@),
                    None => None,
                },
            ) {
                Some(eol) => parsed == Ok::<NativeEOL, ConfigError>(eol),
                None => parsed == Err::<NativeEOL, ConfigError>(ConfigError::UnknownNativeEol),
            },
    {
        match word {
            None => Ok(NativeEOL::Standard),
            Some(w) => {
                let given: String = w.to_owned();
                let lf: String = "LF".to_owned();
                let cr: String = "CR".to_owned();
                let crlf: String = "CRLF".to_owned();
                if given == lf {
                    Ok(NativeEOL::LF)
                } else if given == cr {
                    Ok(NativeEOL::CR)
                } else if given == crlf {
                    Ok(NativeEOL::CRLF)
                } else {
                    Err(ConfigError::UnknownNativeEol)
                }
            },
        }
    }
}

impl Default for NativeEOL {
    fn default() -> (eol: NativeEOL)
        ensures
            eol == NativeEOL::Standard,
    {
        NativeEOL::Standard
    }
}

/// The result of a successful write.
#[derive(Clone, Debug)]
pub struct CommitInfo {
    pub revision: Revnum,
    pub date: String,
    pub author: String,
    pub post_commit_err: Option<String>,
}

/// What a commit result holds, as plain values.
pub struct CommitInfoView {
    pub revision: nat,
    pub date: Seq<char>,
    pub author: Seq<char>,
    pub post_commit_err: Option<Seq<char>>,
}

pub open spec fn opt_text(text: Option<String>) -> Option<Seq<char>> {
    match text {
        Some(t) => Some(t@),
        None => None,
    }
}

impl View for CommitInfo {
    type V = CommitInfoView;

    open spec fn view(&self) -> CommitInfoView {
        CommitInfoView {
            revision: self.revision as nat,
            date: self.date@,
            author: self.author@,
            post_commit_err: opt_text(self.post_commit_err),
        }
    }
}

impl CommitInfo {
    pub fn new(revision: Revnum, date: String, author: String, post_commit_err: Option<String>) -> (info: CommitInfo)
        ensures
            info.revision == revision,
            info.date == date,
            info.author == author,
            info.post_commit_err == post_commit_err,
    {
        CommitInfo { revision, date, author, post_commit_err }
    }

    pub fn revision(&self) -> (revision: Revnum)
        ensures
            revision == self.revision,
    {
        self.revision
    }

    pub fn date(&self) -> (date: &str)
        ensures
            date@ == self.date@,
    {
        self.date.as_str()
    }

    pub fn author(&self) -> (author: &str)
        ensures
            author@ == self.author@,
    {
        self.author.as_str()
    }

    /// The warning that the commit left behind, if any. It does not undo
    /// the commit.
    pub fn post_commit_err(&self) -> (warning: Option<&str>)
        ensures
            match warning {
                Some(w) => self.post_commit_err.is_some() && w@ == self.post_commit_err.unwrap()@,
                None => self.post_commit_err.is_none(),
            },
    {
        match &self.post_commit_err {
            Some(w) => Some(w.as_str()),
            None => None,
        }
    }

    /// An independent copy that the receiver may keep.
    pub fn dup(&self) -> (copy: CommitInfo)
        ensures
            copy@ == self@,
    {
        CommitInfo {
            revision: self.revision,
            date: self.date.clone(),
            author: self.author.clone(),
            post_commit_err: match &self.post_commit_err {
                Some(w) => Some(w.clone()),
                None => None,
            },
        }
    }
}

/// The metadata of one directory entry, as it was when it was read.
#[derive(Debug)]
pub struct Dirent {
    pub kind: NodeKind,
    pub size: i64,
    pub has_props: bool,
    pub created_rev: Revnum,
    pub time: i64,
    pub last_author: Option<String>,
}

impl Dirent {
    /// An independent copy that the receiver may keep.
    pub fn dup(&self) -> (copy: Dirent)
        ensures
            copy.kind == self.kind,
            copy.size == self.size,
            copy.has_props == self.has_props,
            copy.created_rev == self.created_rev,
            copy.time == self.time,
            opt_text(copy.last_author) == opt_text(self.last_author),
    {
        Dirent {
            kind: self.kind,
            size: self.size,
            has_props: self.has_props,
            created_rev: self.created_rev,
            time: self.time,
            last_author: match &self.last_author {
                Some(a) => Some(a.clone()),
                None => None,
            },
        }
    }
}

} // verus!
