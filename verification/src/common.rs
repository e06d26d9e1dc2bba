//! The error chain of the engine and its passage to and from the exceptions
//! that consumer code raises.

use vstd::prelude::*;

verus! {

/// The status code of an error that says no more than that something failed.
pub const STATUS_GENERAL: u32 = 20014;

/// One failure with the failure that caused it, if one is known.
#[derive(Debug)]
pub struct ErrorChain {
    pub message: String,
    pub status_code: u32,
    pub cause: Option<Box<ErrorChain>>,
    /// The file and line at which the failure was raised.
    pub origin: Option<(String, u32)>,
}

/// One link of an error chain, as plain values.
pub struct ErrorLink {
    pub message: Seq<char>,
    pub status_code: u32,
    pub origin: Option<(Seq<char>, u32)>,
}

/// What consumer code raised: an exception of the engine's own kind, which
/// carries the parts of an error link and may name a child, or anything
/// else, of which only its text is known.
#[derive(Debug)]
pub enum RaisedException {
    Subversion {
        message: String,
        status_code: u32,
        child: Option<Box<RaisedException>>,
        location: Option<(String, u32)>,
    },
    Foreign { text: String },
}

pub open spec fn origin_view(origin: Option<(String, u32)>) -> Option<(Seq<char>, u32)> {
    match origin {
        Some((file, line)) => Some((file@, line)),
        None => None,
    }
}

impl ErrorChain {
    /// The outermost link.
    pub open spec fn head(self) -> ErrorLink {
        ErrorLink {
            message: self.message@,
            status_code: self.status_code,
            origin: origin_view(self.origin),
        }
    }

    /// The chain as a sequence of links, the outermost first.
    pub open spec fn links(self) -> Seq<ErrorLink>
        decreases self,
    {
        match self.cause {
            Some(cause) => seq![self.head()] + cause.links(),
            None => seq![self.head()],
        }
    }

    /// A chain always holds its own link.
    pub proof fn links_nonempty(self)
        ensures
            self.links().len() >= 1,
            self.links()[0] == self.head(),
        decreases self,
    {
        match self.cause {
            Some(cause) => {
                cause.links_nonempty();
            },
            None => {},
        }
    }

    /// A failure with the given cause and no recorded origin.
    pub fn new(status_code: u32, cause: Option<ErrorChain>, message: &str) -> (err: ErrorChain)
        ensures
            err.links() == (match cause {
                Some(c) => seq![
                    ErrorLink { message: message@, status_code, origin: None },
                ] + c.links(),
                None => seq![ErrorLink { message: message@, status_code, origin: None }],
            }),
    {
        let cause = match cause {
            Some(c) => Some(Box::new(c)),
            None => None,
        };
        ErrorChain { message: message.to_owned(), status_code, cause, origin: None }
    }

    /// A general failure that carries only a message.
    pub fn from_message(message: &str) -> (err: ErrorChain)
        ensures
            err.links() == seq![
                ErrorLink { message: message@, status_code: STATUS_GENERAL, origin: None },
            ],
    {
        ErrorChain {
            message: message.to_owned(),
            status_code: STATUS_GENERAL,
            cause: None,
            origin: None,
        }
    }

    /// An independent copy that the receiver may keep.
    pub fn dup(&self) -> (copy: ErrorChain)
        ensures
            copy.links() == self.links(),
        decreases self,
    {
        let cause = match &self.cause {
            Some(c) => Some(Box::new(c.dup())),
            None => None,
        };
        let origin = match &self.origin {
            Some((file, line)) => Some((file.clone(), *line)),
            None => None,
        };
        ErrorChain { message: self.message.clone(), status_code: self.status_code, cause, origin }
    }
}

/// A link without the place at which it was raised.
pub open spec fn without_origin(link: ErrorLink) -> ErrorLink {
    ErrorLink { message: link.message, status_code: link.status_code, origin: None }
}

impl RaisedException {
    /// The error links that the exception stands for, the outermost first.
    /// An exception of the engine's kind gives its message and code and
    /// then the links of its child; anything else gives one general link
    /// with its text. The location is not carried over.
    pub open spec fn links(self) -> Seq<ErrorLink>
        decreases self,
    {
        match self {
            RaisedException::Subversion { message, status_code, child, location } => {
                let head = ErrorLink { message: message@, status_code, origin: None };
                match child {
                    Some(c) => seq![head] + c.links(),
                    None => seq![head],
                }
            },
            RaisedException::Foreign { text } => seq![
                ErrorLink { message: text@, status_code: STATUS_GENERAL, origin: None },
            ],
        }
    }

    /// The links with the location of each, for an exception that holds
    /// none but those of the engine's kind.
    pub open spec fn located_links(self) -> Seq<ErrorLink>
        decreases self,
    {
        match self {
            RaisedException::Subversion { message, status_code, child, location } => {
                let head = ErrorLink { message: message@, status_code, origin: origin_view(location) };
                match child {
                    Some(c) => seq![head] + c.located_links(),
                    None => seq![head],
                }
            },
            RaisedException::Foreign { text } => seq![
                ErrorLink { message: text@, status_code: STATUS_GENERAL, origin: None },
            ],
        }
    }

    /// Whether every exception in it is of the engine's kind.
    pub open spec fn all_subversion(self) -> bool
        decreases self,
    {
        match self {
            RaisedException::Subversion { message, status_code, child, location } => match child {
                Some(c) => c.all_subversion(),
                None => true,
            },
            RaisedException::Foreign { text } => false,
        }
    }
}

/// Turns an error chain into the exception that is raised to consumer code:
/// one exception of the engine's kind per link, with the link's message,
/// code and origin, each naming the next as its child.
pub fn map_svn_error_to_py_err(err: &ErrorChain) -> (raised: RaisedException)
    ensures
        raised.all_subversion(),
        raised.located_links() == err.links(),
    decreases err,
{
    let child = match &err.cause {
        Some(c) => Some(Box::new(map_svn_error_to_py_err(c))),
        None => None,
    };
    let location = match &err.origin {
        Some((file, line)) => Some((file.clone(), *line)),
        None => None,
    };
    RaisedException::Subversion {
        message: err.message.clone(),
        status_code: err.status_code,
        child,
        location,
    }
}

/// Turns what consumer code raised into an error chain. An exception of the
/// engine's kind keeps its message, its code and its child; its location is
/// dropped. Anything else becomes one general failure with its text.
pub fn map_py_object_to_svn_err(py_err: &RaisedException) -> (err: ErrorChain)
    ensures
        err.links() == py_err.links(),
    decreases py_err,
{
    match py_err {
        RaisedException::Subversion { message, status_code, child, location } => {
            let cause = match child {
                Some(c) => Some(Box::new(map_py_object_to_svn_err(c))),
                None => None,
            };
            ErrorChain {
                message: message.clone(),
                status_code: *status_code,
                cause,
                origin: None,
            }
        },
        RaisedException::Foreign { text } => ErrorChain {
            message: text.clone(),
            status_code: STATUS_GENERAL,
            cause: None,
            origin: None,
        },
    }
}

/// As `map_py_object_to_svn_err`, for an exception that the caller gives up.
pub fn map_py_err_to_svn_err(py_err: RaisedException) -> (err: ErrorChain)
    ensures
        err.links() == py_err.links(),
{
    map_py_object_to_svn_err(&py_err)
}

/// An exception of the engine's kind loses only its locations on the way to
/// an error chain.
pub proof fn links_forget_locations(raised: RaisedException)
    requires
        raised.all_subversion(),
    ensures
        raised.links() == raised.located_links().map_values(|l: ErrorLink| without_origin(l)),
    decreases raised,
{
    match raised {
        RaisedException::Subversion { message, status_code, child, location } => {
            let head = ErrorLink { message: message@, status_code, origin: origin_view(location) };
            match child {
                Some(c) => {
                    links_forget_locations(*c);
                    assert(raised.links() =~= (seq![head] + c.located_links()).map_values(
                        |l: ErrorLink| without_origin(l),
                    ));
                },
                None => {
                    assert(raised.links() =~= seq![head].map_values(
                        |l: ErrorLink| without_origin(l),
                    ));
                },
            }
        },
        RaisedException::Foreign { text } => {},
    }
}

/// An error chain that is raised to consumer code and caught again comes
/// back link for link, with every message, code and cause, and without the
/// origins.
pub proof fn error_round_trip(err: ErrorChain, raised: RaisedException, back: ErrorChain)
    requires
        raised.all_subversion(),
        raised.located_links() == err.links(),
        back.links() == raised.links(),
    ensures
        back.links() == err.links().map_values(|l: ErrorLink| without_origin(l)),
        back.links().len() == err.links().len(),
{
    links_forget_locations(raised);
}

/// The bytes of a stream that consumer code handed over. An object that
/// held no bytes is turned down with an exception of the engine's kind.
pub fn stream_from_object(bytes: Option<Vec<u8>>) -> (stream: Result<Vec<u8>, RaisedException>)
    ensures
        match bytes {
            Some(b) => stream.is_ok() && stream.unwrap() == b,
            None => stream.is_err() && stream.unwrap_err().all_subversion()
                && stream.unwrap_err().located_links() == seq![
                ErrorLink {
                    message: "Invalid stream object"@,
                    status_code: STATUS_GENERAL,
                    origin: None,
                },
            ],
        },
{
    match bytes {
        Some(b) => Ok(b),
        None => Err(
            RaisedException::Subversion {
                message: "Invalid stream object".to_owned(),
                status_code: STATUS_GENERAL,
                child: None,
                location: None,
            },
        ),
    }
}

} // verus!
