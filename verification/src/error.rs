//! The ways in which a run can fail.

use vstd::prelude::*;
use vstd::string::StringExecFns;

verus! {

/// Why a run stopped. Every failure ends the run; none is retried.
#[derive(Debug, PartialEq, Eq)]
pub enum Error {
    /// A response file could not be read; `cause` is what the system said.
    Read { path: String, cause: String },
    /// The contents of a response file do not split into shell words.
    Syntax { path: String },
    /// The compiler front end is not available; `cause` is what loading it
    /// said.
    Load { cause: String },
    /// The generator could not parse the header or emit declarations; `cause`
    /// is what it said.
    Generation { cause: String },
    /// The output file could not be written; `cause` is what the system said.
    Io { cause: String },
}

/// An [`Error`] with its texts as sequences of characters.
pub enum ErrorView {
    Read { path: Seq<char>, cause: Seq<char> },
    Syntax { path: Seq<char> },
    Load { cause: Seq<char> },
    Generation { cause: Seq<char> },
    Io { cause: Seq<char> },
}

impl ErrorView {
    /// The line that tells the user which stage failed, and on which file.
    pub open spec fn message(self) -> Seq<char> {
        match self {
            ErrorView::Read { path, cause } => "reading response file "@ + path,
            ErrorView::Syntax { path } => "invalid shell syntax in "@ + path,
            ErrorView::Load { cause } => "while loading libclang"@,
            ErrorView::Generation { cause } => "while generating bindings"@,
            ErrorView::Io { cause } => "while writing the output"@,
        }
    }

    /// What the failing stage itself said. A syntax error has nothing to add
    /// to its message.
    pub open spec fn cause(self) -> Option<Seq<char>> {
        match self {
            ErrorView::Read { path, cause } => Some(cause),
            ErrorView::Syntax { path } => None,
            ErrorView::Load { cause } => Some(cause),
            ErrorView::Generation { cause } => Some(cause),
            ErrorView::Io { cause } => Some(cause),
        }
    }
}

impl View for Error {
    type V = ErrorView;

    open spec fn view(&self) -> ErrorView {
        match self {
            Error::Read { path, cause } => ErrorView::Read { path: path@, cause: cause@ },
            Error::Syntax { path } => ErrorView::Syntax { path: path@ },
            Error::Load { cause } => ErrorView::Load { cause: cause@ },
            Error::Generation { cause } => ErrorView::Generation { cause: cause@ },
            Error::Io { cause } => ErrorView::Io { cause: cause@ },
        }
    }
}

impl Error {
    /// The line that tells the user which stage failed, and on which file.
    pub fn message(&self) -> (text: String)
        ensures
            text@ == self@.message(),
    {
        match self {
            Error::Read { path, cause } => String::from_str("reading response file ").concat(
                path.as_str(),
            ),
            Error::Syntax { path } => String::from_str("invalid shell syntax in ").concat(
                path.as_str(),
            ),
            Error::Load { cause } => String::from_str("while loading libclang"),
            Error::Generation { cause } => String::from_str("while generating bindings"),
            Error::Io { cause } => String::from_str("while writing the output"),
        }
    }

    /// What the failing stage itself said. A syntax error has nothing to add
    /// to its message.
    pub fn cause(&self) -> (text: Option<String>)
        ensures
            text.is_some() == self@.cause().is_some(),
            text matches Some(t) ==> t@ == self@.cause().unwrap(),
    {
        match self {
            Error::Read { path, cause } => Some(cause.clone()),
            Error::Syntax { path } => None,
            Error::Load { cause } => Some(cause.clone()),
            Error::Generation { cause } => Some(cause.clone()),
            Error::Io { cause } => Some(cause.clone()),
        }
    }
}

} // verus!
