//! The library's error type.

use vstd::prelude::*;

verus! {

/// Errors reported by the library's checks and builders.
#[derive(Debug, Clone, PartialEq, Eq)]
pub enum Error {
    Validation { message: String },
    Profile { message: String },
    Encoding { message: String },
    Parse { message: String },
    Hardware { message: String },
    Analysis { message: String },
    DolbyVision(String),
    Ffmpeg { message: String },
    Io { message: String },
    Tool(String),
}

impl Error {
    pub fn validation(message: String) -> (e: Error)
        ensures
            e == (Error::Validation { message }),
    {
        Error::Validation { message }
    }

    pub fn profile(message: String) -> (e: Error)
        ensures
            e == (Error::Profile { message }),
    {
        Error::Profile { message }
    }

    pub fn ffmpeg(message: String) -> (e: Error)
        ensures
            e == (Error::Ffmpeg { message }),
    {
        Error::Ffmpeg { message }
    }

    pub fn encoding(message: String) -> (e: Error)
        ensures
            e == (Error::Encoding { message }),
    {
        Error::Encoding { message }
    }

    pub fn parse(message: String) -> (e: Error)
        ensures
            e == (Error::Parse { message }),
    {
        Error::Parse { message }
    }

    pub fn hardware(message: String) -> (e: Error)
        ensures
            e == (Error::Hardware { message }),
    {
        Error::Hardware { message }
    }

    pub fn io(message: String) -> (e: Error)
        ensures
            e == (Error::Io { message }),
    {
        Error::Io { message }
    }

    pub fn tool(message: String) -> (e: Error)
        ensures
            e == Error::Tool(message),
    {
        Error::Tool(message)
    }

    pub fn analysis(message: String) -> (e: Error)
        ensures
            e == (Error::Analysis { message }),
    {
        Error::Analysis { message }
    }
}

/// The variant of an error, without its message.
#[derive(Debug, Clone, Copy, PartialEq, Eq, Structural)]
pub enum ErrorKind {
    Validation,
    Profile,
    Encoding,
    Parse,
    Hardware,
    Analysis,
    DolbyVision,
    Ffmpeg,
    Io,
    Tool,
}

impl View for Error {
    type V = (ErrorKind, Seq<char>);

    /// An error as its variant and the characters of its message.
    open spec fn view(&self) -> (ErrorKind, Seq<char>) {
        match self {
            Error::Validation { message } => (ErrorKind::Validation, message@),
            Error::Profile { message } => (ErrorKind::Profile, message@),
            Error::Encoding { message } => (ErrorKind::Encoding, message@),
            Error::Parse { message } => (ErrorKind::Parse, message@),
            Error::Hardware { message } => (ErrorKind::Hardware, message@),
            Error::Analysis { message } => (ErrorKind::Analysis, message@),
            Error::DolbyVision(message) => (ErrorKind::DolbyVision, message@),
            Error::Ffmpeg { message } => (ErrorKind::Ffmpeg, message@),
            Error::Io { message } => (ErrorKind::Io, message@),
            Error::Tool(message) => (ErrorKind::Tool, message@),
        }
    }
}

/// A result with its error taken by its view.
pub open spec fn result_view<T>(r: core::result::Result<T, Error>) -> core::result::Result<
    T,
    (ErrorKind, Seq<char>),
> {
    match r {
        Ok(v) => Ok(v),
        Err(e) => Err(e@),
    }
}

/// Result type of the library.
pub type Result<T> = core::result::Result<T, Error>;

} // verus!
