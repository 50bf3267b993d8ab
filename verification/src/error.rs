//! Everything that can end a run early, and how a run's end is reported.

use crate::track::ParseError;
use vstd::prelude::*;
use vstd::std_specs::convert::FromSpecImpl;
use vstd::string::StringExecFns;

verus! {

/// Status of a run that streamed its track to the end.
pub const EXIT_SUCCESS: u8 = 0;

/// Status of a run that failed.
pub const EXIT_FAILURE: u8 = 1;

/// The session could not be established. `message` is the line that the
/// session layer gave for it.
#[derive(Debug, PartialEq, Eq)]
pub struct SessionError {
    pub message: String,
}

/// The credential cache could not be opened, read or written. `message` is the
/// line that the operating system gave for it.
#[derive(Debug, PartialEq, Eq)]
pub struct CacheError {
    pub message: String,
}

/// Why a run failed.
#[derive(Debug, PartialEq, Eq)]
pub enum Error {
    /// The track reference is malformed.
    SpotifyIdError(ParseError),
    /// Authentication was rejected, or the network or the protocol failed.
    SessionError(SessionError),
    /// The credential cache is unusable.
    CacheError(CacheError),
}

/// A failure as plain values.
pub enum ErrorView {
    SpotifyIdError(ParseError),
    SessionError(Seq<char>),
    CacheError(Seq<char>),
}

impl View for Error {
    type V = ErrorView;

    open spec fn view(&self) -> ErrorView {
        match *self {
            Error::SpotifyIdError(e) => ErrorView::SpotifyIdError(e),
            Error::SessionError(e) => ErrorView::SessionError(e.message@),
            Error::CacheError(e) => ErrorView::CacheError(e.message@),
        }
    }
}

/// The one line shown for a failure. A session failure is shown in the
/// session layer's own words.
pub open spec fn message_spec(e: ErrorView) -> Seq<char> {
    match e {
        ErrorView::SpotifyIdError(_) => "Can't parse <track-id>"@,
        ErrorView::SessionError(m) => m,
        ErrorView::CacheError(m) => "Can't create librespot cache: "@ + m,
    }
}

impl From<ParseError> for Error {
    fn from(e: ParseError) -> (r: Error) {
        Error::SpotifyIdError(e)
    }
}

impl FromSpecImpl<ParseError> for Error {
    open spec fn obeys_from_spec() -> bool {
        true
    }

    open spec fn from_spec(e: ParseError) -> Error {
        Error::SpotifyIdError(e)
    }
}

impl From<SessionError> for Error {
    fn from(e: SessionError) -> (r: Error) {
        Error::SessionError(e)
    }
}

impl FromSpecImpl<SessionError> for Error {
    open spec fn obeys_from_spec() -> bool {
        true
    }

    open spec fn from_spec(e: SessionError) -> Error {
        Error::SessionError(e)
    }
}

impl From<CacheError> for Error {
    fn from(e: CacheError) -> (r: Error) {
        Error::CacheError(e)
    }
}

impl FromSpecImpl<CacheError> for Error {
    open spec fn obeys_from_spec() -> bool {
        true
    }

    open spec fn from_spec(e: CacheError) -> Error {
        Error::CacheError(e)
    }
}

impl Error {
    /// The one line shown for this failure.
    pub fn message(&self) -> (r: String)
        ensures
            r@ == message_spec(self@),
    {
        match self {
            Error::SpotifyIdError(_) => String::from_str("Can't parse <track-id>"),
            Error::SessionError(e) => e.message.clone(),
            Error::CacheError(e) => String::from_str("Can't create librespot cache: ").concat(
                e.message.as_str(),
            ),
        }
    }
}

/// How a run ends, as the process shows it: its exit status, and the line for
/// the error stream if it failed.
#[derive(Debug, PartialEq, Eq)]
pub struct Report {
    pub status: u8,
    pub diagnostic: Option<String>,
}

/// A report as plain values.
pub struct ReportView {
    pub status: u8,
    pub diagnostic: Option<Seq<char>>,
}

impl View for Report {
    type V = ReportView;

    open spec fn view(&self) -> ReportView {
        ReportView {
            status: self.status,
            diagnostic: match self.diagnostic {
                Some(line) => Some(line@),
                None => None,
            },
        }
    }
}

/// The plain values of a run's outcome.
pub open spec fn outcome_view(outcome: Result<(), Error>) -> Result<(), ErrorView> {
    match outcome {
        Ok(_) => Ok(()),
        Err(e) => Err(e@),
    }
}

/// The report of an outcome: success is silent with status 0, a failure has
/// status 1 and its message.
pub open spec fn report_spec(outcome: Result<(), ErrorView>) -> ReportView {
    match outcome {
        Ok(_) => ReportView { status: EXIT_SUCCESS, diagnostic: None },
        Err(e) => ReportView { status: EXIT_FAILURE, diagnostic: Some(message_spec(e)) },
    }
}

/// Says how the process is to end for `outcome`.
pub fn report(outcome: &Result<(), Error>) -> (r: Report)
    ensures
        r@ == report_spec(outcome_view(*outcome)),
{
    match outcome {
        Ok(_) => Report { status: EXIT_SUCCESS, diagnostic: None },
        Err(e) => Report { status: EXIT_FAILURE, diagnostic: Some(e.message()) },
    }
}

} // verus!
