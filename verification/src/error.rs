//! The error type shared by every fallible operation of the crate.

use crate::credentials::CredentialsFailure;
use crate::text::chain;
use vstd::prelude::*;
use vstd::string::*;

verus! {

broadcast use vstd::string::group_string_axioms;

/// Why an operation failed. Variants that stand for a failure raised outside
/// this crate carry that failure's text.
#[derive(Debug, PartialEq, Eq)]
#[non_exhaustive]
pub enum ServerError {
    /// A precondition of the call does not hold: missing credentials, a
    /// missing save, the wrong status, no PID.
    NotAllowed(String),
    /// A filesystem or stream failure.
    IO(String),
    /// The remote console refused or dropped the connection.
    Rcon(String),
    /// The log line channel closed or lagged.
    TokioRecv(String),
    /// Bytes that should be text are not UTF-8.
    Utf8Error(),
    /// A log line could not be handed on.
    TrackerSendError(String),
    /// The status channel has no receiver left.
    WatchChannelSendError(String),
    /// The status channel has no sender left.
    WatchChannelRecvError(String),
    /// Text that should be an integer is not; carries the text.
    ParseIntError(String),
    /// An HTTP transport failure or a non-2xx status.
    ReqwestError(String),
    /// A malformed archive.
    ZipError(String),
    /// The login endpoint refused the login.
    CredentialsFailure(CredentialsFailure),
    /// JSON could not be written or read.
    SerdeJsonError(String),
    /// The instance's pidfile names a live process.
    AlreadyRunningError,
    /// The fetch that this call waited for has failed.
    InFlightError,
    /// A download or an extraction found something it cannot use.
    DownloadError(String),
    /// Text that should be a version is not `major.minor.patch`.
    InvalidVersionFormat(String),
}

impl ServerError {
    /// What the error says.
    pub open spec fn message(self) -> Seq<char> {
        match self {
            ServerError::NotAllowed(text) => "function not allowed for current Status: "@ + text@,
            ServerError::IO(text) => "io error: "@ + text@,
            ServerError::Rcon(text) => "rcon error: "@ + text@,
            ServerError::TokioRecv(text) => "tokio recv error: "@ + text@,
            ServerError::Utf8Error() => "utf-8 error"@,
            ServerError::TrackerSendError(text) => "send error: "@ + text@,
            ServerError::WatchChannelSendError(text) => "watch status channel send error: "@
                + text@,
            ServerError::WatchChannelRecvError(text) => "watch status channel recv error: "@
                + text@,
            ServerError::ParseIntError(text) => "parse int error: "@ + text@,
            ServerError::ReqwestError(text) => "ReqwestError: "@ + text@,
            ServerError::ZipError(text) => "ZipError: "@ + text@,
            ServerError::CredentialsFailure(failure) => "CredentialsFailure: "@ + (
            "error: "@ + failure.error@ + ", message: "@ + failure.message@),
            ServerError::SerdeJsonError(text) => "SerdeJsonError: "@ + text@,
            ServerError::AlreadyRunningError => "the instance is already running"@,
            ServerError::InFlightError => "the fetch that was waited for has failed"@,
            ServerError::DownloadError(text) => "download error: "@ + text@,
            ServerError::InvalidVersionFormat(text) => "invalid version format: "@ + text@,
        }
    }

    /// What the error says.
    pub fn to_string(&self) -> (text: String)
        ensures
            text@ == self.message(),
    {
        match self {
            ServerError::NotAllowed(text) => chain(
                "function not allowed for current Status: ",
                text.as_str(),
            ),
            ServerError::IO(text) => chain("io error: ", text.as_str()),
            ServerError::Rcon(text) => chain("rcon error: ", text.as_str()),
            ServerError::TokioRecv(text) => chain("tokio recv error: ", text.as_str()),
            ServerError::Utf8Error() => String::from_str("utf-8 error"),
            ServerError::TrackerSendError(text) => chain("send error: ", text.as_str()),
            ServerError::WatchChannelSendError(text) => chain(
                "watch status channel send error: ",
                text.as_str(),
            ),
            ServerError::WatchChannelRecvError(text) => chain(
                "watch status channel recv error: ",
                text.as_str(),
            ),
            ServerError::ParseIntError(text) => chain("parse int error: ", text.as_str()),
            ServerError::ReqwestError(text) => chain("ReqwestError: ", text.as_str()),
            ServerError::ZipError(text) => chain("ZipError: ", text.as_str()),
            ServerError::CredentialsFailure(failure) => chain(
                "CredentialsFailure: ",
                failure.to_string().as_str(),
            ),
            ServerError::SerdeJsonError(text) => chain("SerdeJsonError: ", text.as_str()),
            ServerError::AlreadyRunningError => String::from_str("the instance is already running"),
            ServerError::InFlightError => String::from_str(
                "the fetch that was waited for has failed",
            ),
            ServerError::DownloadError(text) => chain("download error: ", text.as_str()),
            ServerError::InvalidVersionFormat(text) => chain(
                "invalid version format: ",
                text.as_str(),
            ),
        }
    }

    /// The error is `NotAllowed` with the given text.
    pub open spec fn is_not_allowed(self, text: Seq<char>) -> bool {
        self matches ServerError::NotAllowed(t) && t@ == text
    }

    /// The error is `ParseIntError` with the given text.
    pub open spec fn is_parse_int_error(self, text: Seq<char>) -> bool {
        self matches ServerError::ParseIntError(t) && t@ == text
    }

    /// The error is `DownloadError` with the given text.
    pub open spec fn is_download_error(self, text: Seq<char>) -> bool {
        self matches ServerError::DownloadError(t) && t@ == text
    }
}

impl Clone for ServerError {
    fn clone(&self) -> (copy: Self)
        ensures
            copy == *self,
    {
        match self {
            ServerError::NotAllowed(text) => ServerError::NotAllowed(text.clone()),
            ServerError::IO(text) => ServerError::IO(text.clone()),
            ServerError::Rcon(text) => ServerError::Rcon(text.clone()),
            ServerError::TokioRecv(text) => ServerError::TokioRecv(text.clone()),
            ServerError::Utf8Error() => ServerError::Utf8Error(),
            ServerError::TrackerSendError(text) => ServerError::TrackerSendError(text.clone()),
            ServerError::WatchChannelSendError(text) => ServerError::WatchChannelSendError(
                text.clone(),
            ),
            ServerError::WatchChannelRecvError(text) => ServerError::WatchChannelRecvError(
                text.clone(),
            ),
            ServerError::ParseIntError(text) => ServerError::ParseIntError(text.clone()),
            ServerError::ReqwestError(text) => ServerError::ReqwestError(text.clone()),
            ServerError::ZipError(text) => ServerError::ZipError(text.clone()),
            ServerError::CredentialsFailure(failure) => ServerError::CredentialsFailure(
                failure.clone(),
            ),
            ServerError::SerdeJsonError(text) => ServerError::SerdeJsonError(text.clone()),
            ServerError::AlreadyRunningError => ServerError::AlreadyRunningError,
            ServerError::InFlightError => ServerError::InFlightError,
            ServerError::DownloadError(text) => ServerError::DownloadError(text.clone()),
            ServerError::InvalidVersionFormat(text) => ServerError::InvalidVersionFormat(
                text.clone(),
            ),
        }
    }
}

} // verus!
