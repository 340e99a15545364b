//! The ways in which a call can fail, and the message that the host is given.

use vstd::prelude::*;

verus! {

/// The step of a fetch at which the transport failed.
#[derive(Clone, Copy, Debug, PartialEq, Eq, Structural)]
pub enum NetworkStage {
    /// The HTTP client could not be set up.
    BuildClient,
    /// The request could not be sent, or no response came back in time.
    SendRequest,
    /// The response body could not be read to its end.
    ReadBody,
}

/// Why a call failed. Every failure ends the call that met it.
#[derive(Clone, Debug, PartialEq, Eq)]
pub enum ErrorKind {
    /// The transport failed at `stage`; `cause` describes how.
    NetworkError { stage: NetworkStage, cause: String },
    /// The response declared a content type that is not accepted.
    UnsupportedFormatError { content_type: String },
    /// The directory could not be opened for listing.
    DirectoryAccessError { cause: String },
}

/// The words that open the message of a transport failure at `stage`.
pub open spec fn stage_prefix(stage: NetworkStage) -> Seq<char> {
    match stage {
        NetworkStage::BuildClient => "Failed to build HTTP client: "@,
        NetworkStage::SendRequest => "Failed to send request: "@,
        NetworkStage::ReadBody => "Failed to read audio response: "@,
    }
}

impl ErrorKind {
    /// The message of this error: a fixed opening, then the cause or the
    /// rejected content type.
    pub open spec fn message_text(self) -> Seq<char> {
        match self {
            ErrorKind::NetworkError { stage, cause } => stage_prefix(stage) + cause@,
            ErrorKind::UnsupportedFormatError { content_type } => "Unsupported audio format: "@
                + content_type@,
            ErrorKind::DirectoryAccessError { cause } => "Failed to read directory: "@ + cause@,
        }
    }

    /// The message handed to the host in place of the error.
    pub fn message(&self) -> (text: String)
        ensures
            text@ == self.message_text(),
    {
        match self {
            ErrorKind::NetworkError { stage, cause } => {
                let opening = match stage {
                    NetworkStage::BuildClient => "Failed to build HTTP client: ",
                    NetworkStage::SendRequest => "Failed to send request: ",
                    NetworkStage::ReadBody => "Failed to read audio response: ",
                };
                String::from_str(opening).concat(cause.as_str())
            },
            ErrorKind::UnsupportedFormatError { content_type } => {
                String::from_str("Unsupported audio format: ").concat(content_type.as_str())
            },
            ErrorKind::DirectoryAccessError { cause } => {
                String::from_str("Failed to read directory: ").concat(cause.as_str())
            },
        }
    }
}

} // verus!
