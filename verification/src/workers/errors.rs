//! What goes wrong in a sync worker.

use vstd::prelude::*;
use vstd::string::StringExecFns;

verus! {

/// A request method that a web client cannot send.
#[derive(Debug, Clone, Copy, PartialEq, Eq, Structural)]
pub struct RequestMethodNotSupported;

/// The text of a refused request method.
pub open spec fn method_not_supported_text() -> Seq<char> {
    "Request method is not supported for an http client!"@
}

impl RequestMethodNotSupported {
    /// The error's text.
    pub fn message(&self) -> (r: String)
        ensures
            r@ == method_not_supported_text(),
    {
        String::from_str("Request method is not supported for an http client!")
    }
}

/// What goes wrong in a sync worker.
#[derive(Debug, Clone, PartialEq, Eq)]
pub enum SyncWorkerError {
    NoDataReceived,
    BuildRequestFailed(String),
    JsonParseFailed(String),
    WebRequestFailed(String),
    WebsocketConnectionFailed(String),
    ConnectionDroppedTimeout,
    OtherError(String),
    WorkerStopped,
    NoTaskAssigned,
    NoTaskReceived,
    SendTaskRequestFailed(String),
    CompleteTaskSendFailed,
    ResendTaskFailed,
    WSReadError(String),
    WSStreamDataSendFailed(String),
}

} // verus!
