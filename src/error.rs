use vstd::prelude::*;

verus! {

/// Every way in which talking to the host can fail.
#[derive(Debug, PartialEq)]
pub enum PluginError {
    /// The line is not a JSON-RPC 2.0 object of one of the four shapes.
    MalformedMessage,
    /// A request or a response carries no id, or a null one.
    MissingId,
    /// The id is neither an unsigned integer nor a string that reads as one.
    InvalidId,
    /// The method member is not a string.
    MissingMethod,
    /// A payload could not be turned into JSON.
    Serialization(String),
    /// The host answered a request with an error.
    RemoteError { code: i64, message: String },
    /// A reply does not belong to the call that waits for one, or no call waits.
    ProtocolViolation,
    /// Reading or writing the stream failed.
    Io(String),
    /// A lookup of the host's environment found nothing.
    EnvironmentMissing(String),
    /// Every request id has been used.
    IdsExhausted,
}

} // verus!
