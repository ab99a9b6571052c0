use vstd::prelude::*;

verus! {

/// How grave a log event is.
#[derive(Clone, Copy, Debug, PartialEq, Eq, Structural)]
pub enum LogType {
    Info,
    Error,
    FatalError,
}

/// One event for the log of the client.
#[derive(Clone, Debug, PartialEq, Eq)]
pub struct MySbClientLogEvent {
    pub log_type: LogType,
    pub process: String,
    pub message: String,
    pub context: Option<String>,
}

} // verus!
