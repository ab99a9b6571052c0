pub mod log_event;

pub use log_event::{LogType, MySbClientLogEvent};
