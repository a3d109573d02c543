//! The records sent to the front end's log views.
use vstd::prelude::*;

verus! {

/// A log entry with an attached block of data.
#[derive(Clone, Debug)]
pub struct RichLog {
    pub message: String,
    pub data: String,
    pub timestamp: String,
    pub level: String,
}

/// A one-line log entry, tagged with the id of what it reports on.
#[derive(Clone, Debug)]
pub struct SimpleLog {
    pub message: String,
    pub timestamp: String,
    pub level: String,
    pub id: Option<String>,
}

impl RichLog {
    /// The entry for `message` with `data`, stamped `timestamp`.
    pub fn new(message: String, data: String, level: String, timestamp: String) -> (r: RichLog)
        ensures
            r.message == message,
            r.data == data,
            r.level == level,
            r.timestamp == timestamp,
    {
        RichLog { message, data, timestamp, level }
    }
}

impl SimpleLog {
    /// The entry for `message` about `id`, stamped `timestamp`.
    pub fn new(message: String, id: String, level: String, timestamp: String) -> (r: SimpleLog)
        ensures
            r.message == message,
            r.id == Some(id),
            r.level == level,
            r.timestamp == timestamp,
    {
        SimpleLog { message, timestamp, level, id: Some(id) }
    }
}

} // verus!
