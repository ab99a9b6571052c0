use vstd::prelude::*;

verus! {

/// A point in time, in microseconds since the epoch.
pub type DateTimeAsMicroseconds = i64;

/// What is kept of a connection while it lives: when it was last read from
/// and written to, how many bytes went each way, and whether it was torn
/// down.
#[derive(Clone, Copy, Debug, PartialEq, Eq, Structural)]
pub struct SocketContextData {
    pub last_write_time: DateTimeAsMicroseconds,
    pub last_read_time: DateTimeAsMicroseconds,
    pub read_size: usize,
    pub write_size: usize,
    pub disconnected: bool,
}

impl SocketContextData {
    /// The data of a connection that was made at `now`: nothing was read or
    /// written, and it is not torn down.
    pub fn new(now: DateTimeAsMicroseconds) -> (data: Self)
        ensures
            data == (SocketContextData {
                last_write_time: now,
                last_read_time: now,
                read_size: 0,
                write_size: 0,
                disconnected: false,
            }),
    {
        Self {
            last_write_time: now,
            last_read_time: now,
            disconnected: false,
            read_size: 0,
            write_size: 0,
        }
    }

    /// Marks the connection as torn down and tells whether the transport is
    /// to be shut down now: it is the first time only.
    pub fn disconnect(&mut self) -> (shutdown: bool)
        ensures
            *final(self) == (SocketContextData { disconnected: true, ..*old(self) }),
            shutdown == !old(self).disconnected,
    {
        if self.disconnected {
            return false;
        }
        self.disconnected = true;
        true
    }
}

} // verus!
