use crate::contracts::{get_connection_attrs, ConnectionAttributes, ConnectionId};
use crate::contracts::{TcpMessageType, NEW_MESSAGES_PACKET_VERSION, PROTOCOL_VERSION};
use crate::tcp::socket_ctx_data::{DateTimeAsMicroseconds, SocketContextData};
use vstd::prelude::*;

verus! {

/// Why nothing more can be written to a connection.
#[derive(Clone, Debug, PartialEq, Eq)]
pub enum SocketError {
    /// The connection was torn down before the write.
    Disconnected { socket_id: ConnectionId },
    /// The transport failed to write; the connection is torn down for it.
    WriteFailed { socket_id: ConnectionId, reason: String },
}

/// How a write to a connection ended, and what follows from it.
#[derive(Debug, PartialEq, Eq)]
pub struct SendOutcome {
    /// What the one who asked for the write is told.
    pub result: Result<(), SocketError>,
    /// Whether the transport is to be shut down now.
    pub shutdown: bool,
}

/// One transport session as the engine sees it: its id, its packet-version
/// table and its running data. The transport itself is elsewhere.
#[derive(Clone, Debug)]
pub struct SocketConnection {
    pub id: ConnectionId,
    pub attr: ConnectionAttributes,
    pub data: SocketContextData,
}

impl SocketConnection {
    /// The connection `id`, made at `now`, with the table that every
    /// connection of this client is opened with.
    pub fn new(id: ConnectionId, now: DateTimeAsMicroseconds) -> (connection: Self)
        ensures
            connection.id == id,
            connection.attr.spec_protocol_version() == PROTOCOL_VERSION,
            connection.attr.versions() == Map::<TcpMessageType, i32>::empty().insert(
                TcpMessageType::NewMessages,
                NEW_MESSAGES_PACKET_VERSION,
            ),
            connection.data == (SocketContextData {
                last_write_time: now,
                last_read_time: now,
                read_size: 0,
                write_size: 0,
                disconnected: false,
            }),
    {
        Self { id, attr: get_connection_attrs(), data: SocketContextData::new(now) }
    }

    /// When a whole packet was last read from the connection.
    pub fn get_last_read_time(&self) -> (time: DateTimeAsMicroseconds)
        ensures
            time == self.data.last_read_time,
    {
        self.data.last_read_time
    }

    /// Whether the connection was torn down.
    pub fn disconnected(&self) -> (disconnected: bool)
        ensures
            disconnected == self.data.disconnected,
    {
        self.data.disconnected
    }

    /// Tears the connection down and tells whether the transport is to be
    /// shut down now: it is the first time only.
    pub fn disconnect(&mut self) -> (shutdown: bool)
        ensures
            final(self).id == old(self).id,
            final(self).attr == old(self).attr,
            final(self).data == (SocketContextData { disconnected: true, ..old(self).data }),
            shutdown == !old(self).data.disconnected,
    {
        self.data.disconnect()
    }

    /// Whether `size` more bytes can be counted as read.
    pub fn can_count_read(&self, size: usize) -> (possible: bool)
        ensures
            possible == (self.data.read_size + size <= usize::MAX),
    {
        size <= usize::MAX - self.data.read_size
    }

    /// Whether `size` more bytes can be counted as written.
    pub fn can_count_written(&self, size: usize) -> (possible: bool)
        ensures
            possible == (self.data.write_size + size <= usize::MAX),
    {
        size <= usize::MAX - self.data.write_size
    }

    /// Counts `size` more bytes as read.
    pub fn increase_read_size(&mut self, size: usize)
        requires
            old(self).data.read_size + size <= usize::MAX,
        ensures
            final(self).id == old(self).id,
            final(self).attr == old(self).attr,
            final(self).data == (SocketContextData {
                read_size: (old(self).data.read_size + size) as usize,
                ..old(self).data
            }),
    {
        self.data.read_size += size;
    }

    /// Records that a whole packet was read at `now`.
    pub fn update_last_read_time(&mut self, now: DateTimeAsMicroseconds)
        ensures
            final(self).id == old(self).id,
            final(self).attr == old(self).attr,
            final(self).data == (SocketContextData { last_read_time: now, ..old(self).data }),
    {
        self.data.last_read_time = now;
    }

    /// Decides whether a payload may be written: not to a connection that
    /// was torn down.
    pub fn send_data_to_socket(&self) -> (go: Result<(), SocketError>)
        ensures
            match go {
                Ok(_) => !self.data.disconnected,
                Err(error) => self.data.disconnected && error == (SocketError::Disconnected {
                    socket_id: self.id,
                }),
            },
    {
        if self.data.disconnected {
            return Err(SocketError::Disconnected { socket_id: self.id });
        }
        Ok(())
    }

    /// Takes in how the write of `payload_len` bytes ended. A write that
    /// went through is counted and timed. A write that failed, with
    /// `write_error` as the reason, tears the connection down.
    pub fn data_sent(
        &mut self,
        payload_len: usize,
        write_error: Option<String>,
        now: DateTimeAsMicroseconds,
    ) -> (outcome: SendOutcome)
        requires
            write_error is None ==> old(self).data.write_size + payload_len <= usize::MAX,
        ensures
            final(self).id == old(self).id,
            final(self).attr == old(self).attr,
            match write_error {
                None => {
                    &&& final(self).data == (SocketContextData {
                        last_write_time: now,
                        write_size: (old(self).data.write_size + payload_len) as usize,
                        ..old(self).data
                    })
                    &&& outcome.result is Ok
                    &&& !outcome.shutdown
                },
                Some(reason) => {
                    &&& final(self).data == (SocketContextData {
                        disconnected: true,
                        ..old(self).data
                    })
                    &&& outcome.result == Err::<(), SocketError>(
                        SocketError::WriteFailed { socket_id: old(self).id, reason },
                    )
                    &&& outcome.shutdown == !old(self).data.disconnected
                },
            },
    {
        match write_error {
            None => {
                self.data.last_write_time = now;
                self.data.write_size += payload_len;
                SendOutcome { result: Ok(()), shutdown: false }
            },
            Some(reason) => {
                let shutdown = self.data.disconnect();
                SendOutcome {
                    result: Err(SocketError::WriteFailed { socket_id: self.id, reason }),
                    shutdown,
                }
            },
        }
    }
}

} // verus!
