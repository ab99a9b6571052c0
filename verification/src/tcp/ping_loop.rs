use crate::contracts::TcpContract;
use crate::tcp::socket_ctx::{SocketConnection, SocketError};
use crate::tcp::socket_ctx_data::{DateTimeAsMicroseconds, SocketContextData};
use vstd::prelude::*;

verus! {

/// What the keepalive does when its interval has passed.
#[derive(Clone, Copy, Debug, PartialEq, Eq, Structural)]
pub enum PingStep {
    /// Write the ping frame, then report how the write ended.
    WritePing,
    /// The keepalive ends, and with it the connection. The transport is to
    /// be shut down if `shutdown` says so.
    Stop { shutdown: bool },
}

/// Whether the connection has been silent for too long at `now`: nothing was
/// read from it for more than three ping intervals. Times and the interval
/// are in microseconds.
pub open spec fn is_silent_too_long(
    now: DateTimeAsMicroseconds,
    last_read_time: DateTimeAsMicroseconds,
    ping_timeout: u64,
) -> bool {
    now - last_read_time > 3 * ping_timeout
}

/// Decides whether the connection has been silent for too long at `now`.
pub fn no_activity(
    now: DateTimeAsMicroseconds,
    last_read_time: DateTimeAsMicroseconds,
    ping_timeout: u64,
) -> (silent: bool)
    ensures
        silent == is_silent_too_long(now, last_read_time, ping_timeout),
{
    let last_incoming_delay: i128 = now as i128 - last_read_time as i128;
    let disconnect_time_out: i128 = 3 * (ping_timeout as i128);
    last_incoming_delay > disconnect_time_out
}

/// The ping frame.
pub fn ping_packet() -> (packet: TcpContract)
    ensures
        packet == TcpContract::Ping,
{
    TcpContract::Ping
}

/// One turn of the keepalive, taken each time the ping interval has passed.
/// A connection that has been silent for too long, or that was torn down
/// meanwhile, ends the keepalive and is torn down; else a ping is written.
pub fn ping_loop(
    socket_connection: &mut SocketConnection,
    now: DateTimeAsMicroseconds,
    ping_timeout: u64,
) -> (step: PingStep)
    ensures
        final(socket_connection).id == old(socket_connection).id,
        final(socket_connection).attr == old(socket_connection).attr,
        if is_silent_too_long(now, old(socket_connection).data.last_read_time, ping_timeout)
            || old(socket_connection).data.disconnected {
            &&& final(socket_connection).data == (SocketContextData {
                disconnected: true,
                ..old(socket_connection).data
            })
            &&& step == (PingStep::Stop { shutdown: !old(socket_connection).data.disconnected })
        } else {
            &&& final(socket_connection).data == old(socket_connection).data
            &&& step == PingStep::WritePing
        },
{
    let last_read_time = socket_connection.get_last_read_time();
    if no_activity(now, last_read_time, ping_timeout) {
        let shutdown = socket_connection.disconnect();
        return PingStep::Stop { shutdown };
    }
    match socket_connection.send_data_to_socket() {
        Ok(_) => PingStep::WritePing,
        Err(_) => {
            let shutdown = socket_connection.disconnect();
            PingStep::Stop { shutdown }
        },
    }
}

/// Decides whether the keepalive goes on after a ping was written: it does
/// while the writes go through.
pub fn ping_sent(send_result: &Result<(), SocketError>) -> (go_on: bool)
    ensures
        go_on == send_result is Ok,
{
    send_result.is_ok()
}

/// A connection from which a packet was read at `last_read_time` is not
/// silent for too long before three ping intervals have passed; from then on
/// it is, for good, unless something is read again.
pub proof fn lemma_keepalive_deadline(
    last_read_time: DateTimeAsMicroseconds,
    ping_timeout: u64,
    now: DateTimeAsMicroseconds,
    later: DateTimeAsMicroseconds,
)
    requires
        now <= later,
    ensures
        now <= last_read_time + 3 * ping_timeout ==> !is_silent_too_long(
            now,
            last_read_time,
            ping_timeout,
        ),
        is_silent_too_long(now, last_read_time, ping_timeout) ==> is_silent_too_long(
            later,
            last_read_time,
            ping_timeout,
        ),
        !is_silent_too_long(now, now, ping_timeout),
{
}

} // verus!
