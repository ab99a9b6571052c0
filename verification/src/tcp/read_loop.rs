use crate::contracts::TcpContract;
use crate::tcp::socket_ctx::SocketConnection;
use crate::tcp::socket_ctx_data::{DateTimeAsMicroseconds, SocketContextData};
use vstd::prelude::*;

verus! {

/// What the read task does after a read.
#[derive(Debug, PartialEq, Eq)]
pub enum ReadStep {
    /// Hand the packet to the engines, then read on.
    Dispatch(TcpContract),
    /// The read task ends, and with it the connection. The transport is to
    /// be shut down if `shutdown` says so.
    Stop { shutdown: bool },
}

/// One turn of the read task: takes in what a read gave. The bytes that were
/// read are counted in any case. A packet that was decoded marks the
/// connection as alive at `now` and goes on to the engines; a read that
/// failed, or bytes that are no packet, tear the connection down.
pub fn start_new(
    socket_connection: &mut SocketConnection,
    read_size: usize,
    deserialize_result: Result<TcpContract, String>,
    now: DateTimeAsMicroseconds,
) -> (step: ReadStep)
    requires
        old(socket_connection).data.read_size + read_size <= usize::MAX,
    ensures
        final(socket_connection).id == old(socket_connection).id,
        final(socket_connection).attr == old(socket_connection).attr,
        match deserialize_result {
            Ok(tcp_contract) => {
                &&& final(socket_connection).data == (SocketContextData {
                    read_size: (old(socket_connection).data.read_size + read_size) as usize,
                    last_read_time: now,
                    ..old(socket_connection).data
                })
                &&& step == ReadStep::Dispatch(tcp_contract)
            },
            Err(_) => {
                &&& final(socket_connection).data == (SocketContextData {
                    read_size: (old(socket_connection).data.read_size + read_size) as usize,
                    disconnected: true,
                    ..old(socket_connection).data
                })
                &&& step == (ReadStep::Stop { shutdown: !old(socket_connection).data.disconnected })
            },
        },
{
    socket_connection.increase_read_size(read_size);
    match deserialize_result {
        Ok(tcp_contract) => {
            socket_connection.update_last_read_time(now);
            ReadStep::Dispatch(tcp_contract)
        },
        Err(_) => {
            let shutdown = socket_connection.disconnect();
            ReadStep::Stop { shutdown }
        },
    }
}

} // verus!
