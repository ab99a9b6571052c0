use vstd::prelude::*;

verus! {

/// What the transport reports of the connections it makes, each identified by
/// its connection id, and of what they bring.
#[derive(Debug, PartialEq, Eq)]
pub enum TcpEvent<TPacket> {
    /// The connection with this id was made.
    Connect(i64),
    /// The connection with this id is gone.
    Disconnect(i64),
    /// The current connection brought this packet.
    Packet(TPacket),
}

} // verus!
