use crate::contracts::{
    contract_views,
    TcpContract,
    TcpContractView,
    TcpMessageType,
    NEW_MESSAGES_PACKET_VERSION,
    PROTOCOL_VERSION,
};
use vstd::prelude::*;
use vstd::string::StringExecFns;

verus! {

/// The name under which the client greets the broker: the application's
/// name, a colon, its version, a semicolon, and the version of the client.
pub open spec fn greeting_name(
    app_name: Seq<char>,
    app_version: Seq<char>,
    client_version: Seq<char>,
) -> Seq<char> {
    app_name + ":"@ + app_version + ";"@ + client_version
}

/// The greeting of the client.
pub open spec fn greeting(
    app_name: Seq<char>,
    app_version: Seq<char>,
    client_version: Seq<char>,
) -> TcpContractView {
    TcpContractView::Greeting {
        name: greeting_name(app_name, app_version, client_version),
        protocol_version: PROTOCOL_VERSION,
    }
}

/// The packet versions that the client asks for.
pub open spec fn packet_versions() -> TcpContractView {
    TcpContractView::PacketVersions {
        packet_versions: seq![(TcpMessageType::NewMessages, NEW_MESSAGES_PACKET_VERSION)],
    }
}

/// What a new connection is told, in this order: the greeting, the packet
/// versions, the declarations of the topics, the subscriptions.
pub open spec fn handshake(
    app_name: Seq<char>,
    app_version: Seq<char>,
    client_version: Seq<char>,
    declarations: Seq<TcpContractView>,
    subscriptions: Seq<TcpContractView>,
) -> Seq<TcpContractView> {
    seq![greeting(app_name, app_version, client_version), packet_versions()] + declarations
        + subscriptions
}

/// Builds the greeting of the client.
pub fn send_greeting(app_name: &str, app_version: &str, client_version: &str) -> (packet: TcpContract)
    ensures
        packet@ == greeting(app_name@, app_version@, client_version@),
{
    let mut name = app_name.to_owned();
    name.append(":");
    name.append(app_version);
    name.append(";");
    name.append(client_version);
    TcpContract::Greeting { name, protocol_version: PROTOCOL_VERSION }
}

/// Builds the packet that asks for the packet versions of the client.
pub fn send_packet_versions() -> (packet: TcpContract)
    ensures
        packet@ == packet_versions(),
{
    let mut versions: Vec<(TcpMessageType, i32)> = Vec::new();
    versions.push((TcpMessageType::NewMessages, NEW_MESSAGES_PACKET_VERSION));
    assert(versions@ == seq![(TcpMessageType::NewMessages, NEW_MESSAGES_PACKET_VERSION)]);
    TcpContract::PacketVersions { packet_versions: versions }
}

/// Puts together what a new connection is told: the greeting first, then the
/// packet versions, then `declarations`, then `subscriptions`.
pub fn send_init(
    app_name: &str,
    app_version: &str,
    client_version: &str,
    declarations: Vec<TcpContract>,
    subscriptions: Vec<TcpContract>,
) -> (packets: Vec<TcpContract>)
    ensures
        contract_views(packets@) == handshake(
            app_name@,
            app_version@,
            client_version@,
            contract_views(declarations@),
            contract_views(subscriptions@),
        ),
{
    let mut packets: Vec<TcpContract> = Vec::new();
    packets.push(send_greeting(app_name, app_version, client_version));
    packets.push(send_packet_versions());
    let mut declarations = declarations;
    let mut subscriptions = subscriptions;
    let ghost start = packets@;
    let ghost declared = declarations@;
    let ghost subscribed = subscriptions@;
    packets.append(&mut declarations);
    packets.append(&mut subscriptions);
    assert(packets@ == start + declared + subscribed);
    assert(contract_views(packets@) == contract_views(start) + contract_views(declared)
        + contract_views(subscribed));
    assert(contract_views(start) == seq![
        greeting(app_name@, app_version@, client_version@),
        packet_versions(),
    ]);
    packets
}

} // verus!
