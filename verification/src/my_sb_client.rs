use vstd::prelude::*;

verus! {

/// Version of this client, as the greeting reports it.
pub open spec fn client_version() -> Seq<char> {
    "0.1.0"@
}

/// Where the broker is to be reached.
pub struct TcpConnectionSettings {
    host_port: String,
}

impl View for TcpConnectionSettings {
    type V = Seq<char>;

    closed spec fn view(&self) -> Seq<char> {
        self.host_port@
    }
}

impl TcpConnectionSettings {
    /// Settings that name `host_port` as the address of the broker.
    pub fn new(host_port: String) -> (settings: Self)
        ensures
            settings@ == host_port@,
    {
        Self { host_port }
    }

    /// The address of the broker.
    pub fn get_host_port(&self) -> (host_port: String)
        ensures
            host_port@ == self@,
    {
        self.host_port.clone()
    }
}

/// The version of this client.
pub fn get_client_version() -> (version: String)
    ensures
        version@ == client_version(),
{
    "0.1.0".to_owned()
}

} // verus!
