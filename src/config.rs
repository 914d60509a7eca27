use vstd::prelude::*;

verus! {

/// The network kind of one side of a relay path.
#[derive(Clone, Copy, Debug, PartialEq, Eq, Structural)]
pub enum NetConfig {
    TCP,
    UDS,
    UDP,
    QUIC,
}

/// The transport wrapper of one side of a relay path.
#[derive(Clone, Debug)]
pub enum TransportConfig {
    Plain,
    WS(WebSocketConfig),
    QUIC(QuicConfig),
}

/// WebSocket framing with the URL path of the upgrade request.
#[derive(Clone, Debug)]
pub struct WebSocketConfig {
    pub path: String,
}

/// QUIC's own transport; `mux` reuses one connection for many streams.
#[derive(Clone, Copy, Debug, PartialEq, Eq, Structural)]
pub struct QuicConfig {
    pub mux: bool,
}

/// TLS settings of a connecting side.
#[derive(Clone, Debug)]
pub struct ClientTLSConfig {
    /// Server name to present; empty means the resolved IP address.
    pub sni: String,
    /// Accept any server certificate.
    pub insecure: bool,
}

/// TLS settings of a listening side: certificate and key files.
#[derive(Clone, Debug)]
pub struct ServerTLSConfig {
    pub cert: String,
    pub key: String,
}

#[derive(Clone, Debug)]
pub enum TLSConfig {
    Client(ClientTLSConfig),
    Server(ServerTLSConfig),
}

/// One side (listen or remote) of a relay path.
#[derive(Clone, Debug)]
pub struct EpHalfConfig {
    pub addr: String,
    pub net: NetConfig,
    pub trans: TransportConfig,
    pub tls: TLSConfig,
}

} // verus!
