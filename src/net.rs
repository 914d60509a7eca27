use vstd::prelude::*;

use crate::addr::{wildcard_of, CommonAddr, SockAddr, empty_sockaddr_v4, empty_sockaddr_v6};
use crate::config::{EpHalfConfig, NetConfig, TLSConfig, TransportConfig};
use crate::tls::{is_client_crypto, is_server_crypto, is_server_name, ClientCrypto, ServerCrypto, ServerName};
use crate::transport::{TransAcceptor, TransConnector};

verus! {

/// What went wrong while setting up one side of a relay path.
#[derive(Clone, Copy, Debug, PartialEq, Eq, Structural)]
pub enum ErrorKind {
    /// The address string did not resolve to a usable address.
    AddressResolution,
    /// A listening socket could not be bound.
    Bind,
    /// A TLS, QUIC or WebSocket handshake failed.
    Handshake,
    /// Network kind, transport and TLS role of a side do not fit together.
    ConfigurationDefect,
}

/// The side of a relay path.
#[derive(Clone, Copy, Debug, PartialEq, Eq, Structural)]
pub enum Half {
    Listen,
    Remote,
}

/// A setup failure, with the side it happened on.
#[derive(Clone, Copy, Debug, PartialEq, Eq, Structural)]
pub struct SetupError {
    pub half: Half,
    pub kind: ErrorKind,
}

/// Dials a TCP address or a Unix-domain socket path on demand.
#[derive(Clone, Debug)]
pub struct PlainConnector {
    pub target: CommonAddr,
}

/// Listens on a TCP address or a Unix-domain socket path.
#[derive(Clone, Debug)]
pub struct PlainAcceptor {
    pub bind: CommonAddr,
}

/// Sends to a UDP address, treated as a stream.
#[derive(Clone, Copy, Debug, PartialEq, Eq, Structural)]
pub struct UdpConnector {
    pub target: SockAddr,
}

/// Receives on a UDP address, treated as a stream.
#[derive(Clone, Copy, Debug, PartialEq, Eq, Structural)]
pub struct UdpAcceptor {
    pub bind: SockAddr,
}

/// A QUIC client endpoint bound to `bind`, connecting to `remote`.
pub struct QuicConnector {
    pub bind: SockAddr,
    pub remote: SockAddr,
    pub server_name: ServerName,
    pub mux: bool,
    pub crypto: ClientCrypto,
}

/// A QUIC server endpoint bound to `bind`, accepting raw connections.
pub struct QuicRawAcceptor {
    pub bind: SockAddr,
    pub crypto: ServerCrypto,
}

/// A network-level acceptor of any kind.
pub enum Acceptor {
    Plain(PlainAcceptor),
    Udp(UdpAcceptor),
    Quic(QuicRawAcceptor),
}

/// A network-level connector of any kind.
pub enum Connector {
    Plain(PlainConnector),
    Udp(UdpConnector),
    Quic(QuicConnector),
}

/// One relay path: the acceptor and connector, each under its transport.
pub struct RelayPath {
    pub listen: TransAcceptor<Acceptor>,
    pub remote: TransConnector<Connector>,
}

// ===== plain =====

/// The error, if any, of a plain-stream side of kind `net`.
pub open spec fn plain_error(net: NetConfig, resolved: Option<SockAddr>) -> Option<ErrorKind> {
    match net {
        NetConfig::TCP => if resolved is None { Some(ErrorKind::AddressResolution) } else { None },
        NetConfig::UDS => None,
        _ => Some(ErrorKind::ConfigurationDefect),
    }
}

/// `a` is where a plain-stream side lives: the resolved address for TCP,
/// the address string as a path for a Unix-domain socket.
pub open spec fn is_plain_addr(
    a: CommonAddr,
    addr: Seq<char>,
    net: NetConfig,
    resolved: Option<SockAddr>,
) -> bool {
    match net {
        NetConfig::TCP => resolved is Some && a == CommonAddr::SocketAddr(resolved->Some_0),
        NetConfig::UDS => a is UnixSocketPath && a->UnixSocketPath_0@ == addr,
        _ => false,
    }
}

fn plain_addr(addr: &str, resolved: Option<SockAddr>, net: &NetConfig) -> (r: Result<CommonAddr, ErrorKind>)
    ensures
        match plain_error(*net, resolved) {
            Some(e) => r == Err::<CommonAddr, ErrorKind>(e),
            None => r is Ok && is_plain_addr(r->Ok_0, addr@, *net, resolved),
        },
{
    match net {
        NetConfig::TCP => match resolved {
            Some(a) => Ok(CommonAddr::SocketAddr(a)),
            None => Err(ErrorKind::AddressResolution),
        },
        NetConfig::UDS => Ok(CommonAddr::UnixSocketPath(addr.to_owned())),
        _ => Err(ErrorKind::ConfigurationDefect),
    }
}

/// The connector of a TCP or Unix-domain remote at `addr`, which resolved
/// to `resolved` where it is an IP address.
pub fn new_plain_conn(addr: &str, resolved: Option<SockAddr>, net: &NetConfig) -> (r: Result<PlainConnector, ErrorKind>)
    ensures
        match plain_error(*net, resolved) {
            Some(e) => r == Err::<PlainConnector, ErrorKind>(e),
            None => r is Ok && is_plain_addr(r->Ok_0.target, addr@, *net, resolved),
        },
{
    match plain_addr(addr, resolved, net) {
        Ok(target) => Ok(PlainConnector { target }),
        Err(e) => Err(e),
    }
}

/// The acceptor of a TCP or Unix-domain listener at `addr`, which resolved
/// to `resolved` where it is an IP address.
pub fn new_plain_lis(addr: &str, resolved: Option<SockAddr>, net: &NetConfig) -> (r: Result<PlainAcceptor, ErrorKind>)
    ensures
        match plain_error(*net, resolved) {
            Some(e) => r == Err::<PlainAcceptor, ErrorKind>(e),
            None => r is Ok && is_plain_addr(r->Ok_0.bind, addr@, *net, resolved),
        },
{
    match plain_addr(addr, resolved, net) {
        Ok(bind) => Ok(PlainAcceptor { bind }),
        Err(e) => Err(e),
    }
}

// ===== UDP =====

/// The error, if any, of a UDP side of kind `net`.
pub open spec fn udp_error(net: NetConfig, resolved: Option<SockAddr>) -> Option<ErrorKind> {
    if !(net is UDP) {
        Some(ErrorKind::ConfigurationDefect)
    } else if resolved is None {
        Some(ErrorKind::AddressResolution)
    } else {
        None
    }
}

/// The connector of a UDP remote that resolved to `resolved`.
pub fn new_udp_conn(resolved: Option<SockAddr>, net: &NetConfig) -> (r: Result<UdpConnector, ErrorKind>)
    ensures
        match udp_error(*net, resolved) {
            Some(e) => r == Err::<UdpConnector, ErrorKind>(e),
            None => r == Ok::<UdpConnector, ErrorKind>(UdpConnector { target: resolved->Some_0 }),
        },
{
    match (net, resolved) {
        (NetConfig::UDP, Some(target)) => Ok(UdpConnector { target }),
        (NetConfig::UDP, None) => Err(ErrorKind::AddressResolution),
        _ => Err(ErrorKind::ConfigurationDefect),
    }
}

/// The acceptor of a UDP listener that resolved to `resolved`.
pub fn new_udp_lis(resolved: Option<SockAddr>, net: &NetConfig) -> (r: Result<UdpAcceptor, ErrorKind>)
    ensures
        match udp_error(*net, resolved) {
            Some(e) => r == Err::<UdpAcceptor, ErrorKind>(e),
            None => r == Ok::<UdpAcceptor, ErrorKind>(UdpAcceptor { bind: resolved->Some_0 }),
        },
{
    match (net, resolved) {
        (NetConfig::UDP, Some(bind)) => Ok(UdpAcceptor { bind }),
        (NetConfig::UDP, None) => Err(ErrorKind::AddressResolution),
        _ => Err(ErrorKind::ConfigurationDefect),
    }
}

// ===== QUIC =====

/// The error, if any, of a QUIC side: the network kind and the transport
/// must both be QUIC, and the TLS role must be that of the side.
pub open spec fn quic_error(
    net: NetConfig,
    trans: TransportConfig,
    role_fits: bool,
    resolved: Option<SockAddr>,
) -> Option<ErrorKind> {
    if !(net is QUIC) || !(trans is QUIC) || !role_fits {
        Some(ErrorKind::ConfigurationDefect)
    } else if resolved is None {
        Some(ErrorKind::AddressResolution)
    } else {
        None
    }
}

/// `c` connects to `remote` from the wildcard address of its family, with
/// the client baseline and the server name computed for `remote`.
pub open spec fn is_quic_conn(
    c: QuicConnector,
    trans: TransportConfig,
    tlsc: TLSConfig,
    remote: SockAddr,
) -> bool {
    &&& c.remote == remote
    &&& c.bind == wildcard_of(remote.ip is V6)
    &&& c.mux == trans->QUIC_0.mux
    &&& is_server_name(c.server_name, tlsc->Client_0.sni@, remote)
    &&& is_client_crypto(c.crypto, tlsc->Client_0)
}

/// `a` listens on `bind` exactly, with the server baseline.
pub open spec fn is_quic_lis(a: QuicRawAcceptor, tlsc: TLSConfig, bind: SockAddr) -> bool {
    &&& a.bind == bind
    &&& is_server_crypto(a.crypto, tlsc->Server_0)
}

/// The QUIC client endpoint for a remote that resolved to `resolved`.
pub fn new_quic_conn(
    resolved: Option<SockAddr>,
    net: &NetConfig,
    trans: &TransportConfig,
    tlsc: &TLSConfig,
) -> (r: Result<QuicConnector, ErrorKind>)
    ensures
        match quic_error(*net, *trans, tlsc is Client, resolved) {
            Some(e) => r is Err && r->Err_0 == e,
            None => r is Ok && is_quic_conn(r->Ok_0, *trans, *tlsc, resolved->Some_0),
        },
{
    let mux = match (net, trans) {
        (NetConfig::QUIC, TransportConfig::QUIC(x)) => x.mux,
        _ => return Err(ErrorKind::ConfigurationDefect),
    };
    let tlsc = match tlsc {
        TLSConfig::Client(x) => x,
        _ => return Err(ErrorKind::ConfigurationDefect),
    };
    let remote = match resolved {
        Some(a) => a,
        None => return Err(ErrorKind::AddressResolution),
    };
    let crypto = tlsc.to_tls();
    let server_name = tlsc.set_sni(&remote);
    let bind = if remote.is_ipv6() {
        empty_sockaddr_v6()
    } else {
        empty_sockaddr_v4()
    };
    Ok(QuicConnector { bind, remote, server_name, mux, crypto })
}

/// The QUIC server endpoint for a listener that resolved to `resolved`.
pub fn new_quic_raw_lis(
    resolved: Option<SockAddr>,
    net: &NetConfig,
    trans: &TransportConfig,
    tlsc: &TLSConfig,
) -> (r: Result<QuicRawAcceptor, ErrorKind>)
    ensures
        match quic_error(*net, *trans, tlsc is Server, resolved) {
            Some(e) => r is Err && r->Err_0 == e,
            None => r is Ok && is_quic_lis(r->Ok_0, *tlsc, resolved->Some_0),
        },
{
    match (net, trans) {
        (NetConfig::QUIC, TransportConfig::QUIC(_)) => {},
        _ => return Err(ErrorKind::ConfigurationDefect),
    }
    let tlsc = match tlsc {
        TLSConfig::Server(x) => x,
        _ => return Err(ErrorKind::ConfigurationDefect),
    };
    let bind = match resolved {
        Some(a) => a,
        None => return Err(ErrorKind::AddressResolution),
    };
    let crypto = tlsc.to_tls();
    Ok(QuicRawAcceptor { bind, crypto })
}

// ===== dispatch =====

/// The error, if any, of building the listen side `h`.
pub open spec fn lis_error(h: EpHalfConfig, resolved: Option<SockAddr>) -> Option<ErrorKind> {
    let wrap = if h.trans is QUIC { Some(ErrorKind::ConfigurationDefect) } else { None };
    match h.net {
        NetConfig::TCP | NetConfig::UDS => if plain_error(h.net, resolved) is Some {
            plain_error(h.net, resolved)
        } else {
            wrap
        },
        NetConfig::UDP => if udp_error(h.net, resolved) is Some {
            udp_error(h.net, resolved)
        } else {
            wrap
        },
        NetConfig::QUIC => quic_error(h.net, h.trans, h.tls is Server, resolved),
    }
}

/// The error, if any, of building the remote side `h`.
pub open spec fn conn_error(h: EpHalfConfig, resolved: Option<SockAddr>) -> Option<ErrorKind> {
    let wrap = if h.trans is QUIC { Some(ErrorKind::ConfigurationDefect) } else { None };
    match h.net {
        NetConfig::TCP | NetConfig::UDS => if plain_error(h.net, resolved) is Some {
            plain_error(h.net, resolved)
        } else {
            wrap
        },
        NetConfig::UDP => if udp_error(h.net, resolved) is Some {
            udp_error(h.net, resolved)
        } else {
            wrap
        },
        NetConfig::QUIC => quic_error(h.net, h.trans, h.tls is Client, resolved),
    }
}

/// `a` is the network-level acceptor of the listen side `h`.
pub open spec fn is_net_lis(a: Acceptor, h: EpHalfConfig, resolved: Option<SockAddr>) -> bool {
    match h.net {
        NetConfig::TCP | NetConfig::UDS => a is Plain && is_plain_addr(
            a->Plain_0.bind,
            h.addr@,
            h.net,
            resolved,
        ),
        NetConfig::UDP => a == Acceptor::Udp(UdpAcceptor { bind: resolved->Some_0 }),
        NetConfig::QUIC => a is Quic && is_quic_lis(a->Quic_0, h.tls, resolved->Some_0),
    }
}

/// `c` is the network-level connector of the remote side `h`.
pub open spec fn is_net_conn(c: Connector, h: EpHalfConfig, resolved: Option<SockAddr>) -> bool {
    match h.net {
        NetConfig::TCP | NetConfig::UDS => c is Plain && is_plain_addr(
            c->Plain_0.target,
            h.addr@,
            h.net,
            resolved,
        ),
        NetConfig::UDP => c == Connector::Udp(UdpConnector { target: resolved->Some_0 }),
        NetConfig::QUIC => c is Quic && is_quic_conn(c->Quic_0, h.trans, h.tls, resolved->Some_0),
    }
}

/// `a` is the listen side `h`: its network-level acceptor, under a
/// WebSocket wrapper where `h` names one. QUIC needs no wrapper.
pub open spec fn is_lis(a: TransAcceptor<Acceptor>, h: EpHalfConfig, resolved: Option<SockAddr>) -> bool {
    match a {
        TransAcceptor::Plain(x) => !(h.trans is WS) && is_net_lis(x, h, resolved),
        TransAcceptor::WS(w) => h.trans is WS && w.path@ == h.trans->WS_0.path@ && is_net_lis(
            w.inner,
            h,
            resolved,
        ),
    }
}

/// `c` is the remote side `h`: its network-level connector, under a
/// WebSocket wrapper where `h` names one. QUIC needs no wrapper.
pub open spec fn is_conn(c: TransConnector<Connector>, h: EpHalfConfig, resolved: Option<SockAddr>) -> bool {
    match c {
        TransConnector::Plain(x) => !(h.trans is WS) && is_net_conn(x, h, resolved),
        TransConnector::WS(w) => h.trans is WS && w.path@ == h.trans->WS_0.path@ && is_net_conn(
            w.inner,
            h,
            resolved,
        ),
    }
}

/// The error, if any, of setting up a relay path; the listen side is built
/// first.
pub open spec fn setup_error(
    listen: EpHalfConfig,
    remote: EpHalfConfig,
    lis_resolved: Option<SockAddr>,
    conn_resolved: Option<SockAddr>,
) -> Option<SetupError> {
    match lis_error(listen, lis_resolved) {
        Some(kind) => Some(SetupError { half: Half::Listen, kind }),
        None => match conn_error(remote, conn_resolved) {
            Some(kind) => Some(SetupError { half: Half::Remote, kind }),
            None => None,
        },
    }
}

fn build_lis(h: &EpHalfConfig, resolved: Option<SockAddr>) -> (r: Result<TransAcceptor<Acceptor>, ErrorKind>)
    ensures
        match lis_error(*h, resolved) {
            Some(e) => r is Err && r->Err_0 == e,
            None => r is Ok && is_lis(r->Ok_0, *h, resolved),
        },
{
    let lis = match h.net {
        NetConfig::TCP | NetConfig::UDS => match new_plain_lis(h.addr.as_str(), resolved, &h.net) {
            Ok(x) => Acceptor::Plain(x),
            Err(e) => return Err(e),
        },
        NetConfig::UDP => match new_udp_lis(resolved, &h.net) {
            Ok(x) => Acceptor::Udp(x),
            Err(e) => return Err(e),
        },
        NetConfig::QUIC => {
            return match new_quic_raw_lis(resolved, &h.net, &h.trans, &h.tls) {
                Ok(x) => Ok(TransAcceptor::Plain(Acceptor::Quic(x))),
                Err(e) => Err(e),
            };
        },
    };
    match h.trans.apply_to_lis(lis) {
        Ok(x) => Ok(x),
        Err(_) => Err(ErrorKind::ConfigurationDefect),
    }
}

fn build_conn(h: &EpHalfConfig, resolved: Option<SockAddr>) -> (r: Result<TransConnector<Connector>, ErrorKind>)
    ensures
        match conn_error(*h, resolved) {
            Some(e) => r is Err && r->Err_0 == e,
            None => r is Ok && is_conn(r->Ok_0, *h, resolved),
        },
{
    let conn = match h.net {
        NetConfig::TCP | NetConfig::UDS => match new_plain_conn(h.addr.as_str(), resolved, &h.net) {
            Ok(x) => Connector::Plain(x),
            Err(e) => return Err(e),
        },
        NetConfig::UDP => match new_udp_conn(resolved, &h.net) {
            Ok(x) => Connector::Udp(x),
            Err(e) => return Err(e),
        },
        NetConfig::QUIC => {
            return match new_quic_conn(resolved, &h.net, &h.trans, &h.tls) {
                Ok(x) => Ok(TransConnector::Plain(Connector::Quic(x))),
                Err(e) => Err(e),
            };
        },
    };
    match h.trans.apply_to_conn(conn) {
        Ok(x) => Ok(x),
        Err(_) => Err(ErrorKind::ConfigurationDefect),
    }
}

/// Builds both sides of a relay path and appends it to `workers`, or
/// leaves `workers` as it was and says which side failed at which stage.
pub fn spawn_with_net(
    workers: &mut Vec<RelayPath>,
    listen: &EpHalfConfig,
    remote: &EpHalfConfig,
    lis_resolved: Option<SockAddr>,
    conn_resolved: Option<SockAddr>,
) -> (r: Result<(), SetupError>)
    ensures
        match setup_error(*listen, *remote, lis_resolved, conn_resolved) {
            Some(e) => r == Err::<(), SetupError>(e) && final(workers)@ == old(workers)@,
            None => {
                &&& r is Ok
                &&& final(workers)@.len() == old(workers)@.len() + 1
                &&& final(workers)@.take(old(workers)@.len() as int) == old(workers)@
                &&& is_lis(final(workers)@.last().listen, *listen, lis_resolved)
                &&& is_conn(final(workers)@.last().remote, *remote, conn_resolved)
            },
        },
{
    let lis = match build_lis(listen, lis_resolved) {
        Ok(x) => x,
        Err(kind) => return Err(SetupError { half: Half::Listen, kind }),
    };
    let conn = match build_conn(remote, conn_resolved) {
        Ok(x) => x,
        Err(kind) => return Err(SetupError { half: Half::Remote, kind }),
    };
    workers.push(RelayPath { listen: lis, remote: conn });
    assert(final(workers)@.take(old(workers)@.len() as int) =~= old(workers)@);
    Ok(())
}

/// A side of the generic matrix: TCP, Unix-domain or UDP, under a plain or
/// WebSocket transport.
pub open spec fn in_matrix(h: EpHalfConfig) -> bool {
    !(h.net is QUIC) && !(h.trans is QUIC)
}

/// Every pair of sides of the generic matrix spawns a relay path: it never
/// fails with a configuration defect, only where an address did not
/// resolve, and not at all where both sides resolved.
pub proof fn lemma_matrix_spawns(
    listen: EpHalfConfig,
    remote: EpHalfConfig,
    lis_resolved: Option<SockAddr>,
    conn_resolved: Option<SockAddr>,
)
    requires
        in_matrix(listen),
        in_matrix(remote),
    ensures
        setup_error(listen, remote, lis_resolved, conn_resolved) is None
            || setup_error(listen, remote, lis_resolved, conn_resolved)->Some_0.kind
            == ErrorKind::AddressResolution,
        lis_resolved is Some && conn_resolved is Some ==> setup_error(
            listen,
            remote,
            lis_resolved,
            conn_resolved,
        ) is None,
{
}

} // verus!
