use relay_core::addr::{CommonAddr, IpAddr, SockAddr};
use relay_core::config::{
    ClientTLSConfig, EpHalfConfig, NetConfig, QuicConfig, ServerTLSConfig, TLSConfig,
    TransportConfig, WebSocketConfig,
};
use relay_core::net::{
    new_plain_conn, new_plain_lis, new_quic_conn, new_quic_raw_lis, new_udp_conn, new_udp_lis,
    spawn_with_net, Acceptor, Connector, ErrorKind, Half, RelayPath, SetupError,
};
use relay_core::tls::ServerName;
use relay_core::transport::{TransAcceptor, TransConnector, WrapError};

const V4: SockAddr = SockAddr { ip: IpAddr::V4(0x5db8_d822), port: 443 };
const V6: SockAddr = SockAddr {
    ip: IpAddr::V6(0x2606_2800_0220_0001_0248_1893_25c8_1946),
    port: 443,
};

fn client_tls(sni: &str) -> TLSConfig {
    TLSConfig::Client(ClientTLSConfig { sni: sni.to_string(), insecure: false })
}

fn server_tls() -> TLSConfig {
    TLSConfig::Server(ServerTLSConfig { cert: "cert.pem".to_string(), key: "key.pem".to_string() })
}

fn quic() -> TransportConfig {
    TransportConfig::QUIC(QuicConfig { mux: true })
}

fn half(addr: &str, net: NetConfig, trans: TransportConfig, tls: TLSConfig) -> EpHalfConfig {
    EpHalfConfig { addr: addr.to_string(), net, trans, tls }
}

fn ws(path: &str) -> TransportConfig {
    TransportConfig::WS(WebSocketConfig { path: path.to_string() })
}

#[test]
fn plain_conn_tcp_dials_resolved_address() {
    let c = new_plain_conn("93.184.216.34:443", Some(V4), &NetConfig::TCP).unwrap();
    assert!(matches!(c.target, CommonAddr::SocketAddr(a) if a == V4));
}

#[test]
fn plain_lis_uds_binds_path() {
    let a = new_plain_lis("/tmp/relay.sock", None, &NetConfig::UDS).unwrap();
    match a.bind {
        CommonAddr::UnixSocketPath(p) => assert_eq!(p, "/tmp/relay.sock"),
        _ => panic!("expected a socket path"),
    }
}

#[test]
fn plain_tcp_unresolved_is_resolution_error() {
    assert_eq!(new_plain_lis("nowhere:1", None, &NetConfig::TCP).unwrap_err(), ErrorKind::AddressResolution);
    assert_eq!(new_plain_conn("nowhere:1", None, &NetConfig::TCP).unwrap_err(), ErrorKind::AddressResolution);
}

#[test]
fn plain_builders_refuse_datagram_kinds() {
    assert_eq!(new_plain_conn("x", Some(V4), &NetConfig::UDP).unwrap_err(), ErrorKind::ConfigurationDefect);
    assert_eq!(new_plain_lis("x", Some(V4), &NetConfig::QUIC).unwrap_err(), ErrorKind::ConfigurationDefect);
}

#[test]
fn udp_builders() {
    assert_eq!(new_udp_conn(Some(V6), &NetConfig::UDP).unwrap().target, V6);
    assert_eq!(new_udp_lis(Some(V4), &NetConfig::UDP).unwrap().bind, V4);
    assert_eq!(new_udp_lis(None, &NetConfig::UDP).unwrap_err(), ErrorKind::AddressResolution);
    assert_eq!(new_udp_conn(Some(V4), &NetConfig::TCP).unwrap_err(), ErrorKind::ConfigurationDefect);
}

#[test]
fn quic_conn_binds_ipv6_wildcard_for_ipv6_remote() {
    let c = new_quic_conn(Some(V6), &NetConfig::QUIC, &quic(), &client_tls("")).unwrap();
    assert_eq!(c.bind, SockAddr { ip: IpAddr::V6(0), port: 0 });
    assert_eq!(c.remote, V6);
}

#[test]
fn quic_conn_binds_ipv4_wildcard_for_ipv4_remote() {
    let c = new_quic_conn(Some(V4), &NetConfig::QUIC, &quic(), &client_tls("")).unwrap();
    assert_eq!(c.bind, SockAddr { ip: IpAddr::V4(0), port: 0 });
    assert_eq!(c.remote, V4);
}

#[test]
fn quic_conn_carries_client_baseline_and_server_name() {
    let tls = TLSConfig::Client(ClientTLSConfig { sni: "example.com".to_string(), insecure: true });
    let c = new_quic_conn(Some(V4), &NetConfig::QUIC, &quic(), &tls).unwrap();
    assert_eq!(c.crypto.cipher_suites, vec![0x1302u16, 0x1301, 0x1303]);
    assert_eq!(c.crypto.versions, vec![0x0304u16]);
    assert!(c.crypto.enable_early_data);
    assert!(c.crypto.tls.insecure);
    assert!(c.mux);
    assert!(matches!(c.server_name, ServerName::Dns(ref n) if n == "example.com"));
}

#[test]
fn quic_conn_without_sni_names_remote_ip() {
    let c = new_quic_conn(Some(V6), &NetConfig::QUIC, &quic(), &client_tls("")).unwrap();
    assert!(matches!(c.server_name, ServerName::Ip(ip) if ip == V6.ip));
    assert_eq!(c.crypto.cipher_suites, vec![0x1302u16, 0x1301, 0x1303]);
}

#[test]
fn quic_conn_configuration_defects() {
    let e = new_quic_conn(Some(V4), &NetConfig::QUIC, &TransportConfig::Plain, &client_tls("")).err().unwrap();
    assert_eq!(e, ErrorKind::ConfigurationDefect);
    let e = new_quic_conn(Some(V4), &NetConfig::QUIC, &quic(), &server_tls()).err().unwrap();
    assert_eq!(e, ErrorKind::ConfigurationDefect);
    let e = new_quic_conn(None, &NetConfig::QUIC, &quic(), &client_tls("")).err().unwrap();
    assert_eq!(e, ErrorKind::AddressResolution);
}

#[test]
fn quic_raw_lis_carries_server_baseline() {
    let a = new_quic_raw_lis(Some(V6), &NetConfig::QUIC, &quic(), &server_tls()).unwrap();
    assert_eq!(a.bind, V6);
    assert_eq!(a.crypto.cipher_suites, vec![0x1302u16, 0x1301, 0x1303]);
    assert_eq!(a.crypto.versions, vec![0x0304u16]);
    assert_eq!(a.crypto.max_early_data_size, u32::MAX);
    assert_eq!(a.crypto.tls.cert, "cert.pem");
    assert_eq!(a.crypto.tls.key, "key.pem");
}

#[test]
fn quic_raw_lis_refuses_client_tls() {
    let e = new_quic_raw_lis(Some(V4), &NetConfig::QUIC, &quic(), &client_tls("")).err().unwrap();
    assert_eq!(e, ErrorKind::ConfigurationDefect);
}

#[test]
fn websocket_acceptor_serves_its_path_only() {
    let cfg = WebSocketConfig { path: "/ws".to_string() };
    let lis = new_plain_lis("127.0.0.1:8080", Some(V4), &NetConfig::TCP).unwrap();
    let a = cfg.apply_to_lis(lis);
    assert!(a.admits(&"/ws".to_string()));
    assert!(!a.admits(&"/other".to_string()));
    assert!(!a.admits(&"".to_string()));
    assert!(a.admits(&"/ws".to_string()));
}

#[test]
fn websocket_connector_keeps_path() {
    let cfg = WebSocketConfig { path: "/tunnel".to_string() };
    let c = cfg.apply_to_conn(new_udp_conn(Some(V4), &NetConfig::UDP).unwrap());
    assert_eq!(c.path, "/tunnel");
    assert_eq!(c.inner.target, V4);
}

#[test]
fn quic_transport_wraps_nothing() {
    assert_eq!(quic().apply_to_lis(1u8).err().unwrap(), WrapError::NotAWrapper);
    assert_eq!(quic().apply_to_conn(1u8).err().unwrap(), WrapError::NotAWrapper);
    assert!(matches!(TransportConfig::Plain.apply_to_conn(7u8), Ok(TransConnector::Plain(7))));
}

fn kinds() -> Vec<(NetConfig, &'static str)> {
    vec![
        (NetConfig::TCP, "127.0.0.1:9000"),
        (NetConfig::UDS, "/tmp/relay.sock"),
        (NetConfig::UDP, "127.0.0.1:9001"),
    ]
}

#[test]
fn every_matrix_pair_spawns_one_path() {
    let mut workers: Vec<RelayPath> = Vec::new();
    let mut n = 0;
    for (lnet, laddr) in kinds() {
        for (rnet, raddr) in kinds() {
            let listen = half(laddr, lnet, TransportConfig::Plain, server_tls());
            let remote = half(raddr, rnet, ws("/ws"), client_tls(""));
            assert_eq!(spawn_with_net(&mut workers, &listen, &remote, Some(V4), Some(V6)), Ok(()));
            n += 1;
            assert_eq!(workers.len(), n);
            let last = workers.last().unwrap();
            match (&last.listen, lnet) {
                (TransAcceptor::Plain(Acceptor::Plain(_)), NetConfig::TCP | NetConfig::UDS) => {}
                (TransAcceptor::Plain(Acceptor::Udp(u)), NetConfig::UDP) => assert_eq!(u.bind, V4),
                _ => panic!("wrong acceptor"),
            }
            match (&last.remote, rnet) {
                (TransConnector::WS(w), NetConfig::TCP | NetConfig::UDS) => {
                    assert_eq!(w.path, "/ws");
                    assert!(matches!(w.inner, Connector::Plain(_)));
                }
                (TransConnector::WS(w), NetConfig::UDP) => {
                    assert!(matches!(w.inner, Connector::Udp(u) if u.target == V6));
                }
                _ => panic!("wrong connector"),
            }
        }
    }
    assert_eq!(n, 9);
}

#[test]
fn quic_pair_spawns_without_wrapper() {
    let mut workers: Vec<RelayPath> = Vec::new();
    let listen = half("[::]:443", NetConfig::QUIC, quic(), server_tls());
    let remote = half("93.184.216.34:443", NetConfig::QUIC, quic(), client_tls(""));
    assert_eq!(spawn_with_net(&mut workers, &listen, &remote, Some(V6), Some(V4)), Ok(()));
    assert!(matches!(workers[0].listen, TransAcceptor::Plain(Acceptor::Quic(_))));
    match &workers[0].remote {
        TransConnector::Plain(Connector::Quic(c)) => assert_eq!(c.bind, SockAddr { ip: IpAddr::V4(0), port: 0 }),
        _ => panic!("wrong connector"),
    }
}

#[test]
fn spawn_reports_side_and_stage() {
    let mut workers: Vec<RelayPath> = Vec::new();
    let listen = half("127.0.0.1:1", NetConfig::TCP, quic(), server_tls());
    let remote = half("127.0.0.1:2", NetConfig::TCP, TransportConfig::Plain, client_tls(""));
    assert_eq!(
        spawn_with_net(&mut workers, &listen, &remote, Some(V4), Some(V4)),
        Err(SetupError { half: Half::Listen, kind: ErrorKind::ConfigurationDefect })
    );
    let listen = half("127.0.0.1:1", NetConfig::TCP, TransportConfig::Plain, server_tls());
    assert_eq!(
        spawn_with_net(&mut workers, &listen, &remote, Some(V4), None),
        Err(SetupError { half: Half::Remote, kind: ErrorKind::AddressResolution })
    );
    assert!(workers.is_empty());
}

#[test]
fn one_failing_path_does_not_stop_the_others() {
    let mut workers: Vec<RelayPath> = Vec::new();
    let remote = half("127.0.0.1:2", NetConfig::TCP, TransportConfig::Plain, client_tls(""));
    let paths = [
        (half("127.0.0.1:10", NetConfig::TCP, TransportConfig::Plain, server_tls()), Some(V4)),
        (half("bad.invalid:11", NetConfig::TCP, TransportConfig::Plain, server_tls()), None),
        (half("127.0.0.1:12", NetConfig::UDP, TransportConfig::Plain, server_tls()), Some(V6)),
    ];
    let results: Vec<_> = paths
        .iter()
        .map(|(l, res)| spawn_with_net(&mut workers, l, &remote, *res, Some(V4)))
        .collect();
    assert_eq!(results[0], Ok(()));
    assert_eq!(results[1], Err(SetupError { half: Half::Listen, kind: ErrorKind::AddressResolution }));
    assert_eq!(results[2], Ok(()));
    assert_eq!(workers.len(), 2);
}

#[test]
fn family_flag_and_wildcards() {
    assert!(V6.is_ipv6());
    assert!(!V4.is_ipv6());
    assert_eq!(relay_core::addr::empty_sockaddr_v6(), SockAddr { ip: IpAddr::V6(0), port: 0 });
    assert_eq!(relay_core::addr::empty_sockaddr_v4(), SockAddr { ip: IpAddr::V4(0), port: 0 });
}
