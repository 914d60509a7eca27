use vstd::prelude::*;

use crate::addr::{IpAddr, SockAddr};
use crate::config::{ClientTLSConfig, ServerTLSConfig};

verus! {

/// The TLS 1.3 cipher suites that QUIC sessions use, as IANA code points,
/// in order of preference: AES-256-GCM, AES-128-GCM, ChaCha20-Poly1305.
pub open spec fn quic_cipher_suites() -> Seq<u16> {
    seq![0x1302u16, 0x1301u16, 0x1303u16]
}

/// The protocol versions that QUIC sessions allow: TLS 1.3 alone.
pub open spec fn quic_versions() -> Seq<u16> {
    seq![0x0304u16]
}

/// The fixed crypto baseline of a client session.
pub struct ClientDefaults {
    pub cipher_suites: Vec<u16>,
    pub versions: Vec<u16>,
    pub enable_early_data: bool,
}

/// The fixed crypto baseline of a server session.
pub struct ServerDefaults {
    pub cipher_suites: Vec<u16>,
    pub versions: Vec<u16>,
    pub max_early_data_size: u32,
}

/// Relies on quinn::ClientConfig::default, whose rustls config is built with
/// quinn-proto's QUIC_CIPHER_SUITES, `versions = [TLSv1_3]` and
/// `enable_early_data = true`.
#[verifier::external_body]
fn quinn_client_defaults() -> (r: ClientDefaults)
    ensures
        r.cipher_suites@ == quic_cipher_suites(),
        r.versions@ == quic_versions(),
        r.enable_early_data,
{
    let c = quinn::ClientConfig::default();
    ClientDefaults {
        cipher_suites: c.crypto.ciphersuites.iter().map(|s| s.suite.get_u16()).collect(),
        versions: c.crypto.versions.iter().map(|v| v.get_u16()).collect(),
        enable_early_data: c.crypto.enable_early_data,
    }
}

/// Relies on quinn::ServerConfig::default, whose rustls config is built with
/// quinn-proto's QUIC_CIPHER_SUITES, `versions = [TLSv1_3]` and
/// `max_early_data_size = u32::max_value()`.
#[verifier::external_body]
fn quinn_server_defaults() -> (r: ServerDefaults)
    ensures
        r.cipher_suites@ == quic_cipher_suites(),
        r.versions@ == quic_versions(),
        r.max_early_data_size == u32::MAX,
{
    let c = quinn::ServerConfig::default();
    ServerDefaults {
        cipher_suites: c.crypto.ciphersuites.iter().map(|s| s.suite.get_u16()).collect(),
        versions: c.crypto.versions.iter().map(|v| v.get_u16()).collect(),
        max_early_data_size: c.crypto.max_early_data_size,
    }
}

/// The name a client presents and validates the server certificate against.
#[derive(Clone, Debug)]
pub enum ServerName {
    Dns(String),
    Ip(IpAddr),
}

/// `r` is the server name for a configured `sni` and a resolved remote:
/// the configured name where there is one, else the remote's IP address.
pub open spec fn is_server_name(r: ServerName, sni: Seq<char>, remote: SockAddr) -> bool {
    if sni.len() > 0 {
        r is Dns && r->Dns_0@ == sni
    } else {
        r == ServerName::Ip(remote.ip)
    }
}

/// Crypto settings of a client session: the user's fields and the baseline.
pub struct ClientCrypto {
    pub tls: ClientTLSConfig,
    pub cipher_suites: Vec<u16>,
    pub versions: Vec<u16>,
    pub enable_early_data: bool,
}

/// Crypto settings of a server session: the user's fields and the baseline.
pub struct ServerCrypto {
    pub tls: ServerTLSConfig,
    pub cipher_suites: Vec<u16>,
    pub versions: Vec<u16>,
    pub max_early_data_size: u32,
}

/// The client settings carry the user's fields and, whatever those are,
/// the fixed baseline.
pub open spec fn is_client_crypto(r: ClientCrypto, tlsc: ClientTLSConfig) -> bool {
    &&& r.tls.sni@ == tlsc.sni@
    &&& r.tls.insecure == tlsc.insecure
    &&& r.cipher_suites@ == quic_cipher_suites()
    &&& r.versions@ == quic_versions()
    &&& r.enable_early_data
}

/// The server settings carry the user's fields and, whatever those are,
/// the fixed baseline with an unbounded early-data cap.
pub open spec fn is_server_crypto(r: ServerCrypto, tlsc: ServerTLSConfig) -> bool {
    &&& r.tls.cert@ == tlsc.cert@
    &&& r.tls.key@ == tlsc.key@
    &&& r.cipher_suites@ == quic_cipher_suites()
    &&& r.versions@ == quic_versions()
    &&& r.max_early_data_size == u32::MAX
}

impl ClientTLSConfig {
    /// Base client settings: the user's fields, and the baseline of quinn's
    /// default client config in place of any suite, version or early-data
    /// choice.
    pub fn to_tls(&self) -> (r: ClientCrypto)
        ensures
            is_client_crypto(r, *self),
    {
        let d = quinn_client_defaults();
        ClientCrypto {
            tls: ClientTLSConfig { sni: self.sni.clone(), insecure: self.insecure },
            cipher_suites: d.cipher_suites,
            versions: d.versions,
            enable_early_data: d.enable_early_data,
        }
    }

    /// The server name to use towards `remote`.
    pub fn set_sni(&self, remote: &SockAddr) -> (r: ServerName)
        ensures
            is_server_name(r, self.sni@, *remote),
    {
        if self.sni.as_str().is_empty() {
            ServerName::Ip(remote.ip)
        } else {
            ServerName::Dns(self.sni.clone())
        }
    }
}

impl ServerTLSConfig {
    /// Base server settings: the user's fields, and the baseline of quinn's
    /// default server config in place of any suite, version or early-data
    /// choice.
    pub fn to_tls(&self) -> (r: ServerCrypto)
        ensures
            is_server_crypto(r, *self),
    {
        let d = quinn_server_defaults();
        ServerCrypto {
            tls: ServerTLSConfig { cert: self.cert.clone(), key: self.key.clone() },
            cipher_suites: d.cipher_suites,
            versions: d.versions,
            max_early_data_size: d.max_early_data_size,
        }
    }
}

/// Two client settings built from any two user configurations agree on
/// cipher suites, protocol versions and early data.
pub proof fn lemma_client_baseline_fixed(
    a: ClientCrypto,
    ta: ClientTLSConfig,
    b: ClientCrypto,
    tb: ClientTLSConfig,
)
    requires
        is_client_crypto(a, ta),
        is_client_crypto(b, tb),
    ensures
        a.cipher_suites@ == b.cipher_suites@,
        a.versions@ == b.versions@,
        a.enable_early_data && b.enable_early_data,
{
}

/// Two server settings built from any two user configurations agree on
/// cipher suites and protocol versions, and both cap early data at the
/// largest `u32`.
pub proof fn lemma_server_baseline_fixed(
    a: ServerCrypto,
    ta: ServerTLSConfig,
    b: ServerCrypto,
    tb: ServerTLSConfig,
)
    requires
        is_server_crypto(a, ta),
        is_server_crypto(b, tb),
    ensures
        a.cipher_suites@ == b.cipher_suites@,
        a.versions@ == b.versions@,
        a.max_early_data_size == b.max_early_data_size == u32::MAX,
{
}

} // verus!
