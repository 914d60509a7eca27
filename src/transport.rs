use vstd::prelude::*;

use crate::config::{TransportConfig, WebSocketConfig};

verus! {

/// An acceptor that runs the WebSocket upgrade on each accepted connection.
#[derive(Clone, Debug)]
pub struct WsAcceptor<L> {
    pub inner: L,
    pub path: String,
}

/// A connector that runs the client-side WebSocket upgrade on each dialed
/// stream.
#[derive(Clone, Debug)]
pub struct WsConnector<C> {
    pub inner: C,
    pub path: String,
}

/// A network-level acceptor with the transport wrapper of its side.
#[derive(Clone, Debug)]
pub enum TransAcceptor<L> {
    Plain(L),
    WS(WsAcceptor<L>),
}

/// A network-level connector with the transport wrapper of its side.
#[derive(Clone, Debug)]
pub enum TransConnector<C> {
    Plain(C),
    WS(WsConnector<C>),
}

/// Errors of wrapping: QUIC's transport cannot wrap another network kind.
#[derive(Clone, Copy, Debug, PartialEq, Eq, Structural)]
pub enum WrapError {
    NotAWrapper,
}

impl<L> WsAcceptor<L> {
    /// Whether an upgrade request for `request_path` is served; any other
    /// path fails that one handshake.
    pub fn admits(&self, request_path: &String) -> (r: bool)
        ensures
            r == (request_path@ == self.path@),
    {
        *request_path == self.path
    }
}

impl WebSocketConfig {
    pub fn apply_to_lis<L>(&self, lis: L) -> (r: WsAcceptor<L>)
        ensures
            r.inner == lis,
            r.path@ == self.path@,
    {
        WsAcceptor { inner: lis, path: self.path.clone() }
    }

    pub fn apply_to_conn<C>(&self, conn: C) -> (r: WsConnector<C>)
        ensures
            r.inner == conn,
            r.path@ == self.path@,
    {
        WsConnector { inner: conn, path: self.path.clone() }
    }
}

/// `r` is `lis` under the wrapper that `trans` names.
pub open spec fn wraps_lis<L>(r: TransAcceptor<L>, trans: TransportConfig, lis: L) -> bool {
    match trans {
        TransportConfig::Plain => r == TransAcceptor::Plain(lis),
        TransportConfig::WS(ws) => r is WS && r->WS_0.inner == lis && r->WS_0.path@ == ws.path@,
        TransportConfig::QUIC(_) => false,
    }
}

/// `r` is `conn` under the wrapper that `trans` names.
pub open spec fn wraps_conn<C>(r: TransConnector<C>, trans: TransportConfig, conn: C) -> bool {
    match trans {
        TransportConfig::Plain => r == TransConnector::Plain(conn),
        TransportConfig::WS(ws) => r is WS && r->WS_0.inner == conn && r->WS_0.path@ == ws.path@,
        TransportConfig::QUIC(_) => false,
    }
}

impl TransportConfig {
    /// Layers this wrapper over a network-level acceptor. QUIC's transport
    /// is part of the QUIC network kind and wraps nothing else.
    pub fn apply_to_lis<L>(&self, lis: L) -> (r: Result<TransAcceptor<L>, WrapError>)
        ensures
            self is QUIC <==> r is Err,
            r is Ok ==> wraps_lis(r->Ok_0, *self, lis),
    {
        match self {
            TransportConfig::Plain => Ok(TransAcceptor::Plain(lis)),
            TransportConfig::WS(ws) => Ok(TransAcceptor::WS(ws.apply_to_lis(lis))),
            TransportConfig::QUIC(_) => Err(WrapError::NotAWrapper),
        }
    }

    /// Layers this wrapper over a network-level connector. QUIC's transport
    /// is part of the QUIC network kind and wraps nothing else.
    pub fn apply_to_conn<C>(&self, conn: C) -> (r: Result<TransConnector<C>, WrapError>)
        ensures
            self is QUIC <==> r is Err,
            r is Ok ==> wraps_conn(r->Ok_0, *self, conn),
    {
        match self {
            TransportConfig::Plain => Ok(TransConnector::Plain(conn)),
            TransportConfig::WS(ws) => Ok(TransConnector::WS(ws.apply_to_conn(conn))),
            TransportConfig::QUIC(_) => Err(WrapError::NotAWrapper),
        }
    }
}

} // verus!
