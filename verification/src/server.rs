use vstd::prelude::*;
use crate::router::Router;
use std::sync::Arc;
use tokio_rustls::TlsAcceptor;

verus! {

#[verifier::external_type_specification]
#[verifier::external_body]
pub struct ExTlsAcceptor(TlsAcceptor);

/// `Clone for tokio_rustls::TlsAcceptor`: another handle on the same TLS
/// configuration. The acceptor is opaque, so nothing is stated of it.
#[verifier::external_body]
fn clone_acceptor(acceptor: &TlsAcceptor) -> TlsAcceptor {
    acceptor.clone()
}

/// The chat server: where it listens, its router, and the TLS acceptor when
/// connections are to be encrypted.
pub struct Server {
    addr: String,
    router: Arc<Router>,
    tls_acceptor: Option<TlsAcceptor>,
}

impl Server {
    pub closed spec fn addr_spec(&self) -> Seq<char> {
        self.addr@
    }

    pub closed spec fn router_spec(&self) -> Arc<Router> {
        self.router
    }

    /// Whether connections are served over TLS.
    pub closed spec fn uses_tls(&self) -> bool {
        self.tls_acceptor is Some
    }

    /// A server for `addr` with a fresh router; TLS when an acceptor is given.
    pub fn new(addr: String, tls_acceptor: Option<TlsAcceptor>) -> (s: Server)
        ensures
            s.addr_spec() == addr@,
            s.uses_tls() == tls_acceptor is Some,
    {
        let router = Arc::new(Router::new());
        Server { addr, router, tls_acceptor }
    }

    /// The address the server listens on.
    pub fn addr(&self) -> (a: &str)
        ensures
            a@ == self.addr_spec(),
    {
        self.addr.as_str()
    }

    /// Another handle on the server's router.
    pub fn router(&self) -> (r: Arc<Router>)
        ensures
            r == self.router_spec(),
    {
        Arc::clone(&self.router)
    }

    /// The TLS acceptor, when connections are encrypted.
    pub fn tls_acceptor(&self) -> (a: Option<&TlsAcceptor>)
        ensures
            a is Some == self.uses_tls(),
    {
        self.tls_acceptor.as_ref()
    }

    /// How connections are served: `TLS` or `Plain`.
    pub fn mode(&self) -> (m: &'static str)
        ensures
            m@ == (if self.uses_tls() {
                "TLS"@
            } else {
                "Plain"@
            }),
    {
        if self.tls_acceptor.is_some() {
            "TLS"
        } else {
            "Plain"
        }
    }
}

impl Clone for Server {
    /// Another handle on the same server: same address, router and TLS mode.
    fn clone(&self) -> (s: Self)
        ensures
            s.addr_spec() == self.addr_spec(),
            s.router_spec() == self.router_spec(),
            s.uses_tls() == self.uses_tls(),
    {
        let tls_acceptor = match &self.tls_acceptor {
            Some(a) => Some(clone_acceptor(a)),
            None => None,
        };
        Server { addr: self.addr.clone(), router: Arc::clone(&self.router), tls_acceptor }
    }
}

} // verus!
