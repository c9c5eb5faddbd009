//! The gateway's configuration, as the request-handling code reads it.
//!
//! Parsing the backing file and watching it for changes are the shell's
//! business; the library only holds the recognised options as plain values
//! and builds the socket addresses the listeners bind to.

use vstd::prelude::*;
use vstd::string::StringExecFns;

verus! {

/// The ports of the four listening surfaces.
#[derive(Clone, Debug, PartialEq, Eq)]
pub struct Ports {
    /// Port of the mutual-TLS request listener.
    pub http: String,
    /// Port of the plain health listener.
    pub http_health: String,
    /// Port of the RPC request listener.
    pub grpc: String,
    /// Port of the RPC health surface.
    pub grpc_health: String,
}

/// The service's bind address and ports.
#[derive(Clone, Debug, PartialEq, Eq)]
pub struct Service {
    /// Address every listener binds to.
    pub addr: String,
    pub ports: Ports,
}

/// Paths of the TLS material, consulted once at startup; the context built
/// from them is not hot-reloaded.
#[derive(Clone, Debug, PartialEq, Eq)]
pub struct Tls {
    pub certificate: String,
    pub key: String,
    pub cert_autority: String,
}

/// This gateway's configuration.
#[derive(Clone, Debug, PartialEq, Eq)]
pub struct PermissionsConfig {
    pub service: Service,
    pub tls: Tls,
    /// Base URL of the identity store.
    pub kratos_url: String,
}

/// An address and a port joined into the form a listener binds to.
pub open spec fn spec_endpoint(addr: Seq<char>, port: Seq<char>) -> Seq<char> {
    addr + ":"@ + port
}

impl Service {
    /// The socket address string for one of this service's ports.
    pub fn endpoint(&self, port: &String) -> (r: String)
        ensures
            r@ == spec_endpoint(self.addr@, port@),
    {
        let mut r = self.addr.clone();
        r.append(":");
        r.append(port.as_str());
        r
    }
}

} // verus!
