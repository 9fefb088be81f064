//! TLS settings of outgoing gRPC connections.

use vstd::prelude::*;

verus! {

/// A client certificate and key, as paths of PEM files.
#[derive(Clone, Debug)]
pub struct TlsIdentity {
    /// Certificate file.
    pub cert: String,
    /// Private key file.
    pub key: String,
}

/// TLS configuration of a gRPC client.
#[derive(Clone, Debug)]
pub struct TonicTlsConfig {
    /// Domain name to verify the server certificate against.
    pub domain: Option<String>,
    /// Extra CA certificate files.
    pub ca_certs: Vec<String>,
    /// Client identity.
    pub identity: Option<TlsIdentity>,
    /// Assume the server speaks HTTP/2.
    pub assume_http2: bool,
    /// Trust the system's root certificates.
    pub with_native_roots: bool,
    /// Log session keys for debugging.
    pub use_key_log: bool,
}

impl Default for TonicTlsConfig {
    fn default() -> (r: TonicTlsConfig)
        ensures
            r.domain is None && r.ca_certs@.len() == 0 && r.identity is None,
            !r.assume_http2 && r.with_native_roots && !r.use_key_log,
    {
        TonicTlsConfig {
            domain: None,
            ca_certs: Vec::new(),
            identity: None,
            assume_http2: false,
            with_native_roots: true,
            use_key_log: false,
        }
    }
}

impl TonicTlsConfig {
    /// Files to read before the TLS configuration can be built: the CA
    /// certificates in order, then the identity's certificate and key.
    pub fn files_to_read(&self) -> (r: Vec<String>)
        ensures
            r@.len() == self.ca_certs@.len() + if self.identity is Some { 2int } else { 0int },
            forall|i: int| 0 <= i < self.ca_certs@.len() ==> (#[trigger] r@[i])@ == self.ca_certs@[i]@,
            self.identity matches Some(id) ==> r@[self.ca_certs@.len() as int]@ == id.cert@
                && r@[self.ca_certs@.len() as int + 1]@ == id.key@,
    {
        let mut r: Vec<String> = Vec::new();
        let mut i: usize = 0;
        while i < self.ca_certs.len()
            invariant
                i <= self.ca_certs@.len(),
                r@.len() == i,
                forall|j: int| 0 <= j < i ==> (#[trigger] r@[j])@ == self.ca_certs@[j]@,
            decreases self.ca_certs@.len() - i,
        {
            r.push(crate::text::owned(self.ca_certs[i].as_str()));
            i = i + 1;
        }
        if let Some(id) = &self.identity {
            r.push(crate::text::owned(id.cert.as_str()));
            r.push(crate::text::owned(id.key.as_str()));
        }
        r
    }
}

} // verus!
