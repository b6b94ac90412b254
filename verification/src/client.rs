//! The shared upstream client of one proxy generation: backend origin and
//! trust policy are baked in at construction and never mutated, and the two
//! outbound timeouts are fixed.

use vstd::prelude::*;
use crate::tls::TrustPolicy;
use crate::tls::trust_policy_for;
use crate::urls::ws_url;
use crate::urls::ws_url_spec;

verus! {

/// Outbound connect timeout, in seconds.
pub const HTTP_PROXY_CONNECT_TIMEOUT_SECS: u64 = 10;

/// Outbound total request timeout, in seconds.
pub const HTTP_PROXY_REQUEST_TIMEOUT_SECS: u64 = 30;

/// Everything the I/O layer needs to build the shared outbound client of one
/// generation. Read-only after construction.
pub struct UpstreamClientConfig {
    /// The backend origin all proxied traffic targets.
    pub backend_url: String,
    /// Whether certificate validation is skipped on the outbound TLS leg.
    pub skip_cert_validation: bool,
    /// Connect timeout in seconds.
    pub connect_timeout_secs: u64,
    /// Total request timeout in seconds.
    pub request_timeout_secs: u64,
}

impl UpstreamClientConfig {
    /// The client blueprint of a new generation: the given origin and trust
    /// flag, with the fixed 10 s connect and 30 s request timeouts.
    pub fn new(backend_url: String, skip_cert_validation: bool) -> (r: Self)
        ensures
            r.backend_url == backend_url,
            r.skip_cert_validation == skip_cert_validation,
            r.connect_timeout_secs == HTTP_PROXY_CONNECT_TIMEOUT_SECS,
            r.request_timeout_secs == HTTP_PROXY_REQUEST_TIMEOUT_SECS,
    {
        UpstreamClientConfig {
            backend_url,
            skip_cert_validation,
            connect_timeout_secs: HTTP_PROXY_CONNECT_TIMEOUT_SECS,
            request_timeout_secs: HTTP_PROXY_REQUEST_TIMEOUT_SECS,
        }
    }

    /// The fixed upstream WebSocket endpoint of this generation.
    pub fn ws_url(&self) -> (r: String)
        ensures
            r@ == ws_url_spec(self.backend_url@),
    {
        ws_url(self.backend_url.as_str())
    }

    /// The trust policy of this generation.
    pub fn trust_policy(&self) -> (r: TrustPolicy)
        ensures
            r == (if self.skip_cert_validation {
                TrustPolicy::AcceptAll
            } else {
                TrustPolicy::Strict
            }),
    {
        trust_policy_for(self.skip_cert_validation)
    }
}

} // verus!
