//! Application settings for the proxy: the backend origin, the TLS trust
//! flag, and the two locally assigned listening ports.

use vstd::prelude::*;
use crate::urls::dec_digits;
use crate::urls::localhost_authority;

verus! {

/// Settings of the desktop application, as the host persists and edits them.
#[derive(Debug, Clone)]
pub struct AppSettings {
    /// Backend origin URL, e.g. `https://assistant` or `http://localhost:3000`.
    pub backend_url: String,
    /// Whether to skip TLS certificate validation when dialing the backend.
    pub skip_cert_validation: bool,
    /// Local HTTP proxy port; `0` while no HTTP proxy instance is running.
    pub proxy_port: u16,
    /// Local WebSocket proxy port; `0` while no WebSocket proxy instance is running.
    pub ws_proxy_port: u16,
}

/// The backend origin used when no settings have been stored yet.
pub fn default_backend_url() -> (r: String)
    ensures
        r@ == "https://assistant"@,
{
    String::from_str("https://assistant")
}

/// The trust-policy flag used when no settings have been stored yet.
pub fn default_skip_cert_validation() -> (r: bool)
    ensures
        r == true,
{
    true
}

impl AppSettings {
    /// The freshly initialised settings value: default origin and trust flag,
    /// no ports assigned.
    pub open spec fn is_default(self) -> bool {
        &&& self.backend_url@ == "https://assistant"@
        &&& self.skip_cert_validation == true
        &&& self.proxy_port == 0
        &&& self.ws_proxy_port == 0
    }

    /// Apply a partial update from the host: a field changes only when a new
    /// value is supplied, and the result says whether the proxy must restart,
    /// which is exactly when a supplied value differs from the stored one.
    /// The recorded ports are untouched.
    pub fn apply_update(
        &mut self,
        backend_url: Option<String>,
        skip_cert_validation: Option<bool>,
    ) -> (needs_restart: bool)
        ensures
            final(self).backend_url@ == (match backend_url {
                Some(u) => u@,
                None => old(self).backend_url@,
            }),
            final(self).skip_cert_validation == (match skip_cert_validation {
                Some(s) => s,
                None => old(self).skip_cert_validation,
            }),
            final(self).proxy_port == old(self).proxy_port,
            final(self).ws_proxy_port == old(self).ws_proxy_port,
            needs_restart == ({
                ||| (backend_url matches Some(u) && u@ != old(self).backend_url@)
                ||| (skip_cert_validation matches Some(s) && s != old(
                    self,
                ).skip_cert_validation)
            }),
    {
        let mut needs_restart = false;
        match backend_url {
            Some(u) => {
                if !(u == self.backend_url) {
                    self.backend_url = u;
                    needs_restart = true;
                }
            },
            None => {},
        }
        match skip_cert_validation {
            Some(s) => {
                if s != self.skip_cert_validation {
                    self.skip_cert_validation = s;
                    needs_restart = true;
                }
            },
            None => {},
        }
        needs_restart
    }

    /// Record the two ports of the generation that just started; nothing else
    /// changes.
    pub fn record_ports(&mut self, http_port: u16, ws_port: u16)
        ensures
            final(self).proxy_port == http_port,
            final(self).ws_proxy_port == ws_port,
            final(self).backend_url == old(self).backend_url,
            final(self).skip_cert_validation == old(self).skip_cert_validation,
    {
        self.proxy_port = http_port;
        self.ws_proxy_port = ws_port;
    }

    /// The authority the web client should connect to: `localhost:<port>`
    /// when an HTTP proxy instance is running, and an error otherwise.
    pub fn get_proxy_url(&self) -> (r: Result<String, String>)
        ensures
            self.proxy_port > 0 ==> (r matches Ok(u) && u@ == "localhost:"@ + dec_digits(
                self.proxy_port as int,
            )),
            self.proxy_port == 0 ==> (r matches Err(m) && m@ == "Proxy not running"@),
    {
        proof {
            reveal_strlit("Proxy not running");
        }
        if self.proxy_port > 0 {
            Ok(localhost_authority(self.proxy_port))
        } else {
            Err(String::from_str("Proxy not running"))
        }
    }

    /// The WebSocket proxy port when an instance is running, and an error
    /// otherwise.
    pub fn get_ws_proxy_port(&self) -> (r: Result<u16, String>)
        ensures
            self.ws_proxy_port > 0 ==> r == Ok::<u16, String>(self.ws_proxy_port),
            self.ws_proxy_port == 0 ==> (r matches Err(m) && m@
                == "WebSocket proxy not running"@),
    {
        proof {
            reveal_strlit("WebSocket proxy not running");
        }
        if self.ws_proxy_port > 0 {
            Ok(self.ws_proxy_port)
        } else {
            Err(String::from_str("WebSocket proxy not running"))
        }
    }

    /// The stored backend origin, as the host's settings surface reports it.
    pub fn get_backend_url(&self) -> (r: String)
        ensures
            r@ == self.backend_url@,
    {
        self.backend_url.clone()
    }

    /// Replace the stored backend origin; nothing else changes.
    pub fn set_backend_url(&mut self, url: String)
        ensures
            final(self).backend_url == url,
            final(self).skip_cert_validation == old(self).skip_cert_validation,
            final(self).proxy_port == old(self).proxy_port,
            final(self).ws_proxy_port == old(self).ws_proxy_port,
    {
        self.backend_url = url;
    }
}

impl Default for AppSettings {
    fn default() -> (r: Self)
        ensures
            r.is_default(),
    {
        AppSettings {
            backend_url: default_backend_url(),
            skip_cert_validation: default_skip_cert_validation(),
            proxy_port: 0,
            ws_proxy_port: 0,
        }
    }
}

} // verus!
