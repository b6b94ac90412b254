//! The proxy supervisor: it owns at most one HTTP and one WebSocket proxy
//! instance, records the ports the OS assigned to them, holds each
//! instance's single-use shutdown signal, and keeps both instances starting
//! and stopping together as a unit.

use vstd::prelude::*;
use crate::forward::UpstreamRequestPlan;
use crate::urls::has_http_scheme;
use crate::urls::is_http_origin;
use crate::urls::trim_trailing_slashes;

verus! {

/// Configuration of one proxy generation; immutable once the generation runs.
#[derive(Debug, Clone)]
pub struct ProxyConfig {
    /// The single upstream base URL all proxied traffic targets.
    pub backend_origin: String,
    /// Whether the outbound TLS leg accepts any certificate.
    pub bypass_tls_validation: bool,
}

impl ProxyConfig {
    /// The configuration invariant: the origin carries an `http` or `https`
    /// scheme.
    pub open spec fn wf(self) -> bool {
        is_http_origin(self.backend_origin@)
    }

    /// Build a configuration, rejecting an origin without an `http` or
    /// `https` scheme.
    pub fn checked(backend_origin: String, bypass_tls_validation: bool) -> (r: Option<ProxyConfig>)
        ensures
            is_http_origin(backend_origin@) ==> (r matches Some(c) && c.backend_origin
                == backend_origin && c.bypass_tls_validation == bypass_tls_validation && c.wf()),
            !is_http_origin(backend_origin@) ==> r is None,
    {
        if has_http_scheme(backend_origin.as_str()) {
            Some(ProxyConfig { backend_origin, bypass_tls_validation })
        } else {
            None
        }
    }
}

/// One proxy instance of a single kind, as the supervisor tracks it.
#[derive(Debug)]
pub enum InstanceState {
    /// No instance of this kind is running.
    Stopped,
    /// An instance listens on `port`; `signal_available` records whether its
    /// single-use shutdown signal has not been consumed yet.
    Running { port: u16, signal_available: bool },
}

impl InstanceState {
    /// Whether an instance of this kind is running.
    pub open spec fn is_running(self) -> bool {
        self is Running
    }

    /// The recorded listening port; `0` when stopped.
    pub open spec fn port_of(self) -> u16 {
        match self {
            InstanceState::Running { port, .. } => port,
            InstanceState::Stopped => 0,
        }
    }

    /// Whether a shutdown signal can still be sent to this instance.
    pub open spec fn can_signal(self) -> bool {
        self matches InstanceState::Running { signal_available: true, .. }
    }
}

/// The supervisor's state: the configuration of the current generation and
/// the two instances it produced.
#[derive(Debug)]
pub struct Supervisor {
    /// The configuration the running generation was started with.
    pub config: Option<ProxyConfig>,
    /// The HTTP forwarder instance.
    pub http: InstanceState,
    /// The WebSocket relay instance.
    pub ws: InstanceState,
}

impl Supervisor {
    /// The supervisor invariant: the two instances run and stop together, a
    /// running generation has a well-formed configuration, and its two ports
    /// are non-zero and distinct.
    pub open spec fn wf(self) -> bool {
        &&& (self.http.is_running() <==> self.ws.is_running())
        &&& (self.http.is_running() ==> (self.config matches Some(c) && c.wf()))
        &&& (self.http.is_running() ==> self.http.port_of() != 0 && self.ws.port_of() != 0
            && self.http.port_of() != self.ws.port_of())
    }

    /// A supervisor that has started nothing yet.
    pub fn new() -> (r: Supervisor)
        ensures
            r.wf(),
            !r.http.is_running(),
            !r.ws.is_running(),
            r.config is None,
    {
        Supervisor { config: None, http: InstanceState::Stopped, ws: InstanceState::Stopped }
    }

    /// Record that both accept loops of a new generation are up on the two
    /// ports the OS assigned. The ports must be real (non-zero) and, being
    /// two simultaneously bound listeners, distinct; both shutdown signals
    /// are fresh.
    pub fn record_started(&mut self, config: ProxyConfig, http_port: u16, ws_port: u16)
        requires
            old(self).wf(),
            config.wf(),
            http_port != 0,
            ws_port != 0,
            http_port != ws_port,
        ensures
            final(self).wf(),
            final(self).config == Some(config),
            final(self).http == (InstanceState::Running {
                port: http_port,
                signal_available: true,
            }),
            final(self).ws == (InstanceState::Running {
                port: ws_port,
                signal_available: true,
            }),
    {
        self.config = Some(config);
        self.http = InstanceState::Running { port: http_port, signal_available: true };
        self.ws = InstanceState::Running { port: ws_port, signal_available: true };
    }

    /// Consume the shutdown signals: the result says, for each kind, whether
    /// a signal must actually be sent, which is exactly when an instance was
    /// running and its single-use signal had not been consumed before.
    /// Afterwards no instance is running, so stopping again is a no-op.
    pub fn stop(&mut self) -> (signals: (bool, bool))
        requires
            old(self).wf(),
        ensures
            final(self).wf(),
            !final(self).http.is_running(),
            !final(self).ws.is_running(),
            final(self).config == old(self).config,
            signals.0 == old(self).http.can_signal(),
            signals.1 == old(self).ws.can_signal(),
    {
        let send_http = match &self.http {
            InstanceState::Running { signal_available, .. } => *signal_available,
            InstanceState::Stopped => false,
        };
        let send_ws = match &self.ws {
            InstanceState::Running { signal_available, .. } => *signal_available,
            InstanceState::Stopped => false,
        };
        self.http = InstanceState::Stopped;
        self.ws = InstanceState::Stopped;
        (send_http, send_ws)
    }
}

/// Outcome of binding and spawning one generation's two accept loops, as the
/// I/O layer reports it.
#[derive(Debug)]
pub enum StartOutcome {
    /// Both listeners are up on these OS-assigned ports.
    Started { http_port: u16, ws_port: u16 },
    /// A port could not be bound; the detail names the failure.
    BindFailed { detail: String },
}

impl Supervisor {
    /// Complete a restart after the old generation was stopped: a successful
    /// start with usable ports — non-zero, and distinct, as two
    /// simultaneously bound listeners are — becomes the new generation and
    /// its ports are handed back; any failure leaves the supervisor with no
    /// running instances (fail-stop, not fail-rollback), and the caller must
    /// retry explicitly.
    pub fn finish_restart(&mut self, config: ProxyConfig, outcome: StartOutcome) -> (r: Result<
        (u16, u16),
        String,
    >)
        requires
            old(self).wf(),
            !old(self).http.is_running(),
            !old(self).ws.is_running(),
            config.wf(),
        ensures
            final(self).wf(),
            (match outcome {
                StartOutcome::Started { http_port, ws_port } => {
                    if http_port != 0 && ws_port != 0 && http_port != ws_port {
                        &&& r == Ok::<(u16, u16), String>((http_port, ws_port))
                        &&& final(self).config == Some(config)
                        &&& final(self).http == (InstanceState::Running {
                            port: http_port,
                            signal_available: true,
                        })
                        &&& final(self).ws == (InstanceState::Running {
                            port: ws_port,
                            signal_available: true,
                        })
                    } else {
                        &&& (r matches Err(m) && m@ == "the OS assigned unusable proxy ports"@)
                        &&& *final(self) == *old(self)
                    }
                },
                StartOutcome::BindFailed { detail } => {
                    &&& r == Err::<(u16, u16), String>(detail)
                    &&& *final(self) == *old(self)
                },
            }),
            r is Err ==> !final(self).http.is_running() && !final(self).ws.is_running(),
    {
        match outcome {
            StartOutcome::Started { http_port, ws_port } => {
                if http_port != 0 && ws_port != 0 && http_port != ws_port {
                    self.record_started(config, http_port, ws_port);
                    Ok((http_port, ws_port))
                } else {
                    proof {
                        reveal_strlit("the OS assigned unusable proxy ports");
                    }
                    Err(String::from_str("the OS assigned unusable proxy ports"))
                }
            },
            StartOutcome::BindFailed { detail } => Err(detail),
        }
    }
}

/// Every request planned under the supervisor's current generation targets
/// that generation's backend origin: its URL extends the trimmed origin of
/// the recorded configuration. A restart that records a new configuration
/// therefore changes the target of every later plan, while a plan already
/// built keeps the origin of the generation it was built under.
pub proof fn lemma_plans_follow_current_generation(
    s: Supervisor,
    c: ProxyConfig,
    p: UpstreamRequestPlan,
    path_and_query: Seq<char>,
    method: Seq<char>,
    headers: Seq<(String, String)>,
    body: Seq<u8>,
)
    requires
        s.config == Some(c),
        p.is_plan_for(c.backend_origin@, path_and_query, method, headers, body),
    ensures
        p.url@ == trim_trailing_slashes(c.backend_origin@) + path_and_query,
        trim_trailing_slashes(c.backend_origin@).is_prefix_of(p.url@),
{
    let origin = trim_trailing_slashes(c.backend_origin@);
    assert(origin =~= (origin + path_and_query).subrange(0, origin.len() as int));
}

/// While a generation runs, its two ports are non-zero and distinct, and
/// both instances are up together.
pub proof fn lemma_running_ports_distinct(s: Supervisor)
    requires
        s.wf(),
        s.http.is_running(),
    ensures
        s.ws.is_running(),
        s.http.port_of() != 0,
        s.ws.port_of() != 0,
        s.http.port_of() != s.ws.port_of(),
{
}

} // verus!
