//! Decision logic of the HTTP forwarder: which headers travel in each
//! direction, which method is used upstream, what URL is dialed, and what
//! reply the client receives for every outcome of the backend exchange.

use vstd::prelude::*;
use crate::urls::target_url;
use crate::urls::trim_trailing_slashes;

verus! {

/// The headers of `hs` whose name is not `excluded`, in their original order.
pub open spec fn headers_without(hs: Seq<(String, String)>, excluded: Seq<char>) -> Seq<
    (String, String),
> {
    hs.filter(|h: (String, String)| h.0@ != excluded)
}

proof fn lemma_headers_without_step(s: Seq<(String, String)>, excluded: Seq<char>, i: int)
    requires
        0 <= i < s.len(),
    ensures
        headers_without(s.take(i + 1), excluded) == if s[i].0@ != excluded {
            headers_without(s.take(i), excluded).push(s[i])
        } else {
            headers_without(s.take(i), excluded)
        },
{
    reveal_with_fuel(Seq::<(String, String)>::filter, 2);
    let t = s.take(i + 1);
    assert(t.drop_last() =~= s.take(i));
    assert(t.last() == s[i]);
}

/// Copy of `headers` without every header named `excluded`, order preserved.
pub fn strip_header(headers: &Vec<(String, String)>, excluded: &String) -> (r: Vec<
    (String, String),
>)
    ensures
        r@ == headers_without(headers@, excluded@),
{
    let mut out: Vec<(String, String)> = Vec::new();
    let mut i: usize = 0;
    proof {
        assert(headers@.take(0int) =~= Seq::<(String, String)>::empty());
    }
    while i < headers.len()
        invariant
            i <= headers@.len(),
            out@ == headers_without(headers@.take(i as int), excluded@),
        decreases headers@.len() - i,
    {
        let h = &headers[i];
        if !(h.0 == *excluded) {
            out.push((h.0.clone(), h.1.clone()));
        }
        proof {
            lemma_headers_without_step(headers@, excluded@, i as int);
        }
        i += 1;
    }
    proof {
        assert(headers@.take(headers@.len() as int) =~= headers@);
    }
    out
}

/// No stripped header list ever carries the excluded name: in particular,
/// `Host` is never forwarded to the backend and `Transfer-Encoding` is never
/// present on the reply.
pub proof fn lemma_no_excluded_header(hs: Seq<(String, String)>, excluded: Seq<char>)
    ensures
        forall|i: int|
            0 <= i < headers_without(hs, excluded).len() ==> headers_without(hs, excluded)[i].0@
                != excluded,
    decreases hs.len(),
{
    reveal_with_fuel(Seq::<(String, String)>::filter, 2);
    if hs.len() > 0 {
        lemma_no_excluded_header(hs.drop_last(), excluded);
        let prev = headers_without(hs.drop_last(), excluded);
        let cur = headers_without(hs, excluded);
        assert forall|i: int| 0 <= i < cur.len() implies cur[i].0@ != excluded by {
            if i < prev.len() {
                assert(cur[i] == prev[i]);
            } else {
                assert(cur[i] == hs.last());
            }
        }
    }
}

/// A character allowed in an HTTP method token.
pub open spec fn is_method_char(c: char) -> bool {
    ||| 'a' <= c <= 'z'
    ||| 'A' <= c <= 'Z'
    ||| '0' <= c <= '9'
    ||| c == '!'
    ||| c == '#'
    ||| c == '$'
    ||| c == '%'
    ||| c == '&'
    ||| c == '\''
    ||| c == '*'
    ||| c == '+'
    ||| c == '-'
    ||| c == '.'
    ||| c == '^'
    ||| c == '_'
    ||| c == '`'
    ||| c == '|'
    ||| c == '~'
}

/// A non-empty string of method-token characters.
pub open spec fn is_valid_method(m: Seq<char>) -> bool {
    m.len() > 0 && (forall|i: int| 0 <= i < m.len() ==> is_method_char(m[i]))
}

/// The method sent upstream: the inbound method when it is a valid token,
/// and `GET` as the lenient fallback otherwise.
pub open spec fn method_fallback(m: Seq<char>) -> Seq<char> {
    if is_valid_method(m) {
        m
    } else {
        "GET"@
    }
}

fn method_char_ok(c: char) -> (r: bool)
    ensures
        r == is_method_char(c),
{
    ('a' <= c && c <= 'z') || ('A' <= c && c <= 'Z') || ('0' <= c && c <= '9') || c == '!' || c
        == '#' || c == '$' || c == '%' || c == '&' || c == '\'' || c == '*' || c == '+' || c == '-'
        || c == '.' || c == '^' || c == '_' || c == '`' || c == '|' || c == '~'
}

/// The method string used for the outbound request; falls back to `GET` when
/// the inbound method is not a valid token.
pub fn upstream_method(method: &str) -> (r: String)
    ensures
        r@ == method_fallback(method@),
{
    let n = method.unicode_len();
    let mut ok = n > 0;
    let mut i: usize = 0;
    while i < n
        invariant
            n == method@.len(),
            i <= n,
            ok == (n > 0 && (forall|j: int| 0 <= j < i ==> is_method_char(method@[j]))),
        decreases n - i,
    {
        let c = method.get_char(i);
        if !method_char_ok(c) {
            ok = false;
        }
        i += 1;
    }
    if ok {
        method.to_owned()
    } else {
        String::from_str("GET")
    }
}

/// The fully assembled outbound request: target URL, upstream method,
/// forwarded headers, and the body to attach (absent when empty).
pub struct UpstreamRequestPlan {
    pub url: String,
    pub method: String,
    pub headers: Vec<(String, String)>,
    pub body: Option<Vec<u8>>,
}

impl UpstreamRequestPlan {
    /// What a correct plan holds for a given backend origin and inbound request.
    pub open spec fn is_plan_for(
        self,
        backend: Seq<char>,
        path_and_query: Seq<char>,
        method: Seq<char>,
        headers: Seq<(String, String)>,
        body: Seq<u8>,
    ) -> bool {
        &&& self.url@ == trim_trailing_slashes(backend) + path_and_query
        &&& self.method@ == method_fallback(method)
        &&& self.headers@ == headers_without(headers, "host"@)
        &&& (body.len() == 0 ==> self.body is None)
        &&& (body.len() > 0 ==> (self.body matches Some(v) && v@ == body))
    }
}

/// The outbound request derived from one inbound request: the target URL is
/// the trimmed backend origin plus the inbound path and query, the `Host`
/// header is dropped, all other headers travel verbatim, the body is attached
/// only when non-empty, and an invalid method falls back to `GET`.
pub fn plan_upstream_request(
    backend: &str,
    path_and_query: &str,
    method: &str,
    headers: &Vec<(String, String)>,
    body: Vec<u8>,
) -> (r: UpstreamRequestPlan)
    ensures
        r.is_plan_for(backend@, path_and_query@, method@, headers@, body@),
        body@.len() > 0 ==> r.body == Some(body),
{
    let url = target_url(backend, path_and_query);
    let m = upstream_method(method);
    let host = String::from_str("host");
    let hs = strip_header(headers, &host);
    let attached: Option<Vec<u8>> = if body.len() > 0 {
        Some(body)
    } else {
        None
    };
    UpstreamRequestPlan { url, method: m, headers: hs, body: attached }
}

/// The reply the proxy sends back to its own client.
pub enum ForwardReply {
    /// The backend answered: its status, its headers except
    /// `Transfer-Encoding`, and its fully buffered body are re-emitted.
    Relayed { status: u16, headers: Vec<(String, String)>, body: Vec<u8> },
    /// The exchange failed: a plain-text diagnostic with the given status.
    Failed { status: u16, message: String },
}

/// What the backend exchange produced, as the I/O layer reports it.
pub enum BackendOutcome {
    /// A response arrived; reading its body may still have failed.
    Response { status: u16, headers: Vec<(String, String)>, body: Result<Vec<u8>, String> },
    /// The request could not be sent or timed out; the detail names the failure.
    SendFailed { detail: String },
}

/// The reply for every possible outcome of the backend exchange: a received
/// response is relayed with its status and body verbatim and without
/// `Transfer-Encoding`; an unreachable or failing backend yields `502` with a
/// non-empty diagnostic body.
pub fn reply_for_outcome(outcome: BackendOutcome) -> (r: ForwardReply)
    ensures
        (match outcome {
            BackendOutcome::Response { status, headers, body } => match body {
                Ok(b) => r matches ForwardReply::Relayed { status: s, headers: hs, body: b2 }
                    && s == status && hs@ == headers_without(headers@, "transfer-encoding"@)
                    && b2 == b,
                Err(_) => r matches ForwardReply::Failed { status: s, message }
                    && s == 502 && message@ == "Failed to read response"@,
            },
            BackendOutcome::SendFailed { detail } => r matches ForwardReply::Failed {
                status: s,
                message,
            } && s == 502 && message@ == "Proxy error: "@ + detail@,
        }),
        r matches ForwardReply::Failed { status, message } ==> status == 502 && message@.len() > 0,
{
    proof {
        reveal_strlit("Failed to read response");
        reveal_strlit("Proxy error: ");
    }
    match outcome {
        BackendOutcome::Response { status, headers, body } => match body {
            Ok(b) => {
                let te = String::from_str("transfer-encoding");
                let hs = strip_header(&headers, &te);
                ForwardReply::Relayed { status, headers: hs, body: b }
            },
            Err(_) => ForwardReply::Failed {
                status: 502,
                message: String::from_str("Failed to read response"),
            },
        },
        BackendOutcome::SendFailed { detail } => ForwardReply::Failed {
            status: 502,
            message: String::from_str("Proxy error: ").concat(detail.as_str()),
        },
    }
}

/// The reply for an inbound request whose body could not be read: a `400`
/// with a short diagnostic.
pub fn reply_for_unreadable_request() -> (r: ForwardReply)
    ensures
        r matches ForwardReply::Failed { status, message } && status == 400 && message@
            == "Failed to read request body"@,
        r matches ForwardReply::Failed { status, message } ==> message@.len() > 0,
{
    proof {
        reveal_strlit("Failed to read request body");
    }
    ForwardReply::Failed { status: 400, message: String::from_str("Failed to read request body") }
}

} // verus!
