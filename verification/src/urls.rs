//! URL derivations for the proxy: backend-origin validity, scheme rewriting
//! for the upstream WebSocket endpoint, trailing-slash trimming, target-URL
//! construction and the local authority string handed to the web client.

use vstd::prelude::*;

verus! {

/// An origin the proxy can dial: it carries an `http` or `https` scheme.
pub open spec fn is_http_origin(s: Seq<char>) -> bool {
    ("http://"@).is_prefix_of(s) || ("https://"@).is_prefix_of(s)
}

/// `s` with every trailing `'/'` removed.
pub open spec fn trim_trailing_slashes(s: Seq<char>) -> Seq<char>
    decreases s.len(),
{
    if s.len() > 0 && s.last() == '/' {
        trim_trailing_slashes(s.drop_last())
    } else {
        s
    }
}

/// `origin` with its scheme rewritten for WebSocket use:
/// `http://` becomes `ws://` and `https://` becomes `wss://`.
pub open spec fn scheme_swapped(origin: Seq<char>) -> Seq<char> {
    if ("http://"@).is_prefix_of(origin) {
        "ws://"@ + origin.skip("http://"@.len() as int)
    } else if ("https://"@).is_prefix_of(origin) {
        "wss://"@ + origin.skip("https://"@.len() as int)
    } else {
        origin
    }
}

/// The upstream WebSocket endpoint derived from a backend origin: scheme
/// rewritten, trailing slashes trimmed, and `/ws` appended.
pub open spec fn ws_url_spec(origin: Seq<char>) -> Seq<char> {
    trim_trailing_slashes(scheme_swapped(origin)) + "/ws"@
}

/// Whether `prefix` is a prefix of `s`, decided character by character.
pub fn starts_with(s: &str, prefix: &str) -> (r: bool)
    ensures
        r == prefix@.is_prefix_of(s@),
{
    let n = prefix.unicode_len();
    let m = s.unicode_len();
    if n > m {
        return false;
    }
    let mut i: usize = 0;
    while i < n
        invariant
            n == prefix@.len(),
            m == s@.len(),
            n <= m,
            i <= n,
            forall|j: int| 0 <= j < i ==> s@[j] == prefix@[j],
        decreases n - i,
    {
        let cs = s.get_char(i);
        let cp = prefix.get_char(i);
        if cs != cp {
            proof {
                assert(s@.subrange(0, n as int)[i as int] == s@[i as int]);
            }
            return false;
        }
        i += 1;
    }
    proof {
        assert(prefix@ =~= s@.subrange(0, n as int));
    }
    true
}

/// `s` with every trailing `'/'` removed.
pub fn trimmed(s: &str) -> (r: String)
    ensures
        r@ == trim_trailing_slashes(s@),
{
    let mut end = s.unicode_len();
    proof {
        assert(s@.subrange(0, end as int) =~= s@);
    }
    while end > 0 && s.get_char(end - 1) == '/'
        invariant
            end <= s@.len(),
            trim_trailing_slashes(s@) == trim_trailing_slashes(s@.subrange(0, end as int)),
        decreases end,
    {
        proof {
            let t = s@.subrange(0, end as int);
            assert(t.last() == s@[end - 1]);
            assert(t.drop_last() =~= s@.subrange(0, end - 1));
        }
        end -= 1;
    }
    proof {
        let t = s@.subrange(0, end as int);
        if end > 0 {
            assert(t.last() == s@[end as int - 1]);
        }
        assert(trim_trailing_slashes(t) == t);
    }
    let cut = s.substring_char(0, end);
    cut.to_owned()
}

/// The upstream WebSocket endpoint for a backend origin: `http`→`ws`,
/// `https`→`wss`, trailing slashes trimmed, `/ws` appended.
pub fn ws_url(origin: &str) -> (r: String)
    ensures
        r@ == ws_url_spec(origin@),
{
    proof {
        reveal_strlit("http://");
        reveal_strlit("https://");
    }
    let swapped: String = if starts_with(origin, "http://") {
        let rest = origin.substring_char(7, origin.unicode_len());
        String::from_str("ws://").concat(rest)
    } else if starts_with(origin, "https://") {
        let rest = origin.substring_char(8, origin.unicode_len());
        String::from_str("wss://").concat(rest)
    } else {
        origin.to_owned()
    };
    proof {
        assert(swapped@ =~= scheme_swapped(origin@));
    }
    let t = trimmed(swapped.as_str());
    t.concat("/ws")
}

/// The URL a proxied HTTP request is forwarded to: the backend origin with
/// trailing slashes trimmed, followed by the inbound path and query verbatim.
pub fn target_url(backend: &str, path_and_query: &str) -> (r: String)
    ensures
        r@ == trim_trailing_slashes(backend@) + path_and_query@,
{
    let t = trimmed(backend);
    t.concat(path_and_query)
}

/// The decimal digit character for `d` (meaningful for `0 <= d <= 9`).
pub open spec fn digit_char(d: int) -> char {
    if d == 0 {
        '0'
    } else if d == 1 {
        '1'
    } else if d == 2 {
        '2'
    } else if d == 3 {
        '3'
    } else if d == 4 {
        '4'
    } else if d == 5 {
        '5'
    } else if d == 6 {
        '6'
    } else if d == 7 {
        '7'
    } else if d == 8 {
        '8'
    } else {
        '9'
    }
}

/// The decimal representation of `n`, without leading zeros (meaningful for
/// `n >= 0`).
pub open spec fn dec_digits(n: int) -> Seq<char>
    decreases n,
{
    if n < 10 {
        seq![digit_char(n)]
    } else {
        dec_digits(n / 10).push(digit_char(n % 10))
    }
}

fn digit_str(d: u16) -> (r: String)
    requires
        d < 10,
    ensures
        r@ == seq![digit_char(d as int)],
{
    let s: &str = match d {
        0 => "0",
        1 => "1",
        2 => "2",
        3 => "3",
        4 => "4",
        5 => "5",
        6 => "6",
        7 => "7",
        8 => "8",
        _ => "9",
    };
    proof {
        reveal_strlit("0");
        reveal_strlit("1");
        reveal_strlit("2");
        reveal_strlit("3");
        reveal_strlit("4");
        reveal_strlit("5");
        reveal_strlit("6");
        reveal_strlit("7");
        reveal_strlit("8");
        reveal_strlit("9");
        assert(s@ =~= seq![digit_char(d as int)]);
    }
    String::from_str(s)
}

/// The decimal representation of `n`, most significant digit first.
pub fn u16_decimal(n: u16) -> (r: String)
    ensures
        r@ == dec_digits(n as int),
    decreases n,
{
    if n < 10 {
        digit_str(n)
    } else {
        let high = u16_decimal(n / 10);
        let low = digit_str(n % 10);
        let r = high.concat(low.as_str());
        proof {
            assert(r@ =~= dec_digits(n as int / 10).push(digit_char(n as int % 10)));
        }
        r
    }
}

/// The authority string of a local listener, `localhost:<port>` in decimal.
pub fn localhost_authority(port: u16) -> (r: String)
    ensures
        r@ == "localhost:"@ + dec_digits(port as int),
{
    let p = u16_decimal(port);
    String::from_str("localhost:").concat(p.as_str())
}

/// Whether a stored backend origin is one the proxy can dial.
pub fn has_http_scheme(s: &str) -> (r: bool)
    ensures
        r == is_http_origin(s@),
{
    let a = starts_with(s, "http://");
    let b = starts_with(s, "https://");
    a || b
}

} // verus!
