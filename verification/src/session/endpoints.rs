//! How the clients derive their endpoints: WebSocket schemes, the host of
//! an authority, the query of an order-gateway session, and which HTTP
//! methods send a JSON body.
use vstd::prelude::*;
use crate::text::{chars_of, str_eq, string_of_chars_from};

verus! {

/// The WebSocket scheme for a base URL's scheme: `ws` for `http`, `wss`
/// for `https`, and, when `keep_ws` holds, `ws` and `wss` themselves;
/// `None` for any other scheme.
pub open spec fn ws_scheme_for(scheme: Seq<char>, keep_ws: bool) -> Option<Seq<char>> {
    if scheme == "http"@ {
        Some("ws"@)
    } else if scheme == "https"@ {
        Some("wss"@)
    } else if keep_ws && scheme == "ws"@ {
        Some("ws"@)
    } else if keep_ws && scheme == "wss"@ {
        Some("wss"@)
    } else {
        None
    }
}

/// The WebSocket scheme for a base URL's scheme (see `ws_scheme_for`).
pub fn ws_scheme(scheme: &str, keep_ws: bool) -> (r: Option<&'static str>)
    ensures
        match ws_scheme_for(scheme@, keep_ws) {
            Some(s) => r matches Some(t) && t@ == s,
            None => r is None,
        },
{
    if str_eq(scheme, "http") {
        Some("ws")
    } else if str_eq(scheme, "https") {
        Some("wss")
    } else if keep_ws && str_eq(scheme, "ws") {
        Some("ws")
    } else if keep_ws && str_eq(scheme, "wss") {
        Some("wss")
    } else {
        None
    }
}

/// The index of the first `c` in `s`.
pub open spec fn first_index_of(s: Seq<char>, c: char) -> Option<int>
    decreases s.len(),
{
    if s.len() == 0 {
        None
    } else {
        match first_index_of(s.drop_last(), c) {
            Some(i) => Some(i),
            None => if s.last() == c {
                Some(s.len() - 1)
            } else {
                None
            },
        }
    }
}

/// The host and port of an authority: what follows its first `@`, or the
/// whole authority when it has no user part.
pub open spec fn host_of(authority: Seq<char>) -> Seq<char> {
    match first_index_of(authority, '@') {
        Some(i) => authority.skip(i + 1),
        None => authority,
    }
}

/// The host and port of an authority (see `host_of`).
pub fn host_of_authority(authority: &str) -> (r: String)
    ensures
        r@ == host_of(authority@),
{
    let chars = chars_of(authority);
    let mut i: usize = 0;
    while i < chars.len()
        invariant
            i <= chars@.len(),
            chars@ == authority@,
            first_index_of(chars@.take(i as int), '@') is None,
        decreases chars.len() - i,
    {
        assert(chars@.take(i + 1).drop_last() =~= chars@.take(i as int));
        if chars[i] == '@' {
            proof {
                assert(first_index_of(chars@.take(i + 1), '@') == Some(i as int));
                lemma_first_index_extend(chars@, '@', i + 1);
            }
            return string_of_chars_from(chars.as_slice(), i + 1);
        }
        i = i + 1;
    }
    assert(chars@.take(i as int) =~= chars@);
    string_of_chars_from(chars.as_slice(), 0)
}

/// Once found in a prefix, the first index of `c` stays the first.
proof fn lemma_first_index_extend(s: Seq<char>, c: char, n: int)
    requires
        0 <= n <= s.len(),
        first_index_of(s.take(n), c) is Some,
    ensures
        first_index_of(s, c) == first_index_of(s.take(n), c),
    decreases s.len() - n,
{
    if n < s.len() {
        assert(s.take(n + 1).drop_last() =~= s.take(n));
        lemma_first_index_extend(s, c, n + 1);
    } else {
        assert(s.take(n) =~= s);
    }
}

/// The query pairs of an order-gateway session URL, in order:
/// `cancel_on_disconnect=true` when asked for, then the account.
pub open spec fn session_query_pairs(cancel_on_disconnect: bool, account_id: Option<Seq<char>>) -> Seq<(Seq<char>, Seq<char>)> {
    let first = if cancel_on_disconnect {
        seq![("cancel_on_disconnect"@, "true"@)]
    } else {
        Seq::empty()
    };
    match account_id {
        Some(a) => first.push(("account_id"@, a)),
        None => first,
    }
}

/// The query pairs of an order-gateway session URL (see
/// `session_query_pairs`).
pub fn session_query(cancel_on_disconnect: bool, account_id: Option<&str>) -> (r: Vec<(String, String)>)
    ensures
        r@.len() == session_query_pairs(cancel_on_disconnect, match account_id {
            Some(a) => Some(a@),
            None => None,
        }).len(),
        forall|i: int| 0 <= i < r@.len() ==> ((#[trigger] r@[i]).0@, r@[i].1@) == session_query_pairs(
            cancel_on_disconnect,
            match account_id {
                Some(a) => Some(a@),
                None => None,
            },
        )[i],
{
    let mut v: Vec<(String, String)> = Vec::new();
    if cancel_on_disconnect {
        v.push((String::from_str("cancel_on_disconnect"), String::from_str("true")));
    }
    match account_id {
        Some(a) => {
            v.push((String::from_str("account_id"), String::from_str(a)));
        },
        None => {},
    }
    v
}

/// An HTTP method of the REST clients.
#[derive(Debug, Clone, Copy, PartialEq, Eq, Structural)]
pub enum HttpMethod {
    Get,
    Post,
    Put,
    Patch,
    Delete,
}

impl HttpMethod {
    /// Whether a request's parameters go in a JSON body (`POST`, `PUT`,
    /// `PATCH`) rather than in the query.
    pub fn sends_json_body(&self) -> (r: bool)
        ensures
            r == (*self == HttpMethod::Post || *self == HttpMethod::Put || *self == HttpMethod::Patch),
    {
        match self {
            HttpMethod::Post => true,
            HttpMethod::Put => true,
            HttpMethod::Patch => true,
            HttpMethod::Get => false,
            HttpMethod::Delete => false,
        }
    }
}

/// Whether an HTTP status is a success (2xx).
pub fn status_is_success(status: u16) -> (r: bool)
    ensures
        r == (200 <= status <= 299),
{
    200 <= status && status <= 299
}

} // verus!
