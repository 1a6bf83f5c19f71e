//! The URLs the clients connect to: a base URL turned to its WebSocket
//! scheme, paths joined to it, the query of an order-gateway session, and
//! the host that an upgrade request names. The `url` crate parses and
//! serialises; which of its operations run, in which order and on what, is
//! decided here.
use vstd::prelude::*;
use crate::session::endpoints::{host_of, host_of_authority, session_query, session_query_pairs, ws_scheme, ws_scheme_for};
use crate::text::str_eq;
use crate::types::auth::byte_len;

verus! {

/// The parse error of the `url` crate.
#[verifier::external_type_specification]
#[verifier::external_body]
pub struct ExParseError(url::ParseError);

/// The serialisation of the URL that `url::Url::parse` reads from a text,
/// or `None` where it refuses the text.
pub uninterp spec fn url_text(input: Seq<char>) -> Option<Seq<char>>;

/// The scheme (`url::Url::scheme`) of the URL parsed from a text, or `None`
/// where the text does not parse.
pub uninterp spec fn url_scheme_text(input: Seq<char>) -> Option<Seq<char>>;

/// The serialisation of the URL parsed from a text after
/// `url::Url::set_scheme`, or `None` where the text does not parse or the
/// scheme is refused.
pub uninterp spec fn url_with_scheme_text(input: Seq<char>, scheme: Seq<char>) -> Option<Seq<char>>;

/// The serialisation of `url::Url::join` of a path onto the URL parsed from
/// a base text, or `None` where either step fails.
pub uninterp spec fn url_join_text(base: Seq<char>, input: Seq<char>) -> Option<Seq<char>>;

/// The serialisation of the URL parsed from a text after appending name and
/// value pairs to its query (`url::Url::query_pairs_mut`, `extend_pairs`),
/// or `None` where the text does not parse.
pub uninterp spec fn url_with_query_text(input: Seq<char>, pairs: Seq<(Seq<char>, Seq<char>)>) -> Option<Seq<char>>;

/// The authority (`url::Url::authority`) of the URL parsed from a text, or
/// `None` where the text does not parse.
pub uninterp spec fn url_authority_text(input: Seq<char>) -> Option<Seq<char>>;

/// `url::Url::parse`, then `as_str`: the serialisation of the URL read from
/// `input`. It fails exactly where the parse fails.
#[verifier::external_body]
fn url_serialization(input: &str) -> (r: Result<String, url::ParseError>)
    ensures
        r is Ok <==> url_text(input@) is Some,
        r matches Ok(s) ==> url_text(input@) == Some(s@),
{
    match url::Url::parse(input) {
        Ok(u) => Ok(u.as_str().to_string()),
        Err(e) => Err(e),
    }
}

/// `url::Url::parse`, then `scheme`. It fails exactly where the parse
/// fails.
#[verifier::external_body]
fn url_scheme(input: &str) -> (r: Result<String, url::ParseError>)
    ensures
        r is Ok <==> url_text(input@) is Some,
        r is Ok <==> url_scheme_text(input@) is Some,
        r matches Ok(s) ==> url_scheme_text(input@) == Some(s@),
{
    match url::Url::parse(input) {
        Ok(u) => Ok(u.scheme().to_string()),
        Err(e) => Err(e),
    }
}

/// `url::Url::parse`, then `set_scheme` and `as_str`; `None` where either
/// refuses. `set_scheme` moves the URL's positions by the difference of the
/// two schemes' lengths, which cannot overflow when the new scheme is no
/// longer than the old one.
#[verifier::external_body]
fn url_with_scheme(input: &str, scheme: &str) -> (r: Option<String>)
    requires
        url_scheme_text(input@) matches Some(old) ==> scheme@.len() <= old.len(),
    ensures
        r is Some <==> url_with_scheme_text(input@, scheme@) is Some,
        r matches Some(s) ==> url_with_scheme_text(input@, scheme@) == Some(s@),
{
    match url::Url::parse(input) {
        Ok(mut u) => match u.set_scheme(scheme) {
            Ok(()) => Some(u.as_str().to_string()),
            Err(()) => None,
        },
        Err(_) => None,
    }
}

/// `url::Url::parse` of `base`, then `join` of `input` and `as_str`; the
/// error is that of the step that failed.
#[verifier::external_body]
fn url_join(base: &str, input: &str) -> (r: Result<String, url::ParseError>)
    ensures
        r is Ok <==> url_join_text(base@, input@) is Some,
        r matches Ok(s) ==> url_join_text(base@, input@) == Some(s@),
{
    match url::Url::parse(base) {
        Ok(b) => match b.join(input) {
            Ok(u) => Ok(u.as_str().to_string()),
            Err(e) => Err(e),
        },
        Err(e) => Err(e),
    }
}

/// `url::Url::parse`, then `query_pairs_mut().extend_pairs(pairs)` and
/// `as_str`. It fails exactly where the parse fails. The crate indexes a
/// URL with `u32` and unwraps the conversion when it puts the query and the
/// fragment back, so the grown serialisation must stay within `u32::MAX`
/// bytes.
#[verifier::external_body]
fn url_with_query(input: &str, pairs: &Vec<(String, String)>) -> (r: Result<String, url::ParseError>)
    requires
        url_text(input@) matches Some(t) ==> byte_len(t) + query_growth(text_pairs(pairs@)) <= u32::MAX,
    ensures
        r is Ok <==> url_text(input@) is Some,
        r matches Ok(s) ==> url_with_query_text(input@, text_pairs(pairs@)) == Some(s@),
{
    match url::Url::parse(input) {
        Ok(mut u) => {
            u.query_pairs_mut().extend_pairs(pairs);
            Ok(u.as_str().to_string())
        },
        Err(e) => Err(e),
    }
}

/// `url::Url::parse`, then `authority`. It fails exactly where the parse
/// fails.
#[verifier::external_body]
fn url_authority(input: &str) -> (r: Result<String, url::ParseError>)
    ensures
        r is Ok <==> url_authority_text(input@) is Some,
        r matches Ok(s) ==> url_authority_text(input@) == Some(s@),
{
    match url::Url::parse(input) {
        Ok(u) => Ok(u.authority().to_string()),
        Err(e) => Err(e),
    }
}

/// The kind of an `EndpointError`, without the `url` crate's detail.
#[derive(Debug, Clone, Copy, PartialEq, Eq, Structural)]
pub enum EndpointFailure {
    InvalidScheme,
    Url,
    TooLong,
}

/// Why the URL of an endpoint could not be made.
#[derive(Debug, Clone, Copy, PartialEq, Eq)]
pub enum EndpointError {
    /// The URL's scheme has no WebSocket counterpart, or `url` refused to
    /// set it.
    InvalidScheme,
    /// `url` could not parse the URL or join the path to it.
    Url(url::ParseError),
    /// The session URL with its query would outgrow the `u32` positions
    /// of `url`.
    TooLong,
}

impl EndpointError {
    /// The kind of the error.
    pub open spec fn failure(self) -> EndpointFailure {
        match self {
            EndpointError::InvalidScheme => EndpointFailure::InvalidScheme,
            EndpointError::Url(_) => EndpointFailure::Url,
            EndpointError::TooLong => EndpointFailure::TooLong,
        }
    }

    /// The kind of the error (see `failure`).
    pub fn kind(&self) -> (r: EndpointFailure)
        ensures
            r == self.failure(),
    {
        match self {
            EndpointError::InvalidScheme => EndpointFailure::InvalidScheme,
            EndpointError::Url(_) => EndpointFailure::Url,
            EndpointError::TooLong => EndpointFailure::TooLong,
        }
    }
}

/// A computed URL as text, or the kind of error that stopped it.
pub open spec fn outcome(r: Result<String, EndpointError>) -> Result<Seq<char>, EndpointFailure> {
    match r {
        Ok(s) => Ok(s@),
        Err(e) => Err(e.failure()),
    }
}

/// A text that `url` produced, or a `Url` failure where it refused.
pub open spec fn parsed(t: Option<Seq<char>>) -> Result<Seq<char>, EndpointFailure> {
    match t {
        Some(s) => Ok(s),
        None => Err(EndpointFailure::Url),
    }
}

/// A URL with the WebSocket scheme of its own (`ws_scheme_for`): unchanged
/// (as `url` serialises it) where the scheme already is that one, else with
/// the scheme set.
pub open spec fn ws_url_of(url: Seq<char>, keep_ws: bool) -> Result<Seq<char>, EndpointFailure> {
    match url_scheme_text(url) {
        None => Err(EndpointFailure::Url),
        Some(s) => match ws_scheme_for(s, keep_ws) {
            None => Err(EndpointFailure::InvalidScheme),
            Some(w) => if w == s {
                parsed(url_text(url))
            } else {
                match url_with_scheme_text(url, w) {
                    Some(t) => Ok(t),
                    None => Err(EndpointFailure::InvalidScheme),
                }
            },
        },
    }
}

/// `path` joined onto a URL that was made, or the failure that came first.
pub open spec fn joined(base: Result<Seq<char>, EndpointFailure>, path: Seq<char>) -> Result<Seq<char>, EndpointFailure> {
    match base {
        Ok(b) => parsed(url_join_text(b, path)),
        Err(e) => Err(e),
    }
}

/// The market-data WebSocket URL of a base URL: its WebSocket form with
/// `md/ws` joined, the scheme then checked again as for a given URL.
pub open spec fn marketdata_ws_url_of(base: Seq<char>) -> Result<Seq<char>, EndpointFailure> {
    match joined(ws_url_of(base, false), "md/ws"@) {
        Ok(u) => ws_url_of(u, true),
        Err(e) => Err(e),
    }
}

/// The most bytes that appending `pairs` to a URL's query adds: the `?`,
/// and per pair a separator, the `=`, and each byte of name and value
/// percent-encoded as at most three.
pub open spec fn query_growth(pairs: Seq<(Seq<char>, Seq<char>)>) -> int
    decreases pairs.len(),
{
    if pairs.len() == 0 {
        1
    } else {
        query_growth(pairs.drop_last()) + 3 * (byte_len(pairs.last().0) + byte_len(pairs.last().1)) + 2
    }
}

/// The texts of name and value pairs.
pub open spec fn text_pairs(v: Seq<(String, String)>) -> Seq<(Seq<char>, Seq<char>)> {
    Seq::new(v.len(), |i: int| (v[i].0@, v[i].1@))
}

/// The order-gateway session URL: the base URL's WebSocket form with
/// `path` joined, then the session's query pairs appended where there are
/// any. Appending is refused as `TooLong` where the URL could outgrow the
/// `u32` positions of `url`.
pub open spec fn order_gateway_ws_url_of(
    base: Seq<char>,
    path: Seq<char>,
    cancel_on_disconnect: bool,
    account_id: Option<Seq<char>>,
) -> Result<Seq<char>, EndpointFailure> {
    let pairs = session_query_pairs(cancel_on_disconnect, account_id);
    match joined(ws_url_of(base, false), path) {
        Err(e) => Err(e),
        Ok(u) => if pairs.len() == 0 {
            Ok(u)
        } else {
            match url_text(u) {
                None => Err(EndpointFailure::Url),
                Some(t) => if byte_len(t) + query_growth(pairs) > u32::MAX {
                    Err(EndpointFailure::TooLong)
                } else {
                    parsed(url_with_query_text(u, pairs))
                },
            }
        },
    }
}

/// The URL with its WebSocket scheme: `ws` for `http`, `wss` for `https`,
/// and, where `keep_ws` holds, a `ws` or `wss` URL as it is. Any other
/// scheme is `InvalidScheme`.
pub fn ws_url(url: &str, keep_ws: bool) -> (r: Result<String, EndpointError>)
    ensures
        outcome(r) == ws_url_of(url@, keep_ws),
{
    let scheme = match url_scheme(url) {
        Ok(s) => s,
        Err(e) => return Err(EndpointError::Url(e)),
    };
    let ws = match ws_scheme(scheme.as_str(), keep_ws) {
        Some(w) => w,
        None => return Err(EndpointError::InvalidScheme),
    };
    if str_eq(ws, scheme.as_str()) {
        match url_serialization(url) {
            Ok(t) => Ok(t),
            Err(e) => Err(EndpointError::Url(e)),
        }
    } else {
        proof {
            reveal_strlit("http");
            reveal_strlit("https");
            reveal_strlit("ws");
            reveal_strlit("wss");
        }
        match url_with_scheme(url, ws) {
            Some(t) => Ok(t),
            None => Err(EndpointError::InvalidScheme),
        }
    }
}

/// `path` joined onto a base URL, as a REST request is addressed.
pub fn rest_url(base_url: &str, path: &str) -> (r: Result<String, EndpointError>)
    ensures
        outcome(r) == parsed(url_join_text(base_url@, path@)),
{
    match url_join(base_url, path) {
        Ok(t) => Ok(t),
        Err(e) => Err(EndpointError::Url(e)),
    }
}

/// The market-data WebSocket URL of a base URL (see
/// `marketdata_ws_url_of`): `http://example.com` gives
/// `ws://example.com/md/ws`.
pub fn marketdata_ws_url(base_url: &str) -> (r: Result<String, EndpointError>)
    ensures
        outcome(r) == marketdata_ws_url_of(base_url@),
{
    let ws_base = match ws_url(base_url, false) {
        Ok(u) => u,
        Err(e) => return Err(e),
    };
    let md = match rest_url(ws_base.as_str(), "md/ws") {
        Ok(u) => u,
        Err(e) => return Err(e),
    };
    ws_url(md.as_str(), true)
}

/// Each pair adds at least its separator and `=` to the query's growth.
proof fn lemma_query_growth_prefix(pairs: Seq<(Seq<char>, Seq<char>)>, i: int)
    requires
        0 <= i <= pairs.len(),
    ensures
        1 <= query_growth(pairs.take(i)) <= query_growth(pairs),
    decreases pairs.len() - i,
{
    if i < pairs.len() {
        lemma_query_growth_prefix(pairs, i + 1);
        assert(pairs.take(i + 1).drop_last() =~= pairs.take(i));
    } else {
        assert(pairs.take(i) =~= pairs);
    }
    lemma_query_growth_positive(pairs.take(i));
}

/// The growth of a query is at least the `?`.
proof fn lemma_query_growth_positive(pairs: Seq<(Seq<char>, Seq<char>)>)
    ensures
        query_growth(pairs) >= 1,
    decreases pairs.len(),
{
    if pairs.len() > 0 {
        lemma_query_growth_positive(pairs.drop_last());
    }
}

/// Whether a URL of `base_bytes` bytes stays within `u32::MAX` bytes once
/// `pairs` are appended to its query (see `query_growth`).
pub fn query_fits(base_bytes: usize, pairs: &Vec<(String, String)>) -> (r: bool)
    ensures
        r == (base_bytes + query_growth(text_pairs(pairs@)) <= u32::MAX),
{
    let ghost tp = text_pairs(pairs@);
    proof {
        lemma_query_growth_prefix(tp, 0);
    }
    if base_bytes >= 0xFFFF_FFFF {
        return false;
    }
    let mut acc: u64 = base_bytes as u64 + 1;
    let mut i: usize = 0;
    assert(tp.take(0) =~= Seq::<(Seq<char>, Seq<char>)>::empty());
    while i < pairs.len()
        invariant
            i <= pairs.len(),
            tp == text_pairs(pairs@),
            acc == base_bytes + query_growth(tp.take(i as int)),
            acc <= u32::MAX,
        decreases pairs.len() - i,
    {
        proof {
            assert(tp.take(i + 1).drop_last() =~= tp.take(i as int));
            lemma_query_growth_prefix(tp, i + 1);
        }
        let kb: u64 = pairs[i].0.as_str().as_bytes().len() as u64;
        let vb: u64 = pairs[i].1.as_str().as_bytes().len() as u64;
        if kb >= 0x1_0000_0000 || vb >= 0x1_0000_0000 {
            return false;
        }
        let next: u64 = acc + 3 * (kb + vb) + 2;
        if next > 0xFFFF_FFFF {
            return false;
        }
        acc = next;
        i = i + 1;
    }
    assert(tp.take(i as int) =~= tp);
    true
}

/// The order-gateway session URL (see `order_gateway_ws_url_of`): for
/// `https://example.com/`, path `ws`, cancel-on-disconnect and account `A`,
/// `wss://example.com/ws?cancel_on_disconnect=true&account_id=A`.
pub fn order_gateway_ws_url(
    base_url: &str,
    path: &str,
    cancel_on_disconnect: bool,
    account_id: Option<&str>,
) -> (r: Result<String, EndpointError>)
    ensures
        outcome(r) == order_gateway_ws_url_of(
            base_url@,
            path@,
            cancel_on_disconnect,
            match account_id {
                Some(a) => Some(a@),
                None => None,
            },
        ),
{
    let ghost account = match account_id {
        Some(a) => Some(a@),
        None => None,
    };
    let ws_base = match ws_url(base_url, false) {
        Ok(u) => u,
        Err(e) => return Err(e),
    };
    let u = match rest_url(ws_base.as_str(), path) {
        Ok(u) => u,
        Err(e) => return Err(e),
    };
    let query = session_query(cancel_on_disconnect, account_id);
    proof {
        assert(text_pairs(query@) =~= session_query_pairs(cancel_on_disconnect, account));
    }
    if query.len() == 0 {
        return Ok(u);
    }
    let t = match url_serialization(u.as_str()) {
        Ok(t) => t,
        Err(e) => return Err(EndpointError::Url(e)),
    };
    if !query_fits(t.as_str().as_bytes().len(), &query) {
        return Err(EndpointError::TooLong);
    }
    match url_with_query(u.as_str(), &query) {
        Ok(s) => Ok(s),
        Err(e) => Err(EndpointError::Url(e)),
    }
}

/// The host and port that an upgrade request to a URL names: its
/// authority without the user part (see `host_of`).
pub fn host_header(url: &str) -> (r: Result<String, EndpointError>)
    ensures
        outcome(r) == (match url_authority_text(url@) {
            Some(a) => Ok(host_of(a)),
            None => Err(EndpointFailure::Url),
        }),
{
    match url_authority(url) {
        Ok(a) => Ok(host_of_authority(a.as_str())),
        Err(e) => Err(EndpointError::Url(e)),
    }
}

/// The endpoints a client derives from its deployment's base URL.
pub struct ClientEndpoints {
    /// The base URL as `url` serialises it.
    pub base_url: String,
    /// `api/` joined onto the base URL.
    pub api_gateway_base_url: String,
    /// `orders/` joined onto the base URL.
    pub order_gateway_base_url: String,
}

/// The client's endpoints of a base URL: the parsed base, and `api/` and
/// `orders/` joined onto it; the failure of the first step that failed.
pub open spec fn client_endpoints_of(base: Seq<char>) -> Result<(Seq<char>, Seq<char>, Seq<char>), EndpointFailure> {
    match url_text(base) {
        None => Err(EndpointFailure::Url),
        Some(b) => match url_join_text(b, "api/"@) {
            None => Err(EndpointFailure::Url),
            Some(api) => match url_join_text(b, "orders/"@) {
                None => Err(EndpointFailure::Url),
                Some(orders) => Ok((b, api, orders)),
            },
        },
    }
}

/// The client's endpoints of a base URL (see `client_endpoints_of`).
pub fn client_endpoints(base_url: &str) -> (r: Result<ClientEndpoints, EndpointError>)
    ensures
        (match r {
            Ok(c) => Ok((c.base_url@, c.api_gateway_base_url@, c.order_gateway_base_url@)),
            Err(e) => Err(e.failure()),
        }) == client_endpoints_of(base_url@),
{
    let base = match url_serialization(base_url) {
        Ok(b) => b,
        Err(e) => return Err(EndpointError::Url(e)),
    };
    let api = match url_join(base.as_str(), "api/") {
        Ok(u) => u,
        Err(e) => return Err(EndpointError::Url(e)),
    };
    let orders = match url_join(base.as_str(), "orders/") {
        Ok(u) => u,
        Err(e) => return Err(EndpointError::Url(e)),
    };
    Ok(ClientEndpoints { base_url: base, api_gateway_base_url: api, order_gateway_base_url: orders })
}

} // verus!
