//! Proxying requests to a backend: the URI that a request is forwarded to, and how its headers
//! are rewritten on the way.
use crate::text::{chars_of, has_suffix, string_of_chars, str_eq, to_owned_string, ends_with};
use vstd::prelude::*;

verus! {

/// Whether `http::uri::Builder` takes the scheme, the authority and the path and query (given as
/// text) and builds a URI of them.
pub uninterp spec fn uri_builds(scheme: Seq<char>, authority: Seq<char>, path_and_query: Seq<char>) -> bool;

/// The host of the authority of the URI that a text parses to (`Uri::from_str`, then
/// `Authority::host`); nothing when the text does not parse or the URI has no authority.
pub uninterp spec fn uri_text_host(text: Seq<char>) -> Option<Seq<char>>;

/// `Uri::builder` with `scheme`, `authority` and `path_and_query` set from text, then `build`,
/// and the URI written out by its `Display`; nothing when the builder fails. The contract claims:
/// an empty authority is refused (`Authority` does not parse an empty string); and of a path and
/// query that begins with `/` and holds no `#`, the text is the scheme, `://`, the authority and
/// the path and query as they were given (`Scheme`, `Authority` and `PathAndQuery` keep the text
/// they parsed, and `Display` writes them in this order).
#[verifier::external_body]
fn build_uri_text(scheme: &str, authority: &str, path_and_query: &str) -> (res: Option<String>)
    ensures
        res is Some == uri_builds(scheme@, authority@, path_and_query@),
        authority@.len() == 0 ==> res is None,
        res matches Some(t) ==> (path_and_query@.len() > 0 && path_and_query@[0] == '/'
            && !path_and_query@.contains('#') ==> t@ == scheme@ + "://"@ + authority@ + path_and_query@),
{
    http::Uri::builder().scheme(scheme).authority(authority).path_and_query(path_and_query).build().ok().map(
        |u| u.to_string(),
    )
}

/// `Uri::from_str` on the text, then the host of its authority (`Authority::host`).
#[verifier::external_body]
fn host_of_uri_text(text: &str) -> (res: Option<String>)
    ensures
        crate::sri::opt_view(res) == uri_text_host(text@),
{
    text.parse::<http::Uri>().ok().and_then(|u| u.authority().map(|a| a.host().to_string()))
}

/// `s` without the `/` characters it begins with (`trim_start_matches('/')`).
pub open spec fn trim_leading_slashes(s: Seq<char>) -> Seq<char>
    decreases s.len(),
{
    if s.len() > 0 && s[0] == '/' {
        trim_leading_slashes(s.drop_first())
    } else {
        s
    }
}

/// The path and query that a request is forwarded to: `/`, the backend's path, a `/` when both
/// paths are non-empty and the backend's does not end in one, the request's path, and `?` with
/// the request's query, each path without its leading slashes.
pub open spec fn outbound_path_and_query(backend_path: Seq<char>, request_path: Seq<char>, query: Option<Seq<char>>) -> Seq<char> {
    let b = trim_leading_slashes(backend_path);
    let r = trim_leading_slashes(request_path);
    let sep = if b.len() > 0 && r.len() > 0 && !has_suffix(b, "/"@) {
        "/"@
    } else {
        Seq::empty()
    };
    "/"@ + b + sep + r + match query {
        Some(q) => "?"@ + q,
        None => Seq::empty(),
    }
}

fn trim_slashes(s: &str) -> (res: String)
    ensures
        res@ == trim_leading_slashes(s@),
{
    let v = chars_of(s);
    let mut i: usize = 0;
    assert(s@.subrange(0, s@.len() as int) =~= s@);
    while i < v.len() && v[i] == '/'
        invariant
            v@ == s@,
            i <= v.len(),
            trim_leading_slashes(s@) == trim_leading_slashes(s@.subrange(i as int, s@.len() as int)),
        decreases v.len() - i,
    {
        assert(s@.subrange(i as int, s@.len() as int).drop_first() =~= s@.subrange(i + 1, s@.len() as int));
        i = i + 1;
    }
    let rest = crate::split::slice_chars(v.as_slice(), i, v.len());
    string_of_chars(rest.as_slice())
}

/// The path and query that a request is forwarded to.
pub fn make_path_and_query(backend_path: &str, request_path: &str, query: &Option<String>) -> (res: String)
    ensures
        res@ == outbound_path_and_query(backend_path@, request_path@, crate::sri::opt_view(*query)),
{
    let b = trim_slashes(backend_path);
    let r = trim_slashes(request_path);
    let mut out = to_owned_string("/");
    out.append(b.as_str());
    if b.unicode_len() > 0 && r.unicode_len() > 0 && !ends_with(b.as_str(), "/") {
        out.append("/");
    }
    out.append(r.as_str());
    match query {
        Some(q) => {
            out.append("?");
            out.append(q.as_str());
        },
        None => {},
    }
    proof {
        reveal_strlit("/");
        reveal_strlit("?");
    }
    out
}

/// A URI that could not be built or a request without a host.
#[derive(Debug, Clone, Copy, PartialEq, Eq, Structural)]
pub enum ProxyError {
    /// The outbound URI could not be built.
    BuildUri,
    /// The outbound URI has no host.
    NoHost,
}

impl ProxyError {
    /// The error message.
    pub fn to_string(&self) -> (res: String)
        ensures
            res@ == match self {
                ProxyError::BuildUri => "error building proxy request to backend"@,
                ProxyError::NoHost => "No host found in outbound URI"@,
            },
    {
        match self {
            ProxyError::BuildUri => to_owned_string("error building proxy request to backend"),
            ProxyError::NoHost => to_owned_string("No host found in outbound URI"),
        }
    }
}

/// The parts of a URI that the proxy reads: its scheme and its authority when it has them, its
/// path and its query.
#[derive(Clone, Debug)]
pub struct UriParts {
    pub scheme: Option<String>,
    pub authority: Option<String>,
    pub path: String,
    pub query: Option<String>,
}

/// The text of an optional part, empty when it is missing.
pub open spec fn text_or_empty(o: Option<String>) -> Seq<char> {
    match o {
        Some(s) => s@,
        None => Seq::empty(),
    }
}

/// The path and query that a request is forwarded to, of the backend's and the request's URI.
pub open spec fn outbound_pq(backend: UriParts, request: UriParts) -> Seq<char> {
    outbound_path_and_query(backend.path@, request.path@, crate::sri::opt_view(request.query))
}

/// The text of the URI that a request to the proxy is forwarded to: the URI built of the
/// backend's scheme and authority (each empty when missing) and the path and query of
/// `make_path_and_query`. The builder decides whether the parts make a URI; a backend without
/// an authority never does.
pub fn make_outbound_uri(backend: &UriParts, request: &UriParts) -> (res: Result<String, ProxyError>)
    ensures
        ({
            let scheme = text_or_empty(backend.scheme);
            let authority = text_or_empty(backend.authority);
            let pq = outbound_pq(*backend, *request);
            &&& (res is Ok <==> uri_builds(scheme, authority, pq))
            &&& (res matches Err(e) ==> e == ProxyError::BuildUri)
            &&& (authority.len() == 0 ==> res is Err)
            &&& (res matches Ok(t) ==> (!pq.contains('#') ==> t@ == scheme + "://"@ + authority + pq))
        }),
{
    let pq = make_path_and_query(backend.path.as_str(), request.path.as_str(), &request.query);
    let scheme = match &backend.scheme {
        Some(s) => to_owned_string(s.as_str()),
        None => to_owned_string(""),
    };
    let authority = match &backend.authority {
        Some(a) => to_owned_string(a.as_str()),
        None => to_owned_string(""),
    };
    proof {
        reveal_strlit("");
        reveal_strlit("/");
        assert(pq@[0] == '/');
        assert(scheme@ == text_or_empty(backend.scheme));
        assert(authority@ == text_or_empty(backend.authority));
        assert(pq@ == outbound_pq(*backend, *request));
    }
    match build_uri_text(scheme.as_str(), authority.as_str(), pq.as_str()) {
        Some(t) => Ok(t),
        None => Err(ProxyError::BuildUri),
    }
}

/// A header value: raw bytes, or text.
#[derive(Debug, Clone)]
pub enum HeaderText {
    Bytes(Vec<u8>),
    Text(String),
}

/// An edit of the headers of an outbound request.
#[derive(Debug, Clone)]
pub enum HeaderOp {
    /// Add a value for the header, keeping its other values.
    Append { name: String, value: HeaderText },
    /// Remove the header.
    Remove { name: String },
    /// Replace all values of the header by one.
    Insert { name: String, value: Vec<u8> },
}

/// The header edits for one inbound header: the host is replaced by the backend's host, and
/// the original host and protocol go into `x-forwarded-host` and `x-forwarded-proto`; any
/// other header is kept.
pub open spec fn forward_one(name: Seq<char>, value: Seq<u8>, proto: Seq<char>, host: Seq<char>) -> Seq<(int, Seq<char>, Seq<char>, Seq<u8>)> {
    if name == "host"@ {
        seq![(0int, "host"@, host, Seq::<u8>::empty()), (1int, "x-forwarded-host"@, Seq::<char>::empty(), value), (0int, "x-forwarded-proto"@, proto, Seq::<u8>::empty())]
    } else {
        seq![(1int, name, Seq::<char>::empty(), value)]
    }
}

/// The view of a header edit: its kind (0 append text, 1 append bytes, 2 remove, 3 insert), the
/// header's name, and its value as text or bytes.
pub open spec fn op_view(op: HeaderOp) -> (int, Seq<char>, Seq<char>, Seq<u8>) {
    match op {
        HeaderOp::Append { name, value } => match value {
            HeaderText::Text(t) => (0, name@, t@, Seq::empty()),
            HeaderText::Bytes(b) => (1, name@, Seq::empty(), b@),
        },
        HeaderOp::Remove { name } => (2, name@, Seq::empty(), Seq::empty()),
        HeaderOp::Insert { name, value } => (3, name@, Seq::empty(), value@),
    }
}

/// The edits that forward the inbound headers, in order.
pub open spec fn forward_all(original: Seq<(String, Vec<u8>)>, proto: Seq<char>, host: Seq<char>) -> Seq<(int, Seq<char>, Seq<char>, Seq<u8>)>
    decreases original.len(),
{
    if original.len() == 0 {
        Seq::empty()
    } else {
        forward_all(original.drop_last(), proto, host) + forward_one(original.last().0@, original.last().1@, proto, host)
    }
}

/// The edits of the configured header overrides, in order: an empty value removes the header,
/// any other replaces it; entries without a name (further values of a name) are skipped.
pub open spec fn override_all(overrides: Seq<(Option<String>, Vec<u8>)>) -> Seq<(int, Seq<char>, Seq<char>, Seq<u8>)>
    decreases overrides.len(),
{
    if overrides.len() == 0 {
        Seq::empty()
    } else {
        let prev = override_all(overrides.drop_last());
        match overrides.last().0 {
            Some(k) => if overrides.last().1@.len() == 0 {
                prev.push((2int, k@, Seq::<char>::empty(), Seq::<u8>::empty()))
            } else {
                prev.push((3int, k@, Seq::<char>::empty(), overrides.last().1@))
            },
            None => prev,
        }
    }
}

/// The header edits of an outbound request: the inbound headers forwarded, then the overrides.
pub fn header_ops(
    proto: &str,
    host: &str,
    original: &Vec<(String, Vec<u8>)>,
    overrides: &Vec<(Option<String>, Vec<u8>)>,
) -> (res: Vec<HeaderOp>)
    ensures
        res@.map_values(|o: HeaderOp| op_view(o)) == forward_all(original@, proto@, host@) + override_all(overrides@),
{
    let mut ops: Vec<HeaderOp> = Vec::new();
    let mut i: usize = 0;
    while i < original.len()
        invariant
            i <= original.len(),
            ops@.map_values(|o: HeaderOp| op_view(o)) == forward_all(original@.subrange(0, i as int), proto@, host@),
        decreases original.len() - i,
    {
        let ghost before = ops@.map_values(|o: HeaderOp| op_view(o));
        assert(original@.subrange(0, i + 1).drop_last() =~= original@.subrange(0, i as int));
        let (k, v) = &original[i];
        if str_eq(k.as_str(), "host") {
            ops.push(HeaderOp::Append { name: to_owned_string("host"), value: HeaderText::Text(to_owned_string(host)) });
            ops.push(HeaderOp::Append { name: to_owned_string("x-forwarded-host"), value: HeaderText::Bytes(v.clone()) });
            ops.push(HeaderOp::Append { name: to_owned_string("x-forwarded-proto"), value: HeaderText::Text(to_owned_string(proto)) });
        } else {
            ops.push(HeaderOp::Append { name: k.clone(), value: HeaderText::Bytes(v.clone()) });
        }
        assert(ops@.map_values(|o: HeaderOp| op_view(o)) =~= before + forward_one(k@, v@, proto@, host@));
        i = i + 1;
    }
    assert(original@.subrange(0, original@.len() as int) =~= original@);
    let ghost fwd = ops@.map_values(|o: HeaderOp| op_view(o));
    let mut j: usize = 0;
    while j < overrides.len()
        invariant
            j <= overrides.len(),
            ops@.map_values(|o: HeaderOp| op_view(o)) == fwd + override_all(overrides@.subrange(0, j as int)),
        decreases overrides.len() - j,
    {
        let ghost before = ops@.map_values(|o: HeaderOp| op_view(o));
        assert(overrides@.subrange(0, j + 1).drop_last() =~= overrides@.subrange(0, j as int));
        let (k, v) = &overrides[j];
        match k {
            Some(name) => {
                if v.len() == 0 {
                    ops.push(HeaderOp::Remove { name: name.clone() });
                } else {
                    ops.push(HeaderOp::Insert { name: name.clone(), value: v.clone() });
                }
                assert(ops@.map_values(|o: HeaderOp| op_view(o)) =~= before.push(op_view(ops@.last())));
            },
            None => {},
        }
        assert(ops@.map_values(|o: HeaderOp| op_view(o)) =~= fwd + override_all(overrides@.subrange(0, j + 1)));
        j = j + 1;
    }
    assert(overrides@.subrange(0, overrides@.len() as int) =~= overrides@);
    ops
}

/// A request to forward to a backend: the text of its URI, the name of its method, and the
/// edits of its headers, applied in order to an empty header map.
#[derive(Clone, Debug)]
pub struct OutboundRequest {
    pub uri: String,
    pub method: String,
    pub headers: Vec<HeaderOp>,
}

/// The request that forwards an inbound request to `outbound_uri`: that URI, the method, and
/// the header edits of `header_ops` with the host of the URI. A URI without a host is refused.
/// The inbound headers are (name, value) pairs, each value of a name in turn; the overrides are
/// the entries of a consumed header map, where further values of a name have no name.
pub fn make_outbound_request(
    inbound_proto: &str,
    outbound_uri: &str,
    method: &str,
    original_headers: &Vec<(String, Vec<u8>)>,
    override_headers: &Vec<(Option<String>, Vec<u8>)>,
) -> (res: Result<OutboundRequest, ProxyError>)
    ensures
        match uri_text_host(outbound_uri@) {
            None => res == Err::<OutboundRequest, ProxyError>(ProxyError::NoHost),
            Some(host) => res matches Ok(r) && r.uri@ == outbound_uri@ && r.method@ == method@
                && r.headers@.map_values(|o: HeaderOp| op_view(o)) == forward_all(
                original_headers@,
                inbound_proto@,
                host,
            ) + override_all(override_headers@),
        },
{
    let host = match host_of_uri_text(outbound_uri) {
        Some(h) => h,
        None => return Err(ProxyError::NoHost),
    };
    let headers = header_ops(inbound_proto, host.as_str(), original_headers, override_headers);
    Ok(OutboundRequest { uri: to_owned_string(outbound_uri), method: to_owned_string(method), headers })
}

/// The protocol that the server speaks, as the proxy reports it to the backend.
pub fn server_protocol(tls: bool) -> (res: &'static str)
    ensures
        res@ == if tls { "https"@ } else { "http"@ },
{
    if tls {
        "https"
    } else {
        "http"
    }
}

/// The path under which a proxy is mounted: the rewrite when one is configured, otherwise the
/// path of the backend.
pub fn proxy_mount_path(rewrite: &Option<String>, backend_path: &str) -> (res: String)
    ensures
        res@ == match rewrite {
            Some(r) => r@,
            None => backend_path@,
        },
{
    match rewrite {
        Some(r) => r.clone(),
        None => to_owned_string(backend_path),
    }
}

} // verus!
