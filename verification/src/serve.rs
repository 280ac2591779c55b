//! The development server's decisions: which addresses are announced, and how served HTML gets
//! the address of the server, the WebSocket base and the nonce.
use crate::text::{ends_with, push_char, replace_all, replace_all_spec, str_eq, to_owned_string};
use vstd::prelude::*;

verus! {

/// An address to announce, and whether it is a local one.
#[derive(Clone, Debug)]
pub struct AddressLine {
    pub local: bool,
    pub address: String,
}

/// Announce an address unless it was announced before; `cache` holds those that were.
pub fn show_address(cache: &mut Vec<String>, local: bool, address: String) -> (res: Option<AddressLine>)
    ensures
        (exists|i: int| 0 <= i < old(cache)@.len() && (#[trigger] old(cache)@[i])@ == address@) ==> res is None
            && final(cache)@ == old(cache)@,
        !(exists|i: int| 0 <= i < old(cache)@.len() && (#[trigger] old(cache)@[i])@ == address@) ==> (res matches Some(l)
            && l.local == local && l.address@ == address@) && final(cache)@ == old(cache)@.push(address),
{
    let mut i: usize = 0;
    let mut seen = false;
    while i < cache.len()
        invariant_except_break
            !seen,
        invariant
            i <= cache.len(),
            cache@ == old(cache)@,
            forall|j: int| 0 <= j < i ==> (#[trigger] cache@[j])@ != address@,
        ensures
            cache@ == old(cache)@,
            seen ==> i < cache.len() && cache@[i as int]@ == address@,
            !seen ==> forall|j: int| 0 <= j < cache.len() ==> (#[trigger] cache@[j])@ != address@,
        decreases cache.len() - i,
    {
        if str_eq(cache[i].as_str(), address.as_str()) {
            seen = true;
            break;
        }
        i = i + 1;
    }
    if seen {
        return None;
    }
    let line = AddressLine { local, address: address.clone() };
    cache.push(address);
    Some(line)
}

/// Whether an address was announced already.
pub open spec fn announced(cache: Seq<String>, address: Seq<char>) -> bool {
    exists|i: int| 0 <= i < cache.len() && (#[trigger] cache[i])@ == address
}

/// No address is announced twice: after `show_address` (whichever way it went, as its
/// contract leaves the cache) the address counts as announced, so announcing it again is
/// silent.
pub proof fn law_each_address_once(before: Seq<String>, after: Seq<String>, address: String)
    requires
        announced(before, address@) ==> after == before,
        !announced(before, address@) ==> after == before.push(address),
    ensures
        announced(after, address@),
{
    if announced(before, address@) {
        let i = choose|i: int| 0 <= i < before.len() && (#[trigger] before[i])@ == address@;
        assert(after[i]@ == address@);
    } else {
        assert(after[before.len() as int] == address);
    }
}

/// The WebSocket base with a trailing `/`.
pub fn ws_base_with_slash(ws_base: &str) -> (res: String)
    ensures
        crate::text::has_suffix(ws_base@, "/"@) ==> res@ == ws_base@,
        !crate::text::has_suffix(ws_base@, "/"@) ==> res@ == ws_base@.push('/'),
{
    let mut s = to_owned_string(ws_base);
    if !ends_with(ws_base, "/") {
        push_char(&mut s, '/');
    }
    s
}

/// Whether a response is rewritten: only successful ones whose content type is `text/html`.
pub fn is_rewritable(success: bool, content_type: &Option<Vec<u8>>) -> (res: bool)
    ensures
        res == (success && match content_type {
            Some(t) => t@ == "text/html"@.map_values(|c: char| c as u8),
            None => false,
        }),
{
    if !success {
        return false;
    }
    match content_type {
        Some(t) => {
            let expected: Vec<u8> = vec![116u8, 101, 120, 116, 47, 104, 116, 109, 108];
            proof {
                reveal_strlit("text/html");
                assert(expected@ =~= "text/html"@.map_values(|c: char| c as u8));
            }
            bytes_eq(t, &expected)
        },
        None => false,
    }
}

fn bytes_eq(a: &Vec<u8>, b: &Vec<u8>) -> (res: bool)
    ensures
        res == (a@ == b@),
{
    if a.len() != b.len() {
        return false;
    }
    let mut i: usize = 0;
    while i < a.len()
        invariant
            a.len() == b.len(),
            i <= a.len(),
            forall|j: int| 0 <= j < i ==> a@[j] == b@[j],
        decreases a.len() - i,
    {
        if a[i] != b[i] {
            return false;
        }
        i = i + 1;
    }
    assert(a@ =~= b@);
    true
}

/// What the server's address is replaced by: the request's host as a string literal, or the
/// host the browser sees when the request has none.
pub open spec fn host_literal(host: Option<Seq<char>>) -> Seq<char> {
    match host {
        Some(h) => "'"@ + h + "'"@,
        None => "window.location.host"@,
    }
}

/// Served HTML with its placeholders filled: the server address (quoted or in backticks, as
/// minification leaves it), the WebSocket base, and, when a nonce is configured, the nonce
/// placeholder by the nonce.
pub open spec fn inject_spec(
    body: Seq<char>,
    host: Option<Seq<char>>,
    ws_base: Seq<char>,
    nonce: Option<(Seq<char>, Seq<char>)>,
) -> Seq<char> {
    let h = host_literal(host);
    let b = replace_all_spec(
        replace_all_spec(replace_all_spec(body, "'{{__TRUNK_ADDRESS__}}'"@, h), "`{{__TRUNK_ADDRESS__}}`"@, h),
        "{{__TRUNK_WS_BASE__}}"@,
        ws_base,
    );
    match nonce {
        Some((var, val)) => if var.len() > 0 { replace_all_spec(b, var, val) } else { b },
        None => b,
    }
}

/// Fill the placeholders of served HTML. `host` is the request's `Host` header, when it has
/// one that is text; `nonce` is the configured placeholder and this response's nonce.
pub fn inject_addresses(body: &str, host: &Option<String>, ws_base: &str, nonce: &Option<(String, String)>) -> (res: String)
    requires
        nonce matches Some((var, _)) ==> var@.len() > 0,
    ensures
        res@ == inject_spec(
            body@,
            crate::sri::opt_view(*host),
            ws_base@,
            match nonce {
                Some((var, val)) => Some((var@, val@)),
                None => None,
            },
        ),
{
    let h = match host {
        Some(h) => {
            let mut s = to_owned_string("'");
            s.append(h.as_str());
            s.append("'");
            s
        },
        None => to_owned_string("window.location.host"),
    };
    proof {
        reveal_strlit("'{{__TRUNK_ADDRESS__}}'");
        reveal_strlit("`{{__TRUNK_ADDRESS__}}`");
        reveal_strlit("{{__TRUNK_WS_BASE__}}");
    }
    let a = replace_all(body, "'{{__TRUNK_ADDRESS__}}'", h.as_str());
    let b = replace_all(a.as_str(), "`{{__TRUNK_ADDRESS__}}`", h.as_str());
    let c = replace_all(b.as_str(), "{{__TRUNK_WS_BASE__}}", ws_base);
    match nonce {
        Some((var, val)) => replace_all(c.as_str(), var.as_str(), val.as_str()),
        None => c,
    }
}

/// The content security policy of a response with a nonce: the configured directives joined
/// by `;`, with `{{NONCE}}` replaced by the nonce.
pub open spec fn csp_spec(directives: Seq<Seq<char>>, nonce: Seq<char>) -> Seq<char> {
    replace_all_spec(join_semicolon(directives), "{{NONCE}}"@, nonce)
}

/// The directives joined by `;`.
pub open spec fn join_semicolon(d: Seq<Seq<char>>) -> Seq<char>
    decreases d.len(),
{
    if d.len() == 0 {
        Seq::empty()
    } else if d.len() == 1 {
        d[0]
    } else {
        join_semicolon(d.drop_last()) + ";"@ + d.last()
    }
}

/// The content security policy header of a response with a nonce.
pub fn csp_header(directives: &Vec<String>, nonce: &str) -> (res: String)
    ensures
        res@ == csp_spec(directives@.map_values(|d: String| d@), nonce@),
{
    let ghost dv = directives@.map_values(|d: String| d@);
    let mut joined = String::new();
    let mut i: usize = 0;
    while i < directives.len()
        invariant
            i <= directives.len(),
            dv == directives@.map_values(|d: String| d@),
            joined@ == join_semicolon(dv.subrange(0, i as int)),
        decreases directives.len() - i,
    {
        assert(dv.subrange(0, i + 1).drop_last() =~= dv.subrange(0, i as int));
        if i > 0 {
            joined.append(";");
        }
        joined.append(directives[i].as_str());
        proof {
            reveal_strlit(";");
            if i == 0 {
                assert(dv.subrange(0, 1) =~= seq![dv[0]]);
                assert(joined@ =~= dv[0]);
            }
        }
        i = i + 1;
    }
    assert(dv.subrange(0, dv.len() as int) =~= dv);
    proof {
        reveal_strlit("{{NONCE}}");
    }
    replace_all(joined.as_str(), "{{NONCE}}", nonce)
}

} // verus!
