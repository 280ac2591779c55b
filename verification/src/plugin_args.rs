//! The arguments that a plugin receives: a JSON object from its element's `data-args`
//! attribute, with each other `data-*` attribute's value (read as JSON) added under its name,
//! and the permissions granted to it.
use crate::attrs::{lookup, AttrEntries, Attrs};
use crate::permissions::Permissions;
use crate::text::{has_prefix, starts_with, str_eq};
use vstd::prelude::*;

verus! {

/// What `serde_json::from_str::<serde_json::Map<String, Value>>` reads from the text: the
/// object's entries in the map's order, each value written back by `serde_json::to_string`;
/// none when the text is no JSON object.
pub uninterp spec fn json_object_entries(text: Seq<char>) -> Option<AttrEntries>;

/// What `serde_json::from_str::<serde_json::Value>` reads from the text, written back by
/// `serde_json::to_string`; none when the text is no JSON.
pub uninterp spec fn json_value_text(text: Seq<char>) -> Option<Seq<char>>;

/// The views of (name, value) pairs.
pub open spec fn pair_views(v: Seq<(String, String)>) -> AttrEntries {
    v.map_values(|p: (String, String)| (p.0@, p.1@))
}

/// `serde_json::from_str` of a JSON object, its entries handed out in the map's order with their
/// values written back as JSON text; the error's message when the text is no object.
#[verifier::external_body]
fn parse_json_object(text: &str) -> (res: Result<Vec<(String, String)>, String>)
    ensures
        match json_object_entries(text@) {
            Some(e) => res matches Ok(v) && pair_views(v@) == e,
            None => res is Err,
        },
{
    match serde_json::from_str::<serde_json::Map<String, serde_json::Value>>(text) {
        Ok(map) => Ok(map.into_iter().map(|(k, v)| (k, v.to_string())).collect()),
        Err(e) => Err(e.to_string()),
    }
}

/// The entries in a mapping, later ones in place of earlier ones of the same name.
fn entries_to_attrs(entries: Vec<(String, String)>) -> (res: Attrs)
    ensures
        res.wf(),
        forall|k: Seq<char>| #![trigger res.get_spec(k)] res.get_spec(k) == lookup(pair_views(entries@), k),
{
    let ghost e = pair_views(entries@);
    let mut res = Attrs::new();
    let mut i: usize = 0;
    while i < entries.len()
        invariant
            i <= entries.len(),
            e == pair_views(entries@),
            res.wf(),
            forall|k: Seq<char>| #![trigger res.get_spec(k)] res.get_spec(k) == lookup(e.subrange(0, i as int), k),
        decreases entries.len() - i,
    {
        assert(e.subrange(0, i + 1).drop_last() =~= e.subrange(0, i as int));
        assert(e.subrange(0, i + 1).last() == e[i as int]);
        let (k, v) = &entries[i];
        res.insert(k.clone(), v.clone());
        i = i + 1;
    }
    assert(e.subrange(0, e.len() as int) =~= e);
    res
}

/// `serde_json::from_str` of a JSON value, written back as JSON text; the error's message when
/// the text is no JSON.
#[verifier::external_body]
fn parse_json_value(text: &str) -> (res: Result<String, String>)
    ensures
        match json_value_text(text@) {
            Some(t) => res matches Ok(r) && r@ == t,
            None => res is Err,
        },
{
    match serde_json::from_str::<serde_json::Value>(text) {
        Ok(v) => Ok(v.to_string()),
        Err(e) => Err(e.to_string()),
    }
}

/// The arguments of a plugin.
#[derive(Debug)]
pub struct Args {
    /// The user arguments: name to value as JSON text.
    pub user_arguments: Attrs,
    pub permissions: Permissions,
}

/// The arguments could not be read: a value is no JSON (or `data-args` no JSON object).
#[derive(Debug, Clone)]
pub struct ArgsError {
    /// The message of the JSON parser.
    pub message: String,
}

/// An attribute that passes its value as an argument: a `data-*` one other than `data-args`.
pub open spec fn argument_attr(k: Seq<char>) -> bool {
    has_prefix(k, "data-"@) && k != "data-args"@
}

/// The arguments given by the `data-args` attribute, when it is there.
pub open spec fn base_arguments(args_attr: Option<Seq<char>>) -> Option<AttrEntries> {
    match args_attr {
        Some(t) => json_object_entries(t),
        None => Some(Seq::empty()),
    }
}

/// Every argument attribute's value is JSON.
pub open spec fn values_parse(attrs: AttrEntries) -> bool {
    forall|i: int|
        0 <= i < attrs.len() && argument_attr(#[trigger] attrs[i].0) ==> json_value_text(attrs[i].1) is Some
}

impl Args {
    /// Read the arguments of a plugin element: the JSON object of `data-args` (none when
    /// absent), and each other `data-*` attribute's value as JSON under the attribute's name,
    /// in place of an entry of the object with that name. No permission is granted yet.
    pub fn from_link_attrs(link_attrs: Attrs) -> (res: Result<Args, ArgsError>)
        requires
            link_attrs.wf(),
        ensures
            (res is Ok) == (base_arguments(link_attrs.get_spec("data-args"@)) is Some && values_parse(link_attrs@)),
            res matches Ok(a) ==> a.user_arguments.wf() && a.permissions.bits == 0 && forall|k: Seq<char>|
                #![trigger a.user_arguments.get_spec(k)]
                a.user_arguments.get_spec(k) == if argument_attr(k) && link_attrs.get_spec(k) is Some {
                    json_value_text(link_attrs.get_spec(k).unwrap())
                } else {
                    lookup(base_arguments(link_attrs.get_spec("data-args"@)).unwrap(), k)
                },
    {
        let mut user_arguments = match link_attrs.get("data-args") {
            Some(t) => match parse_json_object(t.as_str()) {
                Ok(v) => entries_to_attrs(v),
                Err(message) => {
                    return Err(ArgsError { message });
                },
            },
            None => Attrs::new(),
        };
        let ghost base = base_arguments(link_attrs.get_spec("data-args"@)).unwrap();
        let n = link_attrs.len();
        let mut i: usize = 0;
        while i < n
            invariant
                n == link_attrs@.len(),
                i <= n,
                link_attrs.wf(),
                user_arguments.wf(),
                forall|j: int| 0 <= j < i && argument_attr(#[trigger] link_attrs@[j].0) ==> json_value_text(link_attrs@[j].1) is Some,
                forall|k: Seq<char>|
                    #![trigger user_arguments.get_spec(k)]
                    user_arguments.get_spec(k) == if argument_attr(k) && lookup(link_attrs@.subrange(0, i as int), k) is Some {
                        json_value_text(lookup(link_attrs@.subrange(0, i as int), k).unwrap())
                    } else {
                        lookup(base, k)
                    },
            decreases n - i,
        {
            let ghost pre = link_attrs@.subrange(0, i as int);
            let ghost cur = link_attrs@.subrange(0, i + 1);
            assert(cur.drop_last() =~= pre);
            assert(cur.last() == link_attrs@[i as int]);
            let (k, v) = link_attrs.entry(i);
            proof {
                reveal_strlit("data-");
                reveal_strlit("data-args");
            }
            if starts_with(k.as_str(), "data-") && !str_eq(k.as_str(), "data-args") {
                match parse_json_value(v.as_str()) {
                    Ok(text) => {
                        user_arguments.insert(k.clone(), text);
                    },
                    Err(message) => {
                        proof {
                            assert(!values_parse(link_attrs@));
                        }
                        return Err(ArgsError { message });
                    },
                }
            }
            i = i + 1;
        }
        assert(link_attrs@.subrange(0, n as int) =~= link_attrs@);
        Ok(Args { user_arguments, permissions: Permissions::none() })
    }

    /// Grant the permissions of `permissions` too.
    pub fn with_permissions(self, permissions: Permissions) -> (res: Args)
        ensures
            res.user_arguments@ == self.user_arguments@,
            res.permissions.bits == self.permissions.bits | permissions.bits,
    {
        let mut a = self;
        a.permissions.insert(permissions);
        a
    }
}

} // verus!
