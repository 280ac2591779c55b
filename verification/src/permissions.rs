//! The permissions of a trunk plugin, and where they are read from: a `data-permissions` list
//! and `data-permission-<name>` attributes.
use crate::attrs::{lemma_lookup_iff, lookup, Attrs};
use crate::split::{find_from, first_index_from, lemma_first_index_bounds, slice_chars, trim, trim_spec};
use crate::text::{chars_of, has_prefix, starts_with, str_eq, string_of_chars, substring_from, to_owned_string};
use vstd::prelude::*;

verus! {

/// A set of permissions of a plugin, one bit each. By default a plugin may do nothing.
#[derive(Clone, Copy, Debug, Default, PartialEq, Eq, Structural)]
pub struct Permissions {
    pub bits: u8,
}

/// The bit of a permission name: `none` has none.
pub open spec fn flag_bits(name: Seq<char>) -> Option<u8> {
    if name == "none"@ {
        Some(0)
    } else if name == "read-html-document"@ {
        Some(1)
    } else if name == "replace-html-document-call"@ {
        Some(2)
    } else if name == "create-output-file"@ {
        Some(4)
    } else if name == "read-html-dir-file"@ {
        Some(8)
    } else if name == "call-plugin"@ {
        Some(16)
    } else {
        None
    }
}

/// The pieces of a comma-separated list.
pub open spec fn comma_pieces(s: Seq<char>) -> Seq<Seq<char>>
    decreases s.len(),
{
    let k = first_index_from(s, seq![','], 0);
    if k < 0 {
        seq![s]
    } else {
        proof {
            lemma_first_index_bounds(s, seq![','], 0);
        }
        seq![s.subrange(0, k)] + comma_pieces(s.subrange(k + 1, s.len() as int))
    }
}

/// The bits of the names in a list, each trimmed; unknown names add nothing.
pub open spec fn list_bits(pieces: Seq<Seq<char>>, acc: u8) -> u8
    decreases pieces.len(),
{
    if pieces.len() == 0 {
        acc
    } else {
        list_bits(pieces.drop_first(), match flag_bits(trim_spec(pieces[0])) {
            Some(b) => acc | b,
            None => acc,
        })
    }
}

/// The prefix of permission attributes.
pub open spec fn permission_prefix() -> Seq<char> {
    "data-permission-"@
}

/// The permission that an attribute name grants, if it grants one.
pub open spec fn attr_flag(name: Seq<char>) -> Option<u8> {
    if has_prefix(name, permission_prefix()) {
        flag_bits(name.subrange(16, name.len() as int))
    } else {
        None
    }
}

/// The bits of the permission attributes among the entries, in turn.
pub open spec fn attr_bits(entries: Seq<(Seq<char>, Seq<char>)>, acc: u8) -> u8
    decreases entries.len(),
{
    if entries.len() == 0 {
        acc
    } else {
        attr_bits(entries.drop_first(), match attr_flag(entries[0].0) {
            Some(b) => acc | b,
            None => acc,
        })
    }
}

impl Permissions {
    /// No permission.
    pub fn none() -> (res: Permissions)
        ensures
            res.bits == 0,
    {
        Permissions { bits: 0 }
    }

    /// Grant the permissions of `other` too.
    pub fn insert(&mut self, other: Permissions)
        ensures
            final(self).bits == old(self).bits | other.bits,
    {
        self.bits = self.bits | other.bits;
    }

    /// Whether all permissions of `other` are granted.
    pub fn contains(&self, other: Permissions) -> (res: bool)
        ensures
            res == (self.bits & other.bits == other.bits),
    {
        self.bits & other.bits == other.bits
    }

    /// The permission a name stands for: `none`, `read-html-document`,
    /// `replace-html-document-call`, `create-output-file`, `read-html-dir-file`, `call-plugin`.
    pub fn from_flag_name(name: &str) -> (res: Option<Permissions>)
        ensures
            match flag_bits(name@) {
                Some(b) => res == Some(Permissions { bits: b }),
                None => res is None,
            },
    {
        if str_eq(name, "none") {
            Some(Permissions { bits: 0 })
        } else if str_eq(name, "read-html-document") {
            Some(Permissions { bits: 1 })
        } else if str_eq(name, "replace-html-document-call") {
            Some(Permissions { bits: 2 })
        } else if str_eq(name, "create-output-file") {
            Some(Permissions { bits: 4 })
        } else if str_eq(name, "read-html-dir-file") {
            Some(Permissions { bits: 8 })
        } else if str_eq(name, "call-plugin") {
            Some(Permissions { bits: 16 })
        } else {
            None
        }
    }

    /// The permissions of a comma-separated list of names.
    pub fn from_list(list: &str) -> (res: Permissions)
        ensures
            res.bits == list_bits(comma_pieces(list@), 0),
    {
        let comma: Vec<char> = vec![','];
        assert(comma@ =~= seq![',']);
        let mut bits: u8 = 0;
        let mut cur: Vec<char> = chars_of(list);
        loop
            invariant
                comma@ == seq![','],
                list_bits(comma_pieces(list@), 0) == list_bits(comma_pieces(cur@), bits),
            decreases cur.len(),
        {
            let ghost cv = cur@;
            let found = find_from(cur.as_slice(), comma.as_slice(), 0);
            let clen = cur.len();
            let piece = match found {
                Some(k) => {
                    proof {
                        lemma_first_index_bounds(cur@, comma@, 0);
                    }
                    slice_chars(cur.as_slice(), 0, k)
                },
                None => slice_chars(cur.as_slice(), 0, clen),
            };
            assert(cv.subrange(0, cv.len() as int) =~= cv);
            let name = trim(string_of_chars(piece.as_slice()).as_str());
            let ghost old_bits = bits;
            match Permissions::from_flag_name(name.as_str()) {
                Some(p) => {
                    bits = bits | p.bits;
                },
                None => {},
            }
            match found {
                Some(k) => {
                    let ghost pieces = comma_pieces(cv);
                    assert(pieces == seq![cv.subrange(0, k as int)] + comma_pieces(cv.subrange(k + 1, cv.len() as int)));
                    assert(pieces.drop_first() =~= comma_pieces(cv.subrange(k + 1, cv.len() as int)));
                    assert(pieces[0] == piece@);
                    cur = slice_chars(cur.as_slice(), k + 1, clen);
                },
                None => {
                    let ghost pieces = comma_pieces(cv);
                    assert(pieces == seq![cv]);
                    assert(pieces.drop_first() =~= Seq::<Seq<char>>::empty());
                    assert(pieces[0] == piece@);
                    assert(list_bits(pieces.drop_first(), bits) == bits);
                    assert(list_bits(pieces, old_bits) == list_bits(pieces.drop_first(), bits));
                    return Permissions { bits };
                },
            }
        }
    }

    /// Take all permission attributes out of an element's attributes: the `data-permissions`
    /// list and every `data-permission-<name>` attribute. Gives the permissions granted by the
    /// list and by the attributes whose name is a permission.
    pub fn from_link_attrs(link_attrs: &mut Attrs) -> (res: Permissions)
        requires
            old(link_attrs).wf(),
        ensures
            final(link_attrs).wf(),
            res.bits == attr_bits(
                old(link_attrs)@,
                match old(link_attrs).get_spec("data-permissions"@) {
                    Some(l) => list_bits(comma_pieces(l), 0),
                    None => 0,
                },
            ),
            forall|k: Seq<char>| #![trigger final(link_attrs).get_spec(k)]
                final(link_attrs).get_spec(k) == if k == "data-permissions"@ || has_prefix(k, permission_prefix()) {
                    None
                } else {
                    old(link_attrs).get_spec(k)
                },
    {
        let ghost entries = link_attrs@;
        let mut permissions = Permissions::none();
        match link_attrs.get("data-permissions") {
            Some(list) => {
                permissions = Permissions::from_list(list.as_str());
            },
            None => {},
        }
        let n = link_attrs.len();
        let mut doomed: Vec<String> = Vec::new();
        let mut i: usize = 0;
        assert(entries.subrange(0, n as int) =~= entries);
        while i < n
            invariant
                link_attrs@ == entries,
                link_attrs.wf(),
                n == entries.len(),
                i <= n,
                attr_bits(entries, match link_attrs.get_spec("data-permissions"@) {
                    Some(l) => list_bits(comma_pieces(l), 0),
                    None => 0,
                }) == attr_bits(entries.subrange(i as int, n as int), permissions.bits),
                forall|j: int| 0 <= j < i && has_prefix((#[trigger] entries[j]).0, permission_prefix())
                    ==> doomed@.map_values(|d: String| d@).contains(entries[j].0),
                forall|j: int| 0 <= j < doomed@.len() ==> has_prefix(#[trigger] doomed@[j]@, permission_prefix()),
            decreases n - i,
        {
            let ghost rest = entries.subrange(i as int, n as int);
            assert(rest.drop_first() =~= entries.subrange(i + 1, n as int));
            let (name, _value) = link_attrs.entry(i);
            let is_perm = starts_with(name.as_str(), "data-permission-");
            proof {
                reveal_strlit("data-permission-");
            }
            let ghost before = doomed@.map_values(|d: String| d@);
            let ghost old_bits = permissions.bits;
            assert(name@ == entries[i as int].0);
            if is_perm {
                let suffix = substring_from(name.as_str(), 16);
                assert(attr_flag(name@) == flag_bits(suffix@));
                match Permissions::from_flag_name(suffix.as_str()) {
                    Some(p) => {
                        permissions.insert(p);
                    },
                    None => {},
                }
                doomed.push(name.clone());
                assert(doomed@.map_values(|d: String| d@) =~= before.push(name@));
            } else {
                assert(attr_flag(name@) is None);
            }
            assert forall|j: int| 0 <= j < i + 1 && has_prefix((#[trigger] entries[j]).0, permission_prefix())
                implies doomed@.map_values(|d: String| d@).contains(entries[j].0) by {
                if j < i {
                    assert(before.contains(entries[j].0));
                    let w = choose|w: int| 0 <= w < before.len() && before[w] == entries[j].0;
                    assert(doomed@.map_values(|d: String| d@)[w] == entries[j].0);
                } else {
                    assert(doomed@.map_values(|d: String| d@).last() == name@);
                }
            }
            i = i + 1;
        }
        let _ = link_attrs.remove("data-permissions");
        let mut j: usize = 0;
        while j < doomed.len()
            invariant
                j <= doomed.len(),
                link_attrs.wf(),
                forall|k: Seq<char>| #![trigger link_attrs.get_spec(k)]
                    link_attrs.get_spec(k) == if k == "data-permissions"@
                        || doomed@.map_values(|d: String| d@).subrange(0, j as int).contains(k) {
                        None
                    } else {
                        lookup(entries, k)
                    },
            decreases doomed.len() - j,
        {
            let ghost dv = doomed@.map_values(|d: String| d@);
            let ghost s0 = dv.subrange(0, j as int);
            let ghost s1 = dv.subrange(0, j + 1);
            assert(s1 =~= s0.push(dv[j as int]));
            assert forall|k: Seq<char>| s1.contains(k) == (s0.contains(k) || k == dv[j as int]) by {
                if s0.contains(k) {
                    let w = choose|w: int| 0 <= w < s0.len() && s0[w] == k;
                    assert(s1[w] == k);
                }
                if k == dv[j as int] {
                    assert(s1[j as int] == k);
                }
                if s1.contains(k) {
                    let w = choose|w: int| 0 <= w < s1.len() && s1[w] == k;
                    if w < j {
                        assert(s0[w] == k);
                    }
                }
            }
            assert(dv[j as int] == doomed@[j as int]@);
            let _ = link_attrs.remove(doomed[j].as_str());
            j = j + 1;
        }
        proof {
            let dv = doomed@.map_values(|d: String| d@);
            assert(dv.subrange(0, dv.len() as int) =~= dv);
            assert forall|k: Seq<char>| #![trigger link_attrs.get_spec(k)]
                link_attrs.get_spec(k) == if k == "data-permissions"@ || has_prefix(k, permission_prefix()) {
                    None
                } else {
                    lookup(entries, k)
                } by {
                if has_prefix(k, permission_prefix()) && k != "data-permissions"@ {
                    lemma_lookup_iff(entries, k);
                    if lookup(entries, k) is Some {
                        let w = choose|w: int| 0 <= w < entries.len() && (#[trigger] entries[w]).0 == k;
                        assert(has_prefix(entries[w].0, permission_prefix()));
                        assert(dv.contains(k));
                    }
                } else if !has_prefix(k, permission_prefix()) {
                    if dv.contains(k) {
                        let w = choose|w: int| 0 <= w < dv.len() && dv[w] == k;
                        assert(has_prefix(doomed@[w]@, permission_prefix()));
                    }
                }
            }
        }
        permissions
    }
}

/// What a plugin hands back.
#[derive(Clone, Debug)]
pub struct Output {
    pub msg: String,
}

impl Default for Output {
    fn default() -> (res: Output)
        ensures
            res.msg@.len() == 0,
    {
        Output { msg: String::new() }
    }
}


/// The permissions already granted stay granted as a list is read.
proof fn lemma_list_keeps_acc(pieces: Seq<Seq<char>>, acc: u8)
    ensures
        list_bits(pieces, acc) & acc == acc,
    decreases pieces.len(),
{
    if pieces.len() == 0 {
        assert(acc & acc == acc) by (bit_vector);
    } else {
        let next: u8 = match flag_bits(trim_spec(pieces[0])) {
            Some(b) => acc | b,
            None => acc,
        };
        match flag_bits(trim_spec(pieces[0])) {
            Some(b) => {
                assert((acc | b) & acc == acc) by (bit_vector);
            },
            None => {
                assert(acc & acc == acc) by (bit_vector);
            },
        }
        lemma_list_keeps_acc(pieces.drop_first(), next);
        let r = list_bits(pieces.drop_first(), next);
        assert(r & acc == acc) by (bit_vector)
            requires
                r & next == next,
                next & acc == acc,
        {
        }
    }
}

/// A name of the list grants its permission.
proof fn lemma_list_grants(pieces: Seq<Seq<char>>, acc: u8, i: int, b: u8)
    requires
        0 <= i < pieces.len(),
        flag_bits(trim_spec(pieces[i])) == Some(b),
    ensures
        list_bits(pieces, acc) & b == b,
    decreases pieces.len(),
{
    let next: u8 = match flag_bits(trim_spec(pieces[0])) {
        Some(c) => acc | c,
        None => acc,
    };
    if i == 0 {
        lemma_list_keeps_acc(pieces.drop_first(), next);
        let r = list_bits(pieces.drop_first(), next);
        assert(next == acc | b);
        assert(r & b == b) by (bit_vector)
            requires
                r & next == next,
                next == acc | b,
        {
        }
    } else {
        assert(pieces.drop_first()[i - 1] == pieces[i]);
        lemma_list_grants(pieces.drop_first(), next, i - 1, b);
    }
}

/// Reading one more name at the end of a list adds its permission.
proof fn lemma_list_push(pieces: Seq<Seq<char>>, acc: u8, name: Seq<char>)
    ensures
        list_bits(pieces.push(name), acc) == match flag_bits(trim_spec(name)) {
            Some(b) => list_bits(pieces, acc) | b,
            None => list_bits(pieces, acc),
        },
    decreases pieces.len(),
{
    if pieces.len() == 0 {
        assert(pieces.push(name).drop_first() =~= Seq::<Seq<char>>::empty());
        assert(pieces.push(name)[0] == name);
        let next: u8 = match flag_bits(trim_spec(name)) {
            Some(b) => acc | b,
            None => acc,
        };
        assert(list_bits(pieces.push(name), acc) == list_bits(Seq::<Seq<char>>::empty(), next));
    } else {
        let next: u8 = match flag_bits(trim_spec(pieces[0])) {
            Some(b) => acc | b,
            None => acc,
        };
        assert(pieces.push(name)[0] == pieces[0]);
        assert(pieces.push(name).drop_first() =~= pieces.drop_first().push(name));
        lemma_list_push(pieces.drop_first(), next, name);
        assert(list_bits(pieces.push(name), acc) == list_bits(pieces.drop_first().push(name), next));
        assert(list_bits(pieces, acc) == list_bits(pieces.drop_first(), next));
    }
}

/// Naming `none`, or naming a permission that the list names already, grants nothing more:
/// the permissions of a list (`from_list` reads `list_bits` of its pieces) stay the same when
/// such a name is added at its end.
pub proof fn law_repeated_permission_no_effect(pieces: Seq<Seq<char>>, name: Seq<char>)
    requires
        flag_bits(trim_spec(name)) == Some(0u8) || exists|i: int|
            0 <= i < pieces.len() && trim_spec(#[trigger] pieces[i]) == trim_spec(name) && flag_bits(
                trim_spec(name),
            ) is Some,
    ensures
        list_bits(pieces.push(name), 0) == list_bits(pieces, 0),
{
    lemma_list_push(pieces, 0, name);
    let x = list_bits(pieces, 0);
    if flag_bits(trim_spec(name)) == Some(0u8) {
        assert(x | 0 == x) by (bit_vector);
    } else {
        let i = choose|i: int|
            0 <= i < pieces.len() && trim_spec(#[trigger] pieces[i]) == trim_spec(name) && flag_bits(
                trim_spec(name),
            ) is Some;
        let b = flag_bits(trim_spec(name)).unwrap();
        lemma_list_grants(pieces, 0, i, b);
        assert(x | b == x) by (bit_vector)
            requires
                x & b == b,
        {
        }
    }
}

} // verus!
