//! Edits of the HTML document that finalize the pipelines' outputs, and the selectors of the
//! elements that started them.
use crate::text::{decimal, digit_char, to_owned_string, usize_to_decimal};
use vstd::prelude::*;

verus! {

/// An edit of the document: what the caller performs on it, in order.
#[derive(Debug, Clone)]
pub enum DomAction {
    /// Remove the elements that `selector` selects.
    Remove { selector: String },
    /// Replace the elements that `selector` selects by `html`.
    ReplaceWithHtml { selector: String, html: String },
    /// Append `html` to the content of the elements that `selector` selects.
    AppendHtml { selector: String, html: String },
}

/// The kind of an edit and its two strings (the second is empty for a removal).
pub open spec fn action_view(a: DomAction) -> (int, Seq<char>, Seq<char>) {
    match a {
        DomAction::Remove { selector } => (0, selector@, Seq::empty()),
        DomAction::ReplaceWithHtml { selector, html } => (1, selector@, html@),
        DomAction::AppendHtml { selector, html } => (2, selector@, html@),
    }
}

/// The edits as views.
pub open spec fn actions_view(v: Seq<DomAction>) -> Seq<(int, Seq<char>, Seq<char>)> {
    v.map_values(|a: DomAction| action_view(a))
}

/// `link[data-trunk-id="<id>"]`.
pub open spec fn link_selector(id: nat) -> Seq<char> {
    "link[data-trunk-id=\""@ + decimal(id) + "\"]"@
}

/// `script[data-trunk-id="<id>"]`.
pub open spec fn script_selector(id: nat) -> Seq<char> {
    "script[data-trunk-id=\""@ + decimal(id) + "\"]"@
}

/// The CSS selector of the trunk link with the given ID.
pub fn trunk_id_selector(id: usize) -> (res: String)
    ensures
        res@ == link_selector(id as nat),
{
    let mut s = to_owned_string("link[data-trunk-id=\"");
    let d = usize_to_decimal(id);
    s.append(d.as_str());
    s.append("\"]");
    s
}

/// The CSS selector of the trunk script with the given ID.
pub fn trunk_script_id_selector(id: usize) -> (res: String)
    ensures
        res@ == script_selector(id as nat),
{
    let mut s = to_owned_string("script[data-trunk-id=\"");
    let d = usize_to_decimal(id);
    s.append(d.as_str());
    s.append("\"]");
    s
}


/// Decimal notations of different numbers differ.
proof fn lemma_decimal_injective(a: nat, b: nat)
    requires
        decimal(a) == decimal(b),
    ensures
        a == b,
    decreases a,
{
    if a < 10 && b < 10 {
        assert(decimal(a) == seq![digit_char(a as int)]);
        assert(decimal(b) == seq![digit_char(b as int)]);
        let ca = digit_char(a as int);
        let cb = digit_char(b as int);
        assert(seq![ca][0] == ca);
        assert(seq![cb][0] == cb);
        assert(ca == cb);
        lemma_digit_injective(a as int, b as int);
    } else if a < 10 {
        lemma_decimal_len(b / 10);
        assert(decimal(b).len() == decimal(b / 10).len() + 1);
    } else if b < 10 {
        lemma_decimal_len(a / 10);
        assert(decimal(a).len() == decimal(a / 10).len() + 1);
    } else {
        let da = decimal(a);
        let db = decimal(b);
        assert(da.last() == db.last());
        assert(da.last() == digit_char((a % 10) as int));
        assert(db.last() == digit_char((b % 10) as int));
        lemma_digit_injective((a % 10) as int, (b % 10) as int);
        assert(da.drop_last() == decimal(a / 10));
        assert(db.drop_last() == decimal(b / 10));
        lemma_decimal_injective(a / 10, b / 10);
        assert(a == (a / 10) * 10 + a % 10);
        assert(b == (b / 10) * 10 + b % 10);
    }
}

/// Different digits have different characters.
proof fn lemma_digit_injective(x: int, y: int)
    requires
        0 <= x < 10,
        0 <= y < 10,
        digit_char(x) == digit_char(y),
    ensures
        x == y,
{
}

/// A decimal notation has at least one digit.
proof fn lemma_decimal_len(n: nat)
    ensures
        decimal(n).len() >= 1,
    decreases n,
{
    if n >= 10 {
        lemma_decimal_len(n / 10);
    }
}

/// Each pipeline's edits select its own element only: the selectors of different IDs differ.
pub proof fn law_selectors_distinct(a: nat, b: nat)
    requires
        a != b,
    ensures
        link_selector(a) != link_selector(b),
        script_selector(a) != script_selector(b),
{
    let p = "link[data-trunk-id=\""@;
    let q = "script[data-trunk-id=\""@;
    let e = "\"]"@;
    if link_selector(a) == link_selector(b) {
        let x = link_selector(a);
        assert(x.subrange(p.len() as int, x.len() - e.len()) =~= decimal(a));
        assert(x.subrange(p.len() as int, x.len() - e.len()) =~= decimal(b));
        lemma_decimal_injective(a, b);
    }
    if script_selector(a) == script_selector(b) {
        let x = script_selector(a);
        assert(x.subrange(q.len() as int, x.len() - e.len()) =~= decimal(a));
        assert(x.subrange(q.len() as int, x.len() - e.len()) =~= decimal(b));
        lemma_decimal_injective(a, b);
    }
}

} // verus!
