//! Decisions of the HTML pipeline: which elements start asset pipelines, whether a default
//! Rust application is needed, how failed pipelines are reported, and the autoloader script.
use crate::assets::TrunkAssetReference;
use crate::attrs::Attrs;
use crate::dom::DomAction;
use crate::sri::{nonce_attr, nonce_attr_spec, opt_view};
use crate::text::{decimal, replace_all, replace_all_spec, str_eq, to_owned_string, usize_to_decimal};
use vstd::prelude::*;

verus! {

/// The asset reference that an element with this tag name starts, if any.
pub open spec fn reference_of(tag: Seq<char>, attrs: Attrs) -> Option<TrunkAssetReference> {
    if tag == "link"@ {
        Some(TrunkAssetReference::Link(attrs))
    } else if tag == "script"@ {
        Some(TrunkAssetReference::Script(attrs))
    } else {
        None
    }
}

/// The asset reference of a `data-trunk` element: `link` and `script` elements start a
/// pipeline, any other element starts none.
pub fn asset_reference(tag: &str, attrs: Attrs) -> (res: Option<TrunkAssetReference>)
    ensures
        res == reference_of(tag@, attrs),
{
    if str_eq(tag, "link") {
        proof {
            reveal_strlit("link");
        }
        Some(TrunkAssetReference::Link(attrs))
    } else if str_eq(tag, "script") {
        proof {
            reveal_strlit("link");
            reveal_strlit("script");
        }
        Some(TrunkAssetReference::Script(attrs))
    } else {
        proof {
            reveal_strlit("link");
            reveal_strlit("script");
        }
        None
    }
}

/// More than one main Rust application link was found in the document.
#[derive(Debug, Clone, Copy, PartialEq, Eq, Structural)]
pub struct MultipleRustApps;

impl MultipleRustApps {
    /// The error message.
    pub fn to_string(&self) -> (res: String)
        ensures
            res@ == "only one <link data-trunk rel=\"rust\" data-type=\"main\" .../> may be specified"@,
    {
        to_owned_string("only one <link data-trunk rel=\"rust\" data-type=\"main\" .../> may be specified")
    }
}

/// Given the number of main Rust application links in the document, whether the default
/// application must be added (`Ok(true)` when there is none); more than one is an error.
pub fn needs_default_rust_app(rust_app_nodes: usize) -> (res: Result<bool, MultipleRustApps>)
    ensures
        res is Ok <==> rust_app_nodes <= 1,
        res is Ok ==> res->Ok_0 == (rust_app_nodes == 0),
{
    if rust_app_nodes > 1 {
        Err(MultipleRustApps)
    } else {
        Ok(rust_app_nodes == 0)
    }
}

/// The errors among the outcomes of the asset pipelines, in order.
pub open spec fn failures(outcomes: Seq<Option<String>>) -> Seq<String>
    decreases outcomes.len(),
{
    if outcomes.len() == 0 {
        Seq::empty()
    } else {
        let rest = failures(outcomes.drop_last());
        match outcomes.last() {
            Some(e) => rest.push(e),
            None => rest,
        }
    }
}

/// The report of failed asset pipelines: the error shown and how many failed.
#[derive(Debug)]
pub struct PipelineFailure {
    /// The error that is shown: the first one.
    pub shown: String,
    /// How many pipelines failed.
    pub count: usize,
}

impl PipelineFailure {
    /// The message that precedes the shown error.
    pub fn message(&self) -> (res: String)
        ensures
            res@ == "HTML build pipeline failed ("@ + decimal(self.count as nat) + " errors), showing first"@,
    {
        let mut s = to_owned_string("HTML build pipeline failed (");
        let n = usize_to_decimal(self.count);
        s.append(n.as_str());
        s.append(" errors), showing first");
        s
    }
}

/// The report of the outcomes of all asset pipelines (`None` for one that succeeded): no
/// report when none failed, else the first error, in the order the outcomes came, and the
/// number of errors.
pub fn collect_failures(outcomes: Vec<Option<String>>) -> (res: Option<PipelineFailure>)
    ensures
        res is None <==> failures(outcomes@).len() == 0,
        res matches Some(f) ==> f.count == failures(outcomes@).len() && f.shown == failures(
            outcomes@,
        ).first(),
{
    let ghost all = outcomes@;
    let mut rest = outcomes;
    let mut shown: Option<String> = None;
    let mut count: usize = 0;
    proof {
        lemma_failures_len(all);
        assert(all.len() == rest.len());
        assert(all.subrange(0, all.len() as int) == all);
        assert(failures(all).subrange(0, failures(all).len() as int) == failures(all));
    }
    while rest.len() > 0
        invariant
            all.len() <= usize::MAX,
            failures(all).len() <= all.len(),
            rest@.len() <= all.len(),
            rest@ == all.subrange(0, rest@.len() as int),
            failures(rest@).len() <= failures(all).len(),
            failures(rest@) == failures(all).subrange(0, failures(rest@).len() as int),
            count == failures(all).len() - failures(rest@).len(),
            shown is None <==> count == 0,
            shown matches Some(s) ==> s == failures(all)[failures(rest@).len() as int],
        decreases rest@.len(),
    {
        let ghost before = rest@;
        let last = rest.pop();
        proof {
            assert(before.drop_last() == rest@);
            assert(rest@ == all.subrange(0, rest@.len() as int));
            let fb = failures(before);
            let fr = failures(rest@);
            assert(fr == fb.subrange(0, fr.len() as int));
            assert(fr == failures(all).subrange(0, fr.len() as int));
        }
        match last {
            Some(Some(e)) => {
                proof {
                    let fb = failures(before);
                    assert(fb[failures(rest@).len() as int] == e);
                }
                shown = Some(e);
                count = count + 1;
            },
            _ => {},
        }
    }
    match shown {
        Some(s) => Some(PipelineFailure { shown: s, count }),
        None => None,
    }
}

/// There are no more errors than outcomes.
pub proof fn lemma_failures_len(outcomes: Seq<Option<String>>)
    ensures
        failures(outcomes).len() <= outcomes.len(),
    decreases outcomes.len(),
{
    if outcomes.len() > 0 {
        lemma_failures_len(outcomes.drop_last());
    }
}

/// The placeholder of the autoloader script that receives the WebSocket protocol.
pub open spec fn protocol_placeholder() -> Seq<char> {
    "{{__TRUNK_WS_PROTOCOL__}}"@
}

/// The autoloader script element: the script, its protocol placeholder replaced by the
/// protocol (or by nothing), inside a `script` element with the nonce attribute.
pub open spec fn autoloader_spec(
    nonce: Option<Seq<char>>,
    script: Seq<char>,
    protocol: Option<Seq<char>>,
) -> Seq<char> {
    let p = match protocol {
        Some(p) => p,
        None => Seq::empty(),
    };
    "<script"@ + nonce_attr_spec(nonce) + ">"@ + replace_all_spec(script, protocol_placeholder(), p)
        + "</script>"@
}

/// The autoloader script element of the reload script.
pub fn autoloader_script(
    create_nonce: &Option<String>,
    reload_script: &str,
    ws_protocol: &Option<String>,
) -> (res: String)
    ensures
        res@ == autoloader_spec(opt_view(*create_nonce), reload_script@, opt_view(*ws_protocol)),
{
    let placeholder = "{{__TRUNK_WS_PROTOCOL__}}";
    proof {
        reveal_strlit("{{__TRUNK_WS_PROTOCOL__}}");
        reveal_strlit("");
        assert(""@ =~= Seq::<char>::empty());
    }
    let body = match ws_protocol {
        Some(p) => replace_all(reload_script, placeholder, p.as_str()),
        None => replace_all(reload_script, placeholder, ""),
    };
    let mut s = to_owned_string("<script");
    let n = nonce_attr(create_nonce);
    s.append(n.as_str());
    s.append(">");
    s.append(body.as_str());
    s.append("</script>");
    s
}

/// The edit that finalizes the document: the autoloader appended to the body when it is
/// to be injected, else none.
pub fn finalize_html(
    inject_autoloader: bool,
    create_nonce: &Option<String>,
    reload_script: &str,
    ws_protocol: &Option<String>,
) -> (res: Option<DomAction>)
    ensures
        inject_autoloader <==> res is Some,
        res matches Some(a) ==> a matches DomAction::AppendHtml { selector, html } && selector@
            == "body"@ && html@ == autoloader_spec(
            opt_view(*create_nonce),
            reload_script@,
            opt_view(*ws_protocol),
        ),
{
    if inject_autoloader {
        let html = autoloader_script(create_nonce, reload_script, ws_protocol);
        Some(DomAction::AppendHtml { selector: to_owned_string("body"), html })
    } else {
        None
    }
}

/// The selector of the `base` element that receives the public URL.
pub fn public_url_base_selector() -> (res: String)
    ensures
        res@ == "html head base[data-trunk-public-url]"@,
{
    to_owned_string("html head base[data-trunk-public-url]")
}

} // verus!
