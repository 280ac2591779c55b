//! The output of a Tailwind CSS pipeline.
use crate::attrs::{attr_writer_output, css_inline_excluded, css_link_excluded, exclude_css_inline, exclude_css_link, AttrWriter, Attrs};
use crate::dom::{link_selector, trunk_id_selector, DomAction};
use crate::assets::{css_name, css_output_name};
use crate::integrity::{digest_of, IntegrityType, OutputDigest};
use crate::outputs::{attrs_with_integrity, integrity_entries};
use crate::sri::{nonce_attr, nonce_attr_spec, opt_view};
use crate::text::to_owned_string;
use vstd::prelude::*;

verus! {

/// The CSS that a Tailwind CSS compilation produced.
#[derive(Debug, Clone)]
pub enum CssRef {
    /// CSS to be inlined (for `data-inline`).
    Inline(String),
    /// The name of a hashed CSS file and its digest.
    File(String, OutputDigest),
}

/// The compiled CSS as the pipeline hands it on, and the name of the file to write it to: the
/// CSS itself when it is inlined, and no file; otherwise the file that `css_output_name` names
/// (the stem, hashed when `filehash`) in the target dir, referred to by `href_prefix` and that
/// name, with the digest of the CSS.
pub fn css_output(
    css: String,
    inline: bool,
    stem: &str,
    filehash: bool,
    href_prefix: &str,
    integrity: IntegrityType,
) -> (res: (CssRef, Option<String>))
    ensures
        inline ==> (res.0 matches CssRef::Inline(c) && c@ == css@) && res.1 is None,
        !inline ==> ({
            let name = css_name(stem@, filehash, vstd::utf8::encode_utf8(css@));
            &&& res.1 matches Some(n) && n@ == name
            &&& res.0 matches CssRef::File(href, d) && href@ == href_prefix@ + name && d.integrity == integrity
                && d.hash@ == digest_of(integrity, vstd::utf8::encode_utf8(css@))
        }),
{
    if inline {
        return (CssRef::Inline(css), None);
    }
    let bytes = css.as_str().as_bytes();
    let name = css_output_name(stem, filehash, bytes);
    let digest = OutputDigest::generate_from(integrity, bytes);
    let mut href = to_owned_string(href_prefix);
    href.append(name.as_str());
    (CssRef::File(href, digest), Some(name))
}

/// The output of a Tailwind CSS pipeline.
#[derive(Debug)]
pub struct TailwindCssOutput {
    pub public_url: String,
    /// The nonce placeholder, when one is configured.
    pub create_nonce: Option<String>,
    /// The ID of this pipeline.
    pub id: usize,
    /// The compiled CSS.
    pub css_ref: CssRef,
    /// The other attributes of the original element.
    pub attrs: Attrs,
}

/// The element that stands for compiled CSS: an inline `<style>` element with the nonce, or a
/// link to the file.
pub open spec fn tailwind_html(
    base: Seq<char>,
    nonce: Seq<char>,
    css_ref: CssRef,
    attrs: crate::attrs::AttrEntries,
) -> Seq<char> {
    match css_ref {
        CssRef::Inline(css) => "<style "@ + attr_writer_output(attrs, css_inline_excluded()) + nonce + ">"@
            + css@ + "</style>"@,
        CssRef::File(file, d) => "<link rel=\"stylesheet\" href=\""@ + base + file@ + "\""@
            + attr_writer_output(integrity_entries(attrs, d), css_link_excluded()) + "/>"@,
    }
}

impl TailwindCssOutput {
    /// Replace the source element by the compiled CSS.
    pub fn finalize(&self) -> (res: DomAction)
        requires
            self.attrs.wf(),
        ensures
            res matches DomAction::ReplaceWithHtml { selector, html } && selector@ == link_selector(
                self.id as nat,
            ) && html@ == tailwind_html(
                self.public_url@,
                nonce_attr_spec(opt_view(self.create_nonce)),
                self.css_ref,
                self.attrs@,
            ),
    {
        let nonce = nonce_attr(&self.create_nonce);
        let html = match &self.css_ref {
            CssRef::Inline(css) => {
                let ex = exclude_css_inline();
                let w = AttrWriter::new(&self.attrs, ex.as_slice());
                let a = w.to_string();
                let mut h = to_owned_string("<style ");
                h.append(a.as_str());
                h.append(nonce.as_str());
                h.append(">");
                h.append(css.as_str());
                h.append("</style>");
                h
            },
            CssRef::File(file, d) => {
                let ex = exclude_css_link();
                let a = attrs_with_integrity(&self.attrs, d, ex.as_slice());
                let mut h = to_owned_string("<link rel=\"stylesheet\" href=\"");
                h.append(self.public_url.as_str());
                h.append(file.as_str());
                h.append("\"");
                h.append(a.as_str());
                h.append("/>");
                h
            },
        };
        DomAction::ReplaceWithHtml { selector: trunk_id_selector(self.id), html }
    }
}

} // verus!
