//! The output of any asset pipeline, and the edits that finalize it.
use crate::attrs::{attr_writer_output, css_link_excluded};
use crate::dom::{actions_view, link_selector, script_selector, DomAction};
use crate::outputs::{
    icon_link, integrity_entries, script_tag, stylesheet_link, CopyDirOutput, CopyFileOutput, CssOutput,
    IconOutput, JsOutput,
};
use crate::rust_output::{NoBody, RustAppOutput};
use crate::sass::{sass_html, SassOutput};
use crate::sri::{nonce_attr_spec, opt_view};
use crate::tailwind_css::{tailwind_html, TailwindCssOutput};
use vstd::prelude::*;

verus! {

/// The output of an asset pipeline.
#[derive(Debug)]
pub enum TrunkAssetPipelineOutput {
    Css(CssOutput),
    Sass(SassOutput),
    TailwindCss(TailwindCssOutput),
    Js(JsOutput),
    Icon(IconOutput),
    CopyFile(CopyFileOutput),
    CopyDir(CopyDirOutput),
    RustApp(RustAppOutput),
    /// A pipeline with nothing to finalize.
    Empty,
}

impl TrunkAssetPipelineOutput {
    /// The attribute maps of the output are well formed.
    pub open spec fn wf(&self) -> bool {
        match self {
            TrunkAssetPipelineOutput::Css(o) => o.other_attrs.wf(),
            TrunkAssetPipelineOutput::Sass(o) => o.attrs.wf(),
            TrunkAssetPipelineOutput::TailwindCss(o) => o.attrs.wf(),
            TrunkAssetPipelineOutput::Js(o) => o.attrs.wf(),
            _ => true,
        }
    }

    /// The edits that finalize the output, as views (`None` when the document is refused).
    pub open spec fn finalize_spec(&self, body_elements: usize) -> Option<Seq<(int, Seq<char>, Seq<char>)>> {
        match self {
            TrunkAssetPipelineOutput::Css(o) => Some(seq![(1int, link_selector(o.id as nat), stylesheet_link(
                o.public_url@,
                o.file@,
                attr_writer_output(integrity_entries(o.other_attrs@, o.integrity), css_link_excluded()),
            ))]),
            TrunkAssetPipelineOutput::Sass(o) => Some(seq![(1int, link_selector(o.id as nat), sass_html(
                o.public_url@,
                nonce_attr_spec(opt_view(o.create_nonce)),
                o.css_ref,
                o.attrs@,
            ))]),
            TrunkAssetPipelineOutput::TailwindCss(o) => Some(seq![(1int, link_selector(o.id as nat), tailwind_html(
                o.public_url@,
                nonce_attr_spec(opt_view(o.create_nonce)),
                o.css_ref,
                o.attrs@,
            ))]),
            TrunkAssetPipelineOutput::Js(o) => Some(seq![(1int, script_selector(o.id as nat), script_tag(
                o.public_url@,
                o.file@,
                attr_writer_output(integrity_entries(o.attrs@, o.integrity), Seq::empty()),
            ))]),
            TrunkAssetPipelineOutput::Icon(o) => Some(seq![(1int, link_selector(o.id as nat), icon_link(
                o.public_url@,
                o.file@,
                attr_writer_output(integrity_entries(Seq::empty(), o.integrity), Seq::empty()),
            ))]),
            TrunkAssetPipelineOutput::CopyFile(o) => Some(seq![(0int, link_selector(o.0 as nat), Seq::<char>::empty())]),
            TrunkAssetPipelineOutput::CopyDir(o) => Some(seq![(0int, link_selector(o.0 as nat), Seq::<char>::empty())]),
            TrunkAssetPipelineOutput::RustApp(o) => o.finalize_spec(body_elements),
            TrunkAssetPipelineOutput::Empty => Some(Seq::empty()),
        }
    }

    /// The edits that finalize the output; `body_elements` counts the `<body>` elements of
    /// the document, which a Rust application without a link needs.
    pub fn finalize(&self, body_elements: usize) -> (res: Result<Vec<DomAction>, NoBody>)
        requires
            self.wf(),
        ensures
            self.finalize_spec(body_elements) is None ==> res is Err,
            self.finalize_spec(body_elements) matches Some(s) ==> (res matches Ok(a) && actions_view(a@) == s),
    {
        let mut v: Vec<DomAction> = Vec::new();
        match self {
            TrunkAssetPipelineOutput::Css(o) => v.push(o.finalize()),
            TrunkAssetPipelineOutput::Sass(o) => v.push(o.finalize()),
            TrunkAssetPipelineOutput::TailwindCss(o) => v.push(o.finalize()),
            TrunkAssetPipelineOutput::Js(o) => v.push(o.finalize()),
            TrunkAssetPipelineOutput::Icon(o) => v.push(o.finalize()),
            TrunkAssetPipelineOutput::CopyFile(o) => v.push(o.finalize()),
            TrunkAssetPipelineOutput::CopyDir(o) => v.push(o.finalize()),
            TrunkAssetPipelineOutput::RustApp(o) => {
                return o.finalize(body_elements);
            },
            TrunkAssetPipelineOutput::Empty => {},
        }
        assert(actions_view(v@) =~= self.finalize_spec(body_elements).unwrap());
        Ok(v)
    }
}

} // verus!
