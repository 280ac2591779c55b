//! Minification of the pipelines' outputs: HTML through `minify_html`, CSS through
//! `lightningcss`, PNG images through `oxipng`, a Rust application's JS loader through
//! `minify_js`, and script assets through `swc` (the steps are in the module `swc`). Whatever
//! cannot be minified is kept as it is.
use lightningcss::stylesheet::{MinifyOptions, ParserOptions, PrinterOptions, StyleSheet};
use crate::swc::{swc_emit, swc_minified, swc_optimize, swc_parse, swc_resolve};
use vstd::prelude::*;

verus! {

/// Whether the JavaScript is a module or a global script.
#[derive(Clone, Copy, Debug, PartialEq, Eq, Structural)]
pub enum JsModuleType {
    /// Global script (non-module).
    Global,
    /// ES module.
    Module,
}

/// What `minify_html::minify` makes of the HTML with a configuration that is `Cfg::new()` but
/// for the three flags given.
pub uninterp spec fn html_minified(html: Seq<u8>, minify_css: bool, minify_js: bool, keep_closing_tags: bool) -> Seq<u8>;

/// `minify_html::minify` with `Cfg::new()` and the flags `minify_css`, `minify_js` and
/// `keep_closing_tags` set as given.
#[verifier::external_body]
fn minify_html_with(html: &[u8], minify_css: bool, minify_js: bool, keep_closing_tags: bool) -> (res: Vec<u8>)
    ensures
        res@ == html_minified(html@, minify_css, minify_js, keep_closing_tags),
{
    let mut cfg = minify_html::Cfg::new();
    cfg.minify_css = minify_css;
    cfg.minify_js = minify_js;
    cfg.keep_closing_tags = keep_closing_tags;
    minify_html::minify(html, &cfg)
}

/// Minify a finished HTML document, its inline CSS and JS included, keeping closing tags.
pub fn minify_html(html: &[u8]) -> (res: Vec<u8>)
    ensures
        res@ == html_minified(html@, true, true, true),
{
    minify_html_with(html, true, true, true)
}

/// `std::str::from_utf8`: the text that the bytes encode in UTF-8, when they are valid UTF-8.
#[verifier::external_body]
fn utf8_text(v: &[u8]) -> (res: Option<&str>)
    ensures
        (res is Some) == vstd::utf8::valid_utf8(v@),
        res matches Some(s) ==> vstd::utf8::encode_utf8(s@) == v@,
{
    std::str::from_utf8(v).ok()
}

/// What `lightningcss` makes of a style sheet (given by its UTF-8 bytes) when it parses it with
/// the default parser options, minifies it with the default minify options and prints it with
/// `minify` set: the printed code, or none when one of the three steps fails.
pub uninterp spec fn css_minified(css: Seq<u8>) -> Option<Seq<u8>>;

/// `StyleSheet::parse`, `StyleSheet::minify` and `StyleSheet::to_css` of `lightningcss` in
/// turn; the style sheet borrows the text, so the three calls cannot be parted.
#[verifier::external_body]
fn lightningcss_minify(css: &str) -> (res: Option<Vec<u8>>)
    ensures
        res matches Some(m) ==> css_minified(vstd::utf8::encode_utf8(css@)) == Some(m@),
        res is None ==> css_minified(vstd::utf8::encode_utf8(css@)) is None,
{
    let mut sheet = StyleSheet::parse(css, ParserOptions::default()).ok()?;
    sheet.minify(MinifyOptions::default()).ok()?;
    let printed = sheet.to_css(PrinterOptions { minify: true, ..Default::default() }).ok()?;
    Some(printed.code.into_bytes())
}

/// Minify CSS: when the bytes are UTF-8 and `lightningcss` minifies them, its output; the
/// bytes unchanged otherwise.
pub fn minify_css(bytes: Vec<u8>) -> (res: Vec<u8>)
    ensures
        vstd::utf8::valid_utf8(bytes@) ==> match css_minified(bytes@) {
            Some(m) => res@ == m,
            None => res@ == bytes@,
        },
        !vstd::utf8::valid_utf8(bytes@) ==> res@ == bytes@,
{
    let minified = match utf8_text(bytes.as_slice()) {
        Some(css) => lightningcss_minify(css),
        None => None,
    };
    match minified {
        Some(m) => m,
        None => bytes,
    }
}

/// What `oxipng::optimize_from_memory` makes of a PNG image with the options of
/// `Options::from_preset(level)`: the optimized image, or none when it fails.
pub uninterp spec fn png_optimized(data: Seq<u8>, level: u8) -> Option<Seq<u8>>;

/// `oxipng::optimize_from_memory` with `Options::from_preset(level)`.
#[verifier::external_body]
fn oxipng_optimize(data: &[u8], level: u8) -> (res: Option<Vec<u8>>)
    ensures
        res matches Some(o) ==> png_optimized(data@, level) == Some(o@),
        res is None ==> png_optimized(data@, level) is None,
{
    oxipng::optimize_from_memory(data, &oxipng::Options::from_preset(level)).ok()
}

/// The optimization level of PNG images.
pub open spec fn png_level() -> u8 {
    6
}

/// Optimize a PNG image at the pipelines' level; none when `oxipng` fails.
pub fn optimize_png(data: &[u8]) -> (res: Option<Vec<u8>>)
    ensures
        match png_optimized(data@, png_level()) {
            Some(o) => res matches Some(r) && r@ == o,
            None => res is None,
        },
{
    oxipng_optimize(data, 6)
}

/// Minify a script asset through swc: parsed (as a module or a global script), resolved,
/// optimized with the default compress and mangle options, fixed up and printed minified (what
/// `swc_minified` names). The bytes are kept as they are when they are not UTF-8, when they do
/// not parse, and when printing fails.
pub fn minify_js(bytes: Vec<u8>, mode: JsModuleType) -> (res: Vec<u8>)
    ensures
        !vstd::utf8::valid_utf8(bytes@) ==> res@ == bytes@,
        vstd::utf8::valid_utf8(bytes@) ==> match swc_minified(bytes@, mode == JsModuleType::Module) {
            Some(m) => res@ == m,
            None => res@ == bytes@,
        },
{
    let module = mode == JsModuleType::Module;
    let parsed = match utf8_text(bytes.as_slice()) {
        Some(source) => swc_parse(source, module),
        None => None,
    };
    let program = match parsed {
        Some(p) => p,
        None => return bytes,
    };
    let program = swc_optimize(swc_resolve(program));
    match swc_emit(&program) {
        Some(out) => out,
        None => bytes,
    }
}

/// What `minify_js::minify` writes for the source in the given top-level mode, or none when it
/// reports a syntax error.
pub uninterp spec fn js_minified(source: Seq<u8>, module: bool) -> Option<Seq<u8>>;

/// `minify_js::minify` with a new session, as a module or a global script.
#[verifier::external_body]
fn minify_js_with(source: &[u8], module: bool) -> (res: Option<Vec<u8>>)
    ensures
        res matches Some(o) ==> js_minified(source@, module) == Some(o@),
        res is None ==> js_minified(source@, module) is None,
{
    let session = minify_js::Session::new();
    let mode = if module { minify_js::TopLevelMode::Module } else { minify_js::TopLevelMode::Global };
    let mut out = Vec::new();
    match minify_js::minify(&session, mode, source, &mut out) {
        Ok(()) => Some(out),
        Err(_) => None,
    }
}

/// The JS loader of a Rust application as it is staged: minified as a module in release
/// builds (unchanged when that fails), unchanged otherwise.
pub fn stage_js_loader(bytes: Vec<u8>, release: bool) -> (res: Vec<u8>)
    ensures
        !release ==> res@ == bytes@,
        release ==> match js_minified(bytes@, true) {
            Some(m) => res@ == m,
            None => res@ == bytes@,
        },
{
    if !release {
        return bytes;
    }
    match minify_js_with(bytes.as_slice(), true) {
        Some(m) => m,
        None => bytes,
    }
}

} // verus!
