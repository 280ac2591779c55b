//! The outputs of the asset pipelines, and the document edits that finalize each of them.
use crate::attrs::{
    attr_writer_output, bind, css_link_excluded, exclude_css_link, exclude_view, lemma_output_depends_on_lookup,
    lookup, AttrEntries, AttrWriter, Attrs,
};
use crate::dom::{link_selector, script_selector, trunk_id_selector, trunk_script_id_selector, DomAction};
use crate::integrity::{integrity_value, OutputDigest};
use crate::text::{has_prefix, starts_with, str_eq, to_owned_string};
use vstd::prelude::*;

verus! {

/// The entries with the `integrity` attribute of a digest on top, when it has one.
pub open spec fn integrity_entries(e: AttrEntries, d: OutputDigest) -> AttrEntries {
    match integrity_value(d.integrity, d.hash@) {
        Some(v) => bind(e, "integrity"@, v),
        None => e,
    }
}

/// The attributes of `attrs` with the integrity attribute of `digest`, as written into a tag.
pub fn attrs_with_integrity(attrs: &Attrs, digest: &OutputDigest, exclude: &[&str]) -> (res: String)
    requires
        attrs.wf(),
    ensures
        res@ == attr_writer_output(integrity_entries(attrs@, *digest), exclude_view(exclude@)),
{
    let mut a = attrs.duplicate();
    proof {
        assert(a.wf());
    }
    digest.insert_into(&mut a);
    let w = AttrWriter::new(&a, exclude);
    let out = w.to_string();
    proof {
        let target = integrity_entries(attrs@, *digest);
        assert forall|k: Seq<char>| #[trigger] lookup(a@, k) == lookup(target, k) by {
            assert(a.get_spec(k) == lookup(a@, k));
            match integrity_value(digest.integrity, digest.hash@) {
                Some(v) => {
                    assert(bind(attrs@, "integrity"@, v).drop_last() =~= attrs@);
                },
                None => {},
            }
        }
        lemma_output_depends_on_lookup(a@, target, exclude_view(exclude@));
    }
    out
}

/// The output of a CSS pipeline.
#[derive(Debug)]
pub struct CssOutput {
    /// The public URL that output files are served under.
    pub public_url: String,
    /// The ID of this pipeline.
    pub id: usize,
    /// The name of the output file.
    pub file: String,
    /// The other attributes of the original element.
    pub other_attrs: Attrs,
    /// The digest for the integrity attribute.
    pub integrity: OutputDigest,
}

/// `<link rel="stylesheet" href="<base><file>"<attrs>/>`.
pub open spec fn stylesheet_link(base: Seq<char>, file: Seq<char>, attrs: Seq<char>) -> Seq<char> {
    "<link rel=\"stylesheet\" href=\""@ + base + file + "\""@ + attrs + "/>"@
}

impl CssOutput {
    /// Replace the source element by a stylesheet link to the output file.
    pub fn finalize(&self) -> (res: DomAction)
        requires
            self.other_attrs.wf(),
        ensures
            res matches DomAction::ReplaceWithHtml { selector, html } && selector@ == link_selector(
                self.id as nat,
            ) && html@ == stylesheet_link(
                self.public_url@,
                self.file@,
                attr_writer_output(integrity_entries(self.other_attrs@, self.integrity), css_link_excluded()),
            ),
    {
        let ex = exclude_css_link();
        let attrs = attrs_with_integrity(&self.other_attrs, &self.integrity, ex.as_slice());
        let mut html = to_owned_string("<link rel=\"stylesheet\" href=\"");
        html.append(self.public_url.as_str());
        html.append(self.file.as_str());
        html.append("\"");
        html.append(attrs.as_str());
        html.append("/>");
        DomAction::ReplaceWithHtml { selector: trunk_id_selector(self.id), html }
    }
}

/// Whether a script element's attribute is kept on its output: all but `src` and the
/// `data-trunk*` ones.
pub open spec fn script_kept(k: Seq<char>) -> bool {
    k != "src"@ && !has_prefix(k, "data-trunk"@)
}

/// The attributes of a `<script data-trunk>` element that its output script keeps.
pub fn script_output_attrs(attrs: &Attrs) -> (res: Attrs)
    requires
        attrs.wf(),
    ensures
        res.wf(),
        forall|k: Seq<char>|
            #![trigger res.get_spec(k)]
            res.get_spec(k) == if script_kept(k) {
                attrs.get_spec(k)
            } else {
                None
            },
{
    let mut res = Attrs::new();
    let n = attrs.len();
    let mut i: usize = 0;
    while i < n
        invariant
            n == attrs@.len(),
            i <= n,
            attrs.wf(),
            res.wf(),
            forall|k: Seq<char>|
                #![trigger res.get_spec(k)]
                res.get_spec(k) == if script_kept(k) {
                    lookup(attrs@.subrange(0, i as int), k)
                } else {
                    None
                },
        decreases n - i,
    {
        let ghost pre = attrs@.subrange(0, i as int);
        let ghost cur = attrs@.subrange(0, i + 1);
        assert(cur.drop_last() =~= pre);
        assert(cur.last() == attrs@[i as int]);
        let (k, v) = attrs.entry(i);
        proof {
            reveal_strlit("src");
            reveal_strlit("data-trunk");
        }
        if !str_eq(k.as_str(), "src") && !starts_with(k.as_str(), "data-trunk") {
            res.insert(k.clone(), v.clone());
        }
        i = i + 1;
    }
    assert(attrs@.subrange(0, n as int) =~= attrs@);
    res
}

/// The output of a JS pipeline.
#[derive(Debug)]
pub struct JsOutput {
    pub public_url: String,
    /// The ID of this pipeline.
    pub id: usize,
    /// The name of the output file.
    pub file: String,
    /// The attributes of the script element.
    pub attrs: Attrs,
    /// The digest for the integrity attribute.
    pub integrity: OutputDigest,
}

/// `<script src="<base><file>"<attrs>/>`.
pub open spec fn script_tag(base: Seq<char>, file: Seq<char>, attrs: Seq<char>) -> Seq<char> {
    "<script src=\""@ + base + file + "\""@ + attrs + "/>"@
}

impl JsOutput {
    /// Replace the source script by a script that loads the output file.
    pub fn finalize(&self) -> (res: DomAction)
        requires
            self.attrs.wf(),
        ensures
            res matches DomAction::ReplaceWithHtml { selector, html } && selector@ == script_selector(
                self.id as nat,
            ) && html@ == script_tag(
                self.public_url@,
                self.file@,
                attr_writer_output(integrity_entries(self.attrs@, self.integrity), Seq::empty()),
            ),
    {
        let ex: Vec<&str> = Vec::new();
        let attrs = attrs_with_integrity(&self.attrs, &self.integrity, ex.as_slice());
        assert(exclude_view(ex@) =~= Seq::<Seq<char>>::empty());
        let mut html = to_owned_string("<script src=\"");
        html.append(self.public_url.as_str());
        html.append(self.file.as_str());
        html.append("\"");
        html.append(attrs.as_str());
        html.append("/>");
        DomAction::ReplaceWithHtml { selector: trunk_script_id_selector(self.id), html }
    }
}

/// The output of an icon pipeline.
#[derive(Debug)]
pub struct IconOutput {
    pub public_url: String,
    /// The ID of this pipeline.
    pub id: usize,
    /// The name of the output file.
    pub file: String,
    /// The digest for the integrity attribute.
    pub integrity: OutputDigest,
}

/// `<link rel="icon" href="<base><file>"<attrs>/>`.
pub open spec fn icon_link(base: Seq<char>, file: Seq<char>, attrs: Seq<char>) -> Seq<char> {
    "<link rel=\"icon\" href=\""@ + base + file + "\""@ + attrs + "/>"@
}

impl IconOutput {
    /// Replace the source element by an icon link to the output file.
    pub fn finalize(&self) -> (res: DomAction)
        ensures
            res matches DomAction::ReplaceWithHtml { selector, html } && selector@ == link_selector(
                self.id as nat,
            ) && html@ == icon_link(
                self.public_url@,
                self.file@,
                attr_writer_output(integrity_entries(Seq::empty(), self.integrity), Seq::empty()),
            ),
    {
        let empty = Attrs::new();
        let ex: Vec<&str> = Vec::new();
        let attrs = attrs_with_integrity(&empty, &self.integrity, ex.as_slice());
        assert(exclude_view(ex@) =~= Seq::<Seq<char>>::empty());
        let mut html = to_owned_string("<link rel=\"icon\" href=\"");
        html.append(self.public_url.as_str());
        html.append(self.file.as_str());
        html.append("\"");
        html.append(attrs.as_str());
        html.append("/>");
        DomAction::ReplaceWithHtml { selector: trunk_id_selector(self.id), html }
    }
}

/// The output of a copy-file pipeline: the ID of its element.
#[derive(Debug, Clone, Copy)]
pub struct CopyFileOutput(pub usize);

impl CopyFileOutput {
    /// Remove the source element.
    pub fn finalize(&self) -> (res: DomAction)
        ensures
            res matches DomAction::Remove { selector } && selector@ == link_selector(self.0 as nat),
    {
        DomAction::Remove { selector: trunk_id_selector(self.0) }
    }
}

/// The output of a copy-dir pipeline: the ID of its element.
#[derive(Debug, Clone, Copy)]
pub struct CopyDirOutput(pub usize);

impl CopyDirOutput {
    /// Remove the source element.
    pub fn finalize(&self) -> (res: DomAction)
        ensures
            res matches DomAction::Remove { selector } && selector@ == link_selector(self.0 as nat),
    {
        DomAction::Remove { selector: trunk_id_selector(self.0) }
    }
}

/// The output of a web-manifest pipeline.
#[derive(Debug, Clone)]
pub struct ManifestOutput {
    pub public_url: String,
    /// The ID of this pipeline.
    pub id: usize,
    /// The name of the output file.
    pub file_name: String,
}

impl ManifestOutput {
    /// Replace the source element by a manifest link to the output file.
    pub fn finalize(&self) -> (res: DomAction)
        ensures
            res matches DomAction::ReplaceWithHtml { selector, html } && selector@ == link_selector(
                self.id as nat,
            ) && html@ == "<link rel=\"manifest\" href=\""@ + self.public_url@ + self.file_name@ + "\"/>"@,
    {
        let mut html = to_owned_string("<link rel=\"manifest\" href=\"");
        html.append(self.public_url.as_str());
        html.append(self.file_name.as_str());
        html.append("\"/>");
        DomAction::ReplaceWithHtml { selector: trunk_id_selector(self.id), html }
    }
}

/// The output of an apple-touch-startup-image pipeline.
#[derive(Debug, Clone)]
pub struct AppleTouchStartupImageOutput {
    pub public_url: String,
    /// The ID of this pipeline.
    pub id: usize,
    /// The name of the output file.
    pub file_name: String,
    /// The optional `media` attribute.
    pub media: Option<String>,
}

impl AppleTouchStartupImageOutput {
    /// Replace the source element by a startup-image link to the output file.
    pub fn finalize(&self) -> (res: DomAction)
        ensures
            res matches DomAction::ReplaceWithHtml { selector, html } && selector@ == link_selector(
                self.id as nat,
            ) && html@ == "<link rel=\"apple-touch-startup-image\" href=\""@ + self.public_url@
                + self.file_name@ + "\" "@ + match self.media {
                Some(m) => "media=\""@ + m@ + "\""@,
                None => Seq::<char>::empty(),
            } + "/>"@,
    {
        let mut html = to_owned_string("<link rel=\"apple-touch-startup-image\" href=\"");
        html.append(self.public_url.as_str());
        html.append(self.file_name.as_str());
        html.append("\" ");
        match &self.media {
            Some(m) => {
                html.append("media=\"");
                html.append(m.as_str());
                html.append("\"");
            },
            None => {},
        }
        html.append("/>");
        DomAction::ReplaceWithHtml { selector: trunk_id_selector(self.id), html }
    }
}

/// The output of a Rust worker pipeline.
#[derive(Debug, Clone)]
pub struct RustWorkerOutput {
    /// The ID of this pipeline.
    pub id: usize,
    /// The name of the JS loader written to the dist dir.
    pub js_output: String,
    /// The name of the WASM file written to the dist dir.
    pub wasm_output: String,
}

impl RustWorkerOutput {
    /// Remove the source element; the application loads its workers itself.
    pub fn finalize(&self) -> (res: DomAction)
        ensures
            res matches DomAction::Remove { selector } && selector@ == link_selector(self.id as nat),
    {
        DomAction::Remove { selector: trunk_id_selector(self.id) }
    }
}

/// The files that wasm-bindgen wrote.
#[derive(Debug, Clone)]
pub struct WasmBindgenOutput {
    /// The name of the JS loader written to the dist dir.
    pub js_output: String,
    /// The name of the WASM file written to the dist dir.
    pub wasm_output: String,
}

/// The result of a cargo build.
#[derive(Debug, Clone)]
pub struct CargoBuildOutput {
    /// The path of the built WASM file.
    pub wasm: String,
    /// The hashed name to use for the WASM file.
    pub hashed_name: String,
}

/// An asset type read from the source HTML.
#[derive(Debug, Clone)]
pub enum AssetType {
    Link {
        /// The `rel` attribute of the link.
        rel: String,
    },
}

/// The output of an asset pipeline.
#[derive(Debug, Clone)]
pub struct AssetPipelineOutput {
    /// The ID of the asset pipeline.
    pub id: String,
    /// The name of the output file written to the dist dir.
    pub file_name: String,
    /// Whether the element of this pipeline is removed.
    pub remove: bool,
}

/// A plugin pipeline.
#[derive(Debug, Clone)]
pub struct Plugin {
    /// The ID of this pipeline's element.
    pub id: usize,
    /// The name of the plugin.
    pub plugin_name: String,
}

/// A plugin element without `data-plugin-name`.
#[derive(Debug, Clone, Copy)]
pub struct MissingPluginName;

impl MissingPluginName {
    /// The error message.
    pub fn to_string(&self) -> (res: String)
        ensures
            res@ == "plugin pipelines require attr data-plugin-name"@,
    {
        to_owned_string("plugin pipelines require attr data-plugin-name")
    }
}

impl Plugin {
    /// A plugin pipeline for the element `id`, named by its `data-plugin-name` attribute.
    pub fn new(attrs: &Attrs, id: usize) -> (res: Result<Plugin, MissingPluginName>)
        requires
            attrs.wf(),
        ensures
            match attrs.get_spec("data-plugin-name"@) {
                Some(n) => res matches Ok(p) && p.plugin_name@ == n && p.id == id,
                None => res is Err,
            },
    {
        match attrs.get("data-plugin-name") {
            Some(n) => Ok(Plugin { id, plugin_name: n.clone() }),
            None => Err(MissingPluginName),
        }
    }
}

/// The output of a plugin pipeline, which leaves the document as it is.
#[derive(Debug, Clone, Copy)]
pub struct PluginOutput;

impl PluginOutput {
    /// No edit.
    pub fn finalize(&self) -> (res: Vec<DomAction>)
        ensures
            res@.len() == 0,
    {
        Vec::new()
    }
}

/// The distribution of a node package.
#[derive(Debug, Clone, PartialEq, Eq)]
pub struct NodePackageDistribution {
    pub shasum: String,
    pub tarball: String,
    pub file_count: usize,
    pub integrity: String,
}

/// The registry information of a node package.
#[derive(Debug, Clone, PartialEq, Eq)]
pub struct NodePackageInformation {
    pub name: String,
    pub version: String,
    pub distribution: NodePackageDistribution,
}

} // verus!
