//! The asset pipelines of the source HTML: which pipeline an element starts, where its file
//! is, what its output file is named, and the arguments of the CSS compilers.
use crate::attrs::Attrs;
use crate::cargo_build::{seahash_hash, seahash_of, strs};
use crate::paths::{extension, file_name, file_name_of, last_index_of, name_extension};
use crate::text::{chars_of, lower_hex, str_eq, string_of_chars, to_owned_string, u64_to_lower_hex};
use vstd::prelude::*;

verus! {

/// A reference to a trunk asset: the attributes of a `<link data-trunk>` or a
/// `<script data-trunk>` element.
#[derive(Debug)]
pub enum TrunkAssetReference {
    Link(Attrs),
    Script(Attrs),
}

/// The pipeline that an element starts.
#[derive(Clone, Copy, Debug, PartialEq, Eq, Structural)]
pub enum AssetKind {
    Css,
    Sass,
    TailwindCss,
    TailwindCssExtra,
    Js,
    Icon,
    Inline,
    CopyFile,
    CopyDir,
    RustApp,
}

/// The pipeline of a `rel` value.
pub open spec fn kind_of_rel(rel: Seq<char>) -> Option<AssetKind> {
    if rel == "sass"@ || rel == "scss"@ {
        Some(AssetKind::Sass)
    } else if rel == "icon"@ {
        Some(AssetKind::Icon)
    } else if rel == "inline"@ {
        Some(AssetKind::Inline)
    } else if rel == "css"@ {
        Some(AssetKind::Css)
    } else if rel == "copy-file"@ {
        Some(AssetKind::CopyFile)
    } else if rel == "copy-dir"@ {
        Some(AssetKind::CopyDir)
    } else if rel == "rust"@ {
        Some(AssetKind::RustApp)
    } else if rel == "tailwind-css"@ {
        Some(AssetKind::TailwindCss)
    } else if rel == "tailwind-css-extra"@ {
        Some(AssetKind::TailwindCssExtra)
    } else {
        None
    }
}

/// Why an element starts no pipeline.
#[derive(Debug, Clone)]
pub enum AssetRefError {
    /// A link without `rel`.
    MissingRel,
    /// A link whose `rel` names no pipeline.
    UnknownRel { rel: String },
}

impl AssetRefError {
    /// The error message.
    pub fn to_string(&self) -> (res: String)
        ensures
            res@ == match self {
                AssetRefError::MissingRel => "all <link data-trunk .../> elements must have a `rel` attribute indicating the asset type"@,
                AssetRefError::UnknownRel { rel } => "unknown <link data-trunk .../> attr value `rel=\""@ + rel@
                    + "\"`; please ensure the value is lowercase and is a supported asset type"@,
            },
    {
        match self {
            AssetRefError::MissingRel => to_owned_string(
                "all <link data-trunk .../> elements must have a `rel` attribute indicating the asset type",
            ),
            AssetRefError::UnknownRel { rel } => {
                let mut s = to_owned_string("unknown <link data-trunk .../> attr value `rel=\"");
                s.append(rel.as_str());
                s.append("\"`; please ensure the value is lowercase and is a supported asset type");
                s
            },
        }
    }
}

impl TrunkAssetReference {
    /// The pipeline that the element starts: a script starts the JS pipeline, a link the one
    /// that its `rel` names.
    pub fn kind(&self) -> (res: Result<AssetKind, AssetRefError>)
        requires
            match self {
                TrunkAssetReference::Link(a) => a.wf(),
                TrunkAssetReference::Script(a) => a.wf(),
            },
        ensures
            match self {
                TrunkAssetReference::Script(_) => res == Ok::<AssetKind, AssetRefError>(AssetKind::Js),
                TrunkAssetReference::Link(a) => match a.get_spec("rel"@) {
                    None => res matches Err(AssetRefError::MissingRel),
                    Some(rel) => match kind_of_rel(rel) {
                        Some(k) => res == Ok::<AssetKind, AssetRefError>(k),
                        None => res matches Err(AssetRefError::UnknownRel { rel: r }) && r@ == rel,
                    },
                },
            },
    {
        match self {
            TrunkAssetReference::Script(_) => Ok(AssetKind::Js),
            TrunkAssetReference::Link(a) => {
                let rel = match a.get("rel") {
                    Some(r) => r,
                    None => return Err(AssetRefError::MissingRel),
                };
                let r = rel.as_str();
                if str_eq(r, "sass") || str_eq(r, "scss") {
                    Ok(AssetKind::Sass)
                } else if str_eq(r, "icon") {
                    Ok(AssetKind::Icon)
                } else if str_eq(r, "inline") {
                    Ok(AssetKind::Inline)
                } else if str_eq(r, "css") {
                    Ok(AssetKind::Css)
                } else if str_eq(r, "copy-file") {
                    Ok(AssetKind::CopyFile)
                } else if str_eq(r, "copy-dir") {
                    Ok(AssetKind::CopyDir)
                } else if str_eq(r, "rust") {
                    Ok(AssetKind::RustApp)
                } else if str_eq(r, "tailwind-css") {
                    Ok(AssetKind::TailwindCss)
                } else if str_eq(r, "tailwind-css-extra") {
                    Ok(AssetKind::TailwindCssExtra)
                } else {
                    Err(AssetRefError::UnknownRel { rel: rel.clone() })
                }
            },
        }
    }
}

/// The attribute that names an element's file, and the `rel` shown when it is missing.
pub open spec fn source_attr(k: AssetKind) -> Seq<char> {
    if k == AssetKind::Js {
        "src"@
    } else {
        "href"@
    }
}

/// The `rel` of a pipeline, as its error messages name it.
pub open spec fn rel_name(k: AssetKind) -> Seq<char> {
    match k {
        AssetKind::Css => "css"@,
        AssetKind::Sass => "sass|scss"@,
        AssetKind::TailwindCss => "tailwind-css"@,
        AssetKind::TailwindCssExtra => "tailwind-css-extra"@,
        AssetKind::Js => "script"@,
        AssetKind::Icon => "icon"@,
        AssetKind::Inline => "inline"@,
        AssetKind::CopyFile => "copy-file"@,
        AssetKind::CopyDir => "copy-dir"@,
        AssetKind::RustApp => "rust"@,
    }
}

/// An element without the attribute that names its file.
#[derive(Debug, Clone, Copy)]
pub struct MissingSource {
    pub kind: AssetKind,
}

impl MissingSource {
    /// The error message.
    pub fn to_string(&self) -> (res: String)
        ensures
            self.kind == AssetKind::Js ==> res@ == "required attr `src` missing for <script data-trunk .../> element"@,
            self.kind != AssetKind::Js ==> res@ == "required attr `href` missing for <link data-trunk rel=\""@
                + rel_name(self.kind) + "\" .../> element"@,
    {
        if self.kind == AssetKind::Js {
            return to_owned_string("required attr `src` missing for <script data-trunk .../> element");
        }
        let mut s = to_owned_string("required attr `href` missing for <link data-trunk rel=\"");
        s.append(
            match self.kind {
                AssetKind::Css => "css",
                AssetKind::Sass => "sass|scss",
                AssetKind::TailwindCss => "tailwind-css",
                AssetKind::TailwindCssExtra => "tailwind-css-extra",
                AssetKind::Js => "script",
                AssetKind::Icon => "icon",
                AssetKind::Inline => "inline",
                AssetKind::CopyFile => "copy-file",
                AssetKind::CopyDir => "copy-dir",
                AssetKind::RustApp => "rust",
            },
        );
        s.append("\" .../> element");
        s
    }
}

/// The attribute value that names an element's file (`src` for a script, `href` otherwise).
pub fn source_path(attrs: &Attrs, kind: AssetKind) -> (res: Result<String, MissingSource>)
    requires
        attrs.wf(),
    ensures
        match attrs.get_spec(source_attr(kind)) {
            Some(v) => res matches Ok(p) && p@ == v,
            None => res matches Err(e) && e.kind == kind,
        },
{
    let name = if kind == AssetKind::Js { "src" } else { "href" };
    match attrs.get(name) {
        Some(v) => Ok(v.clone()),
        None => Err(MissingSource { kind }),
    }
}

/// The `data-target-path` of an element, without trailing slashes.
pub open spec fn target_path_spec(attrs_value: Option<Seq<char>>) -> Option<Seq<char>> {
    match attrs_value {
        Some(v) => Some(trim_end_slashes(v)),
        None => None,
    }
}

/// `s` without the `/` characters it ends with.
pub open spec fn trim_end_slashes(s: Seq<char>) -> Seq<char>
    decreases s.len(),
{
    if s.len() > 0 && s.last() == '/' {
        trim_end_slashes(s.drop_last())
    } else {
        s
    }
}

/// The target path of an asset inside the dist dir, from its `data-target-path` attribute.
pub fn data_target_path(attrs: &Attrs) -> (res: Option<String>)
    requires
        attrs.wf(),
    ensures
        crate::sri::opt_view(res) == target_path_spec(attrs.get_spec("data-target-path"@)),
{
    match attrs.get("data-target-path") {
        Some(v) => {
            let c = chars_of(v.as_str());
            let mut e: usize = c.len();
            assert(c@.subrange(0, e as int) =~= c@);
            while e > 0 && c[e - 1] == '/'
                invariant
                    e <= c.len(),
                    trim_end_slashes(c@) == trim_end_slashes(c@.subrange(0, e as int)),
                decreases e,
            {
                assert(c@.subrange(0, e as int).drop_last() =~= c@.subrange(0, e - 1));
                e = e - 1;
            }
            let t = crate::split::slice_chars(c.as_slice(), 0, e);
            Some(string_of_chars(t.as_slice()))
        },
        None => None,
    }
}

/// The kind of an image.
#[derive(Clone, Copy, Debug, PartialEq, Eq, Structural)]
pub enum ImageType {
    Png,
    Other,
}

/// The kind of an asset file, as far as minifying it goes.
#[derive(Clone, Copy, Debug, PartialEq, Eq, Structural)]
pub enum AssetFileType {
    Css,
    Icon(ImageType),
    Js,
    Mjs,
    Other,
}

/// A stage of the build, at which hooks run.
#[derive(Clone, Copy, Debug, PartialEq, Eq, Structural)]
pub enum PipelineStage {
    /// Before the asset builds.
    PreBuild,
    /// While the asset builds run.
    Build,
    /// After the asset builds.
    PostBuild,
}

/// How an asset file is minified.
#[derive(Clone, Copy, Debug, PartialEq, Eq, Structural)]
pub enum MinifyStep {
    /// Kept as it is.
    Keep,
    /// Minified as CSS.
    Css,
    /// Optimized as a PNG image.
    Png,
    /// Minified as JavaScript of the given kind.
    Js(crate::minify::JsModuleType),
}

/// How an asset file is minified: not at all unless minification is on; CSS and scripts by
/// their kind, icons only when they are PNG images.
pub fn minify_step(minify: bool, file_type: AssetFileType) -> (res: MinifyStep)
    ensures
        !minify ==> res == MinifyStep::Keep,
        minify ==> res == match file_type {
            AssetFileType::Css => MinifyStep::Css,
            AssetFileType::Icon(ImageType::Png) => MinifyStep::Png,
            AssetFileType::Icon(ImageType::Other) => MinifyStep::Keep,
            AssetFileType::Js => MinifyStep::Js(crate::minify::JsModuleType::Global),
            AssetFileType::Mjs => MinifyStep::Js(crate::minify::JsModuleType::Module),
            AssetFileType::Other => MinifyStep::Keep,
        },
{
    if !minify {
        return MinifyStep::Keep;
    }
    match file_type {
        AssetFileType::Css => MinifyStep::Css,
        AssetFileType::Icon(ImageType::Png) => MinifyStep::Png,
        AssetFileType::Icon(ImageType::Other) => MinifyStep::Keep,
        AssetFileType::Js => MinifyStep::Js(crate::minify::JsModuleType::Global),
        AssetFileType::Mjs => MinifyStep::Js(crate::minify::JsModuleType::Module),
        AssetFileType::Other => MinifyStep::Keep,
    }
}

/// The image type of an icon, from the top-level part of its guessed MIME type. Only the full
/// `image/png` selects PNG, so a top-level part (`image`) never does.
pub fn image_type(mime_type: &str) -> (res: ImageType)
    ensures
        res == if mime_type@ == "image/png"@ { ImageType::Png } else { ImageType::Other },
{
    if str_eq(mime_type, "image/png") {
        ImageType::Png
    } else {
        ImageType::Other
    }
}

/// The stem of a file name (`Path::file_stem`): what precedes its last `.`, unless that dot is
/// its first character or there is none.
pub open spec fn name_stem(n: Seq<char>) -> Seq<char> {
    let k = last_index_of(n, '.');
    if k <= 0 {
        n
    } else {
        n.subrange(0, k)
    }
}

/// An asset file to be processed by a pipeline.
#[derive(Debug, Clone)]
pub struct AssetFile {
    /// The canonical path of the file.
    pub path: String,
    /// The name of the file.
    pub file_name: String,
    /// The stem of the file's name.
    pub file_stem: String,
    /// The extension of the file's name.
    pub ext: Option<String>,
}

/// A path that names no file.
#[derive(Debug, Clone)]
pub struct NoFileName {
    pub path: String,
}

impl AssetFile {
    /// The asset file at the canonical path `path` (the caller checked that it exists).
    pub fn new(path: String) -> (res: Result<AssetFile, NoFileName>)
        ensures
            match file_name_of(path@) {
                Some(n) => res matches Ok(a) && a.path@ == path@ && a.file_name@ == n
                    && a.file_stem@ == name_stem(n) && crate::sri::opt_view(a.ext) == name_extension(n),
                None => res matches Err(e) && e.path@ == path@,
            },
    {
        match file_name(path.as_str()) {
            Some(n) => {
                let c = chars_of(n.as_str());
                let mut k: usize = c.len();
                let mut hit = false;
                while k > 0
                    invariant_except_break
                        !hit,
                    invariant
                        c@ == n@,
                        k <= c.len(),
                        forall|j: int| k <= j < c.len() ==> c@[j] != '.',
                    ensures
                        hit ==> k > 0 && c@[k - 1] == '.',
                        !hit ==> k == 0,
                    decreases k,
                {
                    if c[k - 1] == '.' {
                        hit = true;
                        break;
                    }
                    k = k - 1;
                }
                proof {
                    crate::paths::lemma_last_index_unique(n@, '.', if hit { k - 1 } else { -1 });
                }
                let stem = if hit && k > 1 {
                    string_of_chars(crate::split::slice_chars(c.as_slice(), 0, k - 1).as_slice())
                } else {
                    n.clone()
                };
                let ext = crate::paths::name_ext(n.as_str());
                Ok(AssetFile { path, file_name: n, file_stem: stem, ext })
            },
            None => Err(NoFileName { path }),
        }
    }

    /// The name of the file as it is written to the dist dir: with hashing, the stem, a dash,
    /// the SeaHash of the (minified) contents in hexadecimal, a dot and the extension (empty
    /// when there is none); without, the file's own name.
    pub fn output_name(&self, with_hash: bool, contents: &[u8]) -> (res: String)
        ensures
            !with_hash ==> res@ == self.file_name@,
            with_hash ==> res@ == self.file_stem@ + "-"@ + lower_hex(seahash_of(contents@) as nat) + "."@
                + match self.ext {
                Some(e) => e@,
                None => Seq::<char>::empty(),
            },
    {
        if !with_hash {
            return self.file_name.clone();
        }
        let mut s = self.file_stem.clone();
        s.append("-");
        let h = u64_to_lower_hex(seahash_hash(contents));
        s.append(h.as_str());
        s.append(".");
        match &self.ext {
            Some(e) => s.append(e.as_str()),
            None => {},
        }
        s
    }
}

/// The name of a compiled style sheet: the stem with `.css`, or with hashing, the stem, a
/// dash, the SeaHash of the CSS in hexadecimal and `.css`.
pub open spec fn css_name(stem: Seq<char>, with_hash: bool, css: Seq<u8>) -> Seq<char> {
    if with_hash {
        stem + "-"@ + lower_hex(seahash_of(css) as nat) + ".css"@
    } else {
        stem + ".css"@
    }
}

/// The name of a compiled style sheet, as `css_name` gives it.
pub fn css_output_name(stem: &str, with_hash: bool, css: &[u8]) -> (res: String)
    ensures
        res@ == css_name(stem@, with_hash, css@),
        !with_hash ==> res@ == stem@ + ".css"@,
        with_hash ==> res@ == stem@ + "-"@ + lower_hex(seahash_of(css@) as nat) + ".css"@,
{
    let mut s = to_owned_string(stem);
    if with_hash {
        s.append("-");
        let h = u64_to_lower_hex(seahash_hash(css));
        s.append(h.as_str());
    }
    s.append(".css");
    s
}

/// The arguments of sass: the source map embedded except in release builds, the style
/// compressed when minifying, then the source and the target.
pub fn sass_args(release: bool, minify: bool, source: &str, target: &str) -> (res: Vec<String>)
    ensures
        strs(res@) == seq![
            if release { "--no-source-map"@ } else { "--embed-source-map"@ },
            "--style"@,
            if minify { "compressed"@ } else { "expanded"@ },
            source@,
            target@,
        ],
{
    let mut args: Vec<String> = Vec::new();
    args.push(to_owned_string(if release { "--no-source-map" } else { "--embed-source-map" }));
    args.push(to_owned_string("--style"));
    args.push(to_owned_string(if minify { "compressed" } else { "expanded" }));
    args.push(to_owned_string(source));
    args.push(to_owned_string(target));
    assert(strs(args@) =~= seq![
        if release { "--no-source-map"@ } else { "--embed-source-map"@ },
        "--style"@,
        if minify { "compressed"@ } else { "expanded"@ },
        source@,
        target@,
    ]);
    args
}

/// The arguments of tailwindcss: input and output, the configuration when one is given, and
/// `--minify` when minifying.
pub fn tailwind_args(input: &str, output: &str, config: &Option<String>, minify: bool) -> (res: Vec<String>)
    ensures
        strs(res@) == seq!["--input"@, input@, "--output"@, output@] + match config {
            Some(c) => seq!["--config"@, c@],
            None => Seq::<Seq<char>>::empty(),
        } + if minify { seq!["--minify"@] } else { Seq::<Seq<char>>::empty() },
{
    let mut args: Vec<String> = Vec::new();
    args.push(to_owned_string("--input"));
    args.push(to_owned_string(input));
    args.push(to_owned_string("--output"));
    args.push(to_owned_string(output));
    let ghost base = strs(args@);
    assert(base =~= seq!["--input"@, input@, "--output"@, output@]);
    match config {
        Some(c) => {
            args.push(to_owned_string("--config"));
            args.push(c.clone());
            assert(strs(args@) =~= base + seq!["--config"@, c@]);
        },
        None => {
            assert(strs(args@) =~= base + Seq::<Seq<char>>::empty());
        },
    }
    let ghost mid = strs(args@);
    if minify {
        args.push(to_owned_string("--minify"));
        assert(strs(args@) =~= mid + seq!["--minify"@]);
    } else {
        assert(strs(args@) =~= mid + Seq::<Seq<char>>::empty());
    }
    args
}


/// Each documented `rel` value starts its own pipeline: `css`, `sass` and `scss`,
/// `tailwind-css`, `tailwind-css-extra`, `icon`, `inline`, `copy-file`, `copy-dir` and `rust`.
/// No two of them start the same pipeline but `sass` and `scss`, and the name that the error
/// messages give of each of these pipelines leads back to it.
pub proof fn law_rel_names_and_pipelines(k: AssetKind, r1: Seq<char>, r2: Seq<char>)
    ensures
        kind_of_rel("css"@) == Some(AssetKind::Css),
        kind_of_rel("sass"@) == Some(AssetKind::Sass),
        kind_of_rel("scss"@) == Some(AssetKind::Sass),
        kind_of_rel("tailwind-css"@) == Some(AssetKind::TailwindCss),
        kind_of_rel("tailwind-css-extra"@) == Some(AssetKind::TailwindCssExtra),
        kind_of_rel("icon"@) == Some(AssetKind::Icon),
        kind_of_rel("inline"@) == Some(AssetKind::Inline),
        kind_of_rel("copy-file"@) == Some(AssetKind::CopyFile),
        kind_of_rel("copy-dir"@) == Some(AssetKind::CopyDir),
        kind_of_rel("rust"@) == Some(AssetKind::RustApp),
        k != AssetKind::Js && k != AssetKind::Sass && k != AssetKind::RustApp ==> kind_of_rel(rel_name(k)) == Some(k),
        kind_of_rel(r1) == Some(k) && kind_of_rel(r2) == Some(k) && k != AssetKind::Sass ==> r1 == r2,
{
    reveal_strlit("css");
    reveal_strlit("sass");
    reveal_strlit("scss");
    reveal_strlit("tailwind-css");
    reveal_strlit("tailwind-css-extra");
    reveal_strlit("icon");
    reveal_strlit("inline");
    reveal_strlit("copy-file");
    reveal_strlit("copy-dir");
    reveal_strlit("rust");
    assert("css"@.len() == 3 && "sass"@.len() == 4 && "scss"@.len() == 4 && "icon"@.len() == 4);
    assert("rust"@.len() == 4 && "inline"@.len() == 6 && "copy-dir"@.len() == 8 && "copy-file"@.len() == 9);
    assert("tailwind-css"@.len() == 12 && "tailwind-css-extra"@.len() == 18);
    assert("sass"@[0] == 's' && "sass"@[1] == 'a' && "scss"@[1] == 'c' && "icon"@[0] == 'i' && "rust"@[0] == 'r');
}

} // verus!
