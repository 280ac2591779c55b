//! JavaScript minification through swc, one step at a time: parse, resolve, optimize, print.
//! A program between the steps is held in `SwcProgram`, which only these steps make.
use swc_common::{sync::Lrc, FileName, Globals, Mark, SourceMap, GLOBALS};
use swc_ecma_ast::{EsVersion, Program};
use swc_ecma_codegen::{text_writer::JsWriter, Emitter};
use swc_ecma_minifier::option::{CompressOptions, ExtraOptions, MangleOptions, MinifyOptions};
use swc_ecma_parser::{parse_file_as_program, Syntax};
use swc_ecma_transforms_base::{fixer::fixer, resolver};
use swc_ecma_visit::VisitMutWith;
use vstd::prelude::*;

verus! {

#[verifier::external_type_specification]
#[verifier::external_body]
pub struct ExSourceMap(SourceMap);

#[verifier::external_type_specification]
#[verifier::external_body]
pub struct ExProgram(Program);

#[verifier::external_type_specification]
#[verifier::external_body]
pub struct ExGlobals(Globals);

#[verifier::external_type_specification]
#[verifier::external_body]
pub struct ExMark(Mark);

/// What swc makes of a script given by its UTF-8 bytes, as a module or a global script:
/// `parse_file_as_program` (ECMAScript without JSX, the latest version), `resolver` with two new
/// marks, `swc_ecma_minifier::optimize` with the default compress and mangle options, `fixer`,
/// and the program printed by `Emitter` with `minify` set. Nothing when the parser fails or
/// reports a recoverable error, or when printing fails.
pub uninterp spec fn swc_minified(source: Seq<u8>, module: bool) -> Option<Seq<u8>>;

/// A program on its way through the steps of `swc_minified`: its source map, its globals and
/// two marks made in them, the source it was parsed from, whether it is a module, and the
/// number of steps done (1 parsed, 2 resolved, 3 optimized). Its fields are private: only the
/// steps below make one.
pub struct SwcProgram {
    cm: Lrc<SourceMap>,
    globals: Globals,
    unresolved: Mark,
    top_level: Mark,
    program: Program,
    source: Vec<u8>,
    module: bool,
    step: u8,
}

impl SwcProgram {
    /// The bytes the program was parsed from.
    pub closed spec fn source(&self) -> Seq<u8> {
        self.source@
    }

    /// Whether the program is a module.
    pub closed spec fn module(&self) -> bool {
        self.module
    }

    /// How many steps are done.
    pub closed spec fn step(&self) -> u8 {
        self.step
    }
}

/// The first step: the text parsed into a new source map, and new globals with the two marks.
/// Nothing when the parser fails or reports a recoverable error; then `swc_minified` is nothing.
#[verifier::external_body]
pub(crate) fn swc_parse(source: &str, module: bool) -> (res: Option<SwcProgram>)
    ensures
        res is None ==> swc_minified(vstd::utf8::encode_utf8(source@), module) is None,
        res matches Some(p) ==> p.source() == vstd::utf8::encode_utf8(source@) && p.module() == module
            && p.step() == 1,
{
    let cm: Lrc<SourceMap> = Default::default();
    let fm = cm.new_source_file(Lrc::new(FileName::Anon), source.to_string());
    let mut errors = vec![];
    let program = parse_file_as_program(&fm, Syntax::Es(Default::default()), EsVersion::latest(), None, &mut errors).ok()?;
    if !errors.is_empty() {
        return None;
    }
    let globals = Globals::new();
    let (unresolved, top_level) = GLOBALS.set(&globals, || (Mark::new(), Mark::new()));
    let source = source.as_bytes().to_vec();
    Some(SwcProgram { cm, globals, unresolved, top_level, program, source, module, step: 1 })
}

/// The second step: `resolver` with the two marks, within the program's globals.
#[verifier::external_body]
pub(crate) fn swc_resolve(p: SwcProgram) -> (res: SwcProgram)
    requires
        p.step() == 1,
    ensures
        res.source() == p.source() && res.module() == p.module() && res.step() == 2,
{
    let mut p = p;
    let (unresolved, top_level, module) = (p.unresolved, p.top_level, p.module);
    GLOBALS.set(&p.globals, || p.program.visit_mut_with(&mut resolver(unresolved, top_level, module)));
    SwcProgram { step: 2, ..p }
}

/// The third step: `optimize` with the default compress and mangle options, then `fixer`,
/// within the program's globals.
#[verifier::external_body]
pub(crate) fn swc_optimize(p: SwcProgram) -> (res: SwcProgram)
    requires
        p.step() == 2,
    ensures
        res.source() == p.source() && res.module() == p.module() && res.step() == 3,
{
    let options = MinifyOptions { compress: Some(CompressOptions::default()), mangle: Some(MangleOptions::default()), ..Default::default() };
    let extra = ExtraOptions { unresolved_mark: p.unresolved, top_level_mark: p.top_level, mangle_name_cache: None };
    let (cm, globals, program) = (p.cm.clone(), &p.globals, p.program);
    let mut program = GLOBALS.set(globals, || swc_ecma_minifier::optimize(program, cm, None, None, &options, &extra));
    GLOBALS.set(globals, || program.visit_mut_with(&mut fixer(None)));
    SwcProgram { program, step: 3, ..p }
}

/// The last step: the program printed by `Emitter` with `minify` set, within its globals; this
/// is what `swc_minified` gives of its source. Nothing when printing fails.
#[verifier::external_body]
pub(crate) fn swc_emit(p: &SwcProgram) -> (res: Option<Vec<u8>>)
    requires
        p.step() == 3,
    ensures
        res matches Some(o) ==> swc_minified(p.source(), p.module()) == Some(o@),
        res is None ==> swc_minified(p.source(), p.module()) is None,
{
    let mut buf = vec![];
    let wr = JsWriter::new(p.cm.clone(), "\n", &mut buf, None);
    let cfg = swc_ecma_codegen::Config::default().with_minify(true);
    let mut emitter = Emitter { cfg, cm: p.cm.clone(), comments: None, wr };
    let printed = GLOBALS.set(&p.globals, || emitter.emit_program(&p.program));
    drop(emitter);
    printed.ok().map(|_| buf)
}

} // verus!
