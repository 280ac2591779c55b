//! The output of a Rust application pipeline: the script that starts the application, the
//! preload links of its sub-resources, and the templates that may replace them.
use crate::dom::{action_view, actions_view, link_selector, trunk_id_selector, DomAction};
use crate::rust_app::RustAppType;
use crate::sri::{
    cross_origin_name, nonce_attr, nonce_attr_spec, opt_view, preload_links, CrossOrigin, SriBuilder,
};
use crate::text::{decimal, has_prefix, replace_all, replace_all_spec, str_eq, to_owned_string, u64_to_decimal};
use vstd::prelude::*;

verus! {

/// The value of a template parameter once it is known: `None` when the parameter names a file
/// (`@path`) that could not be read, in which case its placeholder is left alone.
pub type ResolvedParam = (String, Option<String>);

/// The path of a parameter value that names a file (`@path`).
pub fn param_file_path(value: &str) -> (res: Option<String>)
    ensures
        has_prefix(value@, "@"@) ==> (res matches Some(p) && p@ == value@.subrange(1, value@.len() as int)),
        !has_prefix(value@, "@"@) ==> res is None,
{
    let v = crate::text::chars_of(value);
    proof {
        reveal_strlit("@");
    }
    if v.len() > 0 && v[0] == '@' {
        assert(value@.subrange(0, 1) =~= "@"@);
        Some(crate::text::substring_from(value, 1))
    } else {
        assert(v.len() > 0 ==> value@.subrange(0, 1) != "@"@ || v[0] == '@') by {
            if v.len() > 0 {
                assert(value@.subrange(0, 1)[0] == v@[0]);
            }
        }
        None
    }
}

/// `{name}`.
pub open spec fn placeholder(name: Seq<char>) -> Seq<char> {
    seq!['{'] + name + seq!['}']
}

/// The template with the parameters substituted in turn.
pub open spec fn evaluate_spec(template: Seq<char>, params: Seq<(Seq<char>, Option<Seq<char>>)>) -> Seq<char>
    decreases params.len(),
{
    if params.len() == 0 {
        template
    } else {
        let prev = evaluate_spec(template, params.drop_last());
        match params.last().1 {
            Some(v) => replace_all_spec(prev, placeholder(params.last().0), v),
            None => prev,
        }
    }
}

/// The views of resolved parameters.
pub open spec fn params_view(p: Seq<ResolvedParam>) -> Seq<(Seq<char>, Option<Seq<char>>)> {
    p.map_values(|e: ResolvedParam| (e.0@, opt_view(e.1)))
}

/// Substitute each parameter's value for its `{name}` placeholders, in turn.
pub fn pattern_evaluate(template: &str, params: &Vec<ResolvedParam>) -> (res: String)
    ensures
        res@ == evaluate_spec(template@, params_view(params@)),
{
    let mut result = to_owned_string(template);
    let mut i: usize = 0;
    while i < params.len()
        invariant
            i <= params.len(),
            result@ == evaluate_spec(template@, params_view(params@).subrange(0, i as int)),
        decreases params.len() - i,
    {
        let ghost pv = params_view(params@);
        assert(pv.subrange(0, i + 1).drop_last() =~= pv.subrange(0, i as int));
        let (k, v) = &params[i];
        let mut pattern = to_owned_string("{");
        pattern.append(k.as_str());
        pattern.append("}");
        proof {
            reveal_strlit("{");
            reveal_strlit("}");
        }
        assert(pattern@ =~= placeholder(k@));
        match v {
            Some(value) => {
                result = replace_all(result.as_str(), pattern.as_str(), value.as_str());
            },
            None => {},
        }
        i = i + 1;
    }
    assert(params_view(params@).subrange(0, params@.len() as int) =~= params_view(params@));
    result
}

/// Bind `name` to `value` among template parameters: replace its first binding, or append one.
pub fn set_param(params: &mut Vec<ResolvedParam>, name: &str, value: String)
    ensures
        params_view(final(params)@) == bind_param(params_view(old(params)@), name@, value@),
{
    let ghost before = params@;
    let ghost pv = params_view(before);
    let ghost vv = value@;
    let mut i: usize = 0;
    let mut found = false;
    while i < params.len()
        invariant_except_break
            !found,
        invariant
            params@ == before,
            pv == params_view(before),
            i <= params.len(),
            forall|j: int| 0 <= j < i ==> (#[trigger] pv[j]).0 != name@,
        ensures
            found ==> i < params.len() && pv[i as int].0 == name@,
            !found ==> i == params.len(),
        decreases params.len() - i,
    {
        if str_eq(params[i].0.as_str(), name) {
            found = true;
            break;
        }
        i = i + 1;
    }
    if found {
        params.set(i, (to_owned_string(name), Some(value)));
        proof {
            let c = choose|c: int| 0 <= c < pv.len() && (#[trigger] pv[c]).0 == name@ && forall|j: int| 0 <= j < c ==> (#[trigger] pv[j]).0 != name@;
            if c < i {
                assert(pv[c].0 != name@);
            } else if c > i {
                assert(pv[i as int].0 != name@);
            }
            assert(params_view(params@) =~= pv.update(i as int, (name@, Some(vv))));
        }
    } else {
        params.push((to_owned_string(name), Some(value)));
        assert(params_view(params@) =~= pv.push((name@, Some(vv))));
    }
}

/// A copy of template parameters.
pub fn copy_params(p: &Vec<ResolvedParam>) -> (res: Vec<ResolvedParam>)
    ensures
        params_view(res@) == params_view(p@),
{
    let mut out: Vec<ResolvedParam> = Vec::new();
    let mut i: usize = 0;
    while i < p.len()
        invariant
            i <= p.len(),
            params_view(out@) == params_view(p@).subrange(0, i as int),
        decreases p.len() - i,
    {
        let v = match &p[i].1 {
            Some(x) => Some(x.clone()),
            None => None,
        };
        let ghost before = out@;
        let k = p[i].0.clone();
        assert(opt_view(v) == opt_view(p@[i as int].1));
        assert(k@ == p@[i as int].0@);
        out.push((k, v));
        assert(params_view(out@) =~= params_view(before).push((p@[i as int].0@, opt_view(p@[i as int].1))));
        assert(params_view(out@) =~= params_view(p@).subrange(0, i + 1));
        i = i + 1;
    }
    assert(params_view(p@).subrange(0, p@.len() as int) =~= params_view(p@));
    out
}

/// The features of the wasm-bindgen in use that the initializer depends on.
#[derive(Debug, Clone, Copy, PartialEq, Eq)]
pub struct WasmBindgenFeatures {
    /// Whether `init` takes an object (`{ module_or_path }`) rather than the path.
    pub init_with_object: bool,
}

/// The settings of the build that finalizing a Rust application reads.
#[derive(Debug, Clone)]
pub struct RustOutputConfig {
    /// The public URL that output files are served under.
    pub public_url: String,
    /// Whether scripts are injected into the document at all.
    pub inject_scripts: bool,
    /// A template that replaces the initializer script.
    pub pattern_script: Option<String>,
    /// A template that replaces the preload links.
    pub pattern_preload: Option<String>,
    /// The parameters of the templates, with their values resolved.
    pub pattern_params: Vec<ResolvedParam>,
    /// The nonce placeholder, when one is configured.
    pub create_nonce: Option<String>,
    /// The script that defines `__trunkInitializer`, used with a custom initializer.
    pub initializer_js: String,
}

/// The output of a Rust application pipeline.
#[derive(Debug)]
pub struct RustAppOutput {
    pub cfg: RustOutputConfig,
    /// The ID of this pipeline, absent for the default application.
    pub id: Option<usize>,
    /// The name of the JS loader written to the dist dir.
    pub js_output: String,
    /// The name of the WASM file written to the dist dir.
    pub wasm_output: String,
    /// The size of the WASM file.
    pub wasm_size: u64,
    /// Whether the application is the main one or a worker.
    pub app_type: RustAppType,
    /// The cross-origin setting for loading the resources.
    pub cross_origin: CrossOrigin,
    /// The digests of the sub-resources.
    pub integrities: SriBuilder,
    /// Whether the functions that Rust exports are imported.
    pub import_bindings: bool,
    /// The name of the global variable that holds the imported bindings.
    pub import_bindings_name: Option<String>,
    /// The module of a custom initializer.
    pub initializer: Option<String>,
    pub wasm_bindgen_features: WasmBindgenFeatures,
}

/// The `import` clause and the statement that exposes the bindings.
pub open spec fn bindings_parts(import_bindings: bool, name: Option<Seq<char>>) -> (Seq<char>, Seq<char>) {
    if import_bindings {
        (", * as bindings"@, "\nwindow."@ + match name {
            Some(n) => n,
            None => "wasmBindings"@,
        } + " = bindings;\n"@)
    } else {
        (Seq::empty(), Seq::empty())
    }
}

/// The statement that fires the `TrunkApplicationStarted` event.
pub open spec fn fire_event() -> Seq<char> {
    "\ndispatchEvent(new CustomEvent(\"TrunkApplicationStarted\", {detail: {wasm}}));\n"@
}

/// `true` or `false`.
pub open spec fn bool_text(b: bool) -> Seq<char> {
    if b {
        "true"@
    } else {
        "false"@
    }
}

/// The default script that loads and starts the application.
pub open spec fn initializer_script(
    base: Seq<char>,
    js: Seq<char>,
    wasm: Seq<char>,
    nonce: Seq<char>,
    import_bindings: bool,
    bindings_name: Option<Seq<char>>,
    initializer: Option<Seq<char>>,
    init_js: Seq<char>,
    size: u64,
    init_with_object: bool,
) -> Seq<char> {
    let (import, bind) = bindings_parts(import_bindings, bindings_name);
    match initializer {
        None => {
            let init_arg = if init_with_object {
                "{ module_or_path: '"@ + base + wasm + "' }"@
            } else {
                "'"@ + base + wasm + "'"@
            };
            "\n<script type=\"module\""@ + nonce + ">\nimport init"@ + import + " from '"@ + base + js
                + "';\nconst wasm = await init("@ + init_arg + ");\n\n"@ + bind + "\n"@ + fire_event()
                + "\n</script>"@
        },
        Some(i) => "\n<script type=\"module\""@ + nonce + ">\n"@ + init_js + "\n\nimport init"@ + import
            + " from '"@ + base + js + "';\nimport initializer from '"@ + base + i
            + "';\n\nconst wasm = await __trunkInitializer(init, '"@ + base + wasm + "', "@ + decimal(
            size as nat,
        ) + ", initializer(), "@ + bool_text(init_with_object) + ");\n\n"@ + bind + "\n"@ + fire_event()
            + "\n</script>"@,
    }
}

/// The template parameters of an application: the configured ones, with `base`, `js`, `wasm`
/// and `crossorigin` bound in this order.
pub open spec fn app_params(
    user: Seq<(Seq<char>, Option<Seq<char>>)>,
    base: Seq<char>,
    js: Seq<char>,
    wasm: Seq<char>,
    cross_origin: CrossOrigin,
) -> Seq<(Seq<char>, Option<Seq<char>>)> {
    bind_param(bind_param(bind_param(bind_param(user, "base"@, base), "js"@, js), "wasm"@, wasm), "crossorigin"@, cross_origin_name(cross_origin))
}

/// Bind `name` to `value`: replace the first binding of `name`, or append one.
pub open spec fn bind_param(p: Seq<(Seq<char>, Option<Seq<char>>)>, name: Seq<char>, value: Seq<char>) -> Seq<(Seq<char>, Option<Seq<char>>)> {
    if exists|i: int| 0 <= i < p.len() && (#[trigger] p[i]).0 == name {
        let i = choose|i: int| 0 <= i < p.len() && (#[trigger] p[i]).0 == name && forall|j: int| 0 <= j < i ==> (#[trigger] p[j]).0 != name;
        p.update(i, (name, Some(value)))
    } else {
        p.push((name, Some(value)))
    }
}

/// A document without a Rust application link and without a `<body>`.
#[derive(Debug, Clone, Copy)]
pub struct NoBody;

impl NoBody {
    /// The error message.
    pub fn to_string(&self) -> (res: String)
        ensures
            res@ == "Document has neither a <link data-trunk rel=\"rust\"/> nor a <body>. Either one must be present."@,
    {
        to_owned_string("Document has neither a <link data-trunk rel=\"rust\"/> nor a <body>. Either one must be present.")
    }
}

/// Appending each piece of HTML to the elements that `selector` selects.
pub open spec fn appends(selector: Seq<char>, htmls: Seq<Seq<char>>) -> Seq<(int, Seq<char>, Seq<char>)> {
    htmls.map_values(|h: Seq<char>| (2int, selector, h))
}

impl RustAppOutput {
    /// The template parameters of this application.
    pub open spec fn params(&self) -> Seq<(Seq<char>, Option<Seq<char>>)> {
        app_params(
            params_view(self.cfg.pattern_params@),
            self.cfg.public_url@,
            self.js_output@,
            self.wasm_output@,
            self.cross_origin,
        )
    }

    /// The nonce attribute of the configured placeholder.
    pub open spec fn nonce(&self) -> Seq<char> {
        nonce_attr_spec(opt_view(self.cfg.create_nonce))
    }

    /// The script that starts the application, when no template replaces it.
    pub open spec fn default_script(&self) -> Seq<char> {
        initializer_script(
            self.cfg.public_url@,
            self.js_output@,
            self.wasm_output@,
            self.nonce(),
            self.import_bindings,
            opt_view(self.import_bindings_name),
            opt_view(self.initializer),
            self.cfg.initializer_js@,
            self.wasm_size,
            self.wasm_bindgen_features.init_with_object,
        )
    }

    /// The script that starts the application.
    pub open spec fn script(&self) -> Seq<char> {
        match self.cfg.pattern_script {
            Some(p) => evaluate_spec(p@, self.params()),
            None => self.default_script(),
        }
    }

    /// The pieces of HTML appended to the document head: the preload template, or the preload
    /// link of each sub-resource.
    pub open spec fn preloads(&self) -> Seq<Seq<char>> {
        match self.cfg.pattern_preload {
            Some(p) => seq![evaluate_spec(p@, self.params())],
            None => preload_links(self.integrities.records(), self.cfg.public_url@, self.cross_origin, opt_view(self.cfg.create_nonce)),
        }
    }

    /// The default script that loads and starts the application from `base`, `js` and `wasm`.
    pub fn default_initializer(&self, base: &str, js: &str, wasm: &str) -> (res: String)
        ensures
            res@ == initializer_script(
                base@,
                js@,
                wasm@,
                self.nonce(),
                self.import_bindings,
                opt_view(self.import_bindings_name),
                opt_view(self.initializer),
                self.cfg.initializer_js@,
                self.wasm_size,
                self.wasm_bindgen_features.init_with_object,
            ),
    {
        let mut import = String::new();
        let mut bind = String::new();
        if self.import_bindings {
            import.append(", * as bindings");
            bind.append("\nwindow.");
            match &self.import_bindings_name {
                Some(n) => bind.append(n.as_str()),
                None => bind.append("wasmBindings"),
            }
            bind.append(" = bindings;\n");
        }
        let nonce = nonce_attr(&self.cfg.create_nonce);
        let fire = "\ndispatchEvent(new CustomEvent(\"TrunkApplicationStarted\", {detail: {wasm}}));\n";
        let mut out = to_owned_string("\n<script type=\"module\"");
        out.append(nonce.as_str());
        match &self.initializer {
            None => {
                out.append(">\nimport init");
                out.append(import.as_str());
                out.append(" from '");
                out.append(base);
                out.append(js);
                out.append("';\nconst wasm = await init(");
                if self.wasm_bindgen_features.init_with_object {
                    out.append("{ module_or_path: '");
                    out.append(base);
                    out.append(wasm);
                    out.append("' }");
                } else {
                    out.append("'");
                    out.append(base);
                    out.append(wasm);
                    out.append("'");
                }
                out.append(");\n\n");
            },
            Some(i) => {
                out.append(">\n");
                out.append(self.cfg.initializer_js.as_str());
                out.append("\n\nimport init");
                out.append(import.as_str());
                out.append(" from '");
                out.append(base);
                out.append(js);
                out.append("';\nimport initializer from '");
                out.append(base);
                out.append(i.as_str());
                out.append("';\n\nconst wasm = await __trunkInitializer(init, '");
                out.append(base);
                out.append(wasm);
                out.append("', ");
                let size = u64_to_decimal(self.wasm_size);
                out.append(size.as_str());
                out.append(", initializer(), ");
                if self.wasm_bindgen_features.init_with_object {
                    out.append("true");
                } else {
                    out.append("false");
                }
                out.append(");\n\n");
            },
        }
        out.append(bind.as_str());
        out.append("\n");
        out.append(fire);
        out.append("\n</script>");
        proof {
            reveal_strlit(", * as bindings");
            reveal_strlit("\nwindow.");
            reveal_strlit("wasmBindings");
            reveal_strlit(" = bindings;\n");
        }
        out
    }

    /// The document edits that finalize the application, as views (`None` when the document
    /// is refused).
    pub open spec fn finalize_spec(&self, body_elements: usize) -> Option<Seq<(int, Seq<char>, Seq<char>)>> {
        if self.app_type == RustAppType::Worker {
            Some(match self.id {
                Some(i) => seq![(0int, link_selector(i as nat), Seq::<char>::empty())],
                None => Seq::empty(),
            })
        } else if !self.cfg.inject_scripts {
            Some(Seq::empty())
        } else {
            match self.id {
                Some(i) => Some(appends("html head"@, self.preloads()).push((1int, link_selector(i as nat), self.script()))),
                None => if body_elements == 0 {
                    None
                } else {
                    Some(appends("html head"@, self.preloads()).push((2int, "html body"@, self.script())))
                },
            }
        }
    }

    /// The document edits that finalize the application. A worker only has its link removed;
    /// nothing is injected when scripts are not injected; otherwise the preloads are appended to
    /// the head and the start script replaces the application's link, or is appended to the body
    /// when there is no link (`body_elements` counts the `<body>` elements; with none, the
    /// document is refused).
    pub fn finalize(&self, body_elements: usize) -> (res: Result<Vec<DomAction>, NoBody>)
        ensures
            self.finalize_spec(body_elements) is None ==> res is Err,
            self.finalize_spec(body_elements) matches Some(s) ==> (res matches Ok(a) && actions_view(a@) == s),
            self.app_type == RustAppType::Worker ==> (res matches Ok(a) && actions_view(a@) == match self.id {
                Some(i) => seq![(0int, link_selector(i as nat), Seq::<char>::empty())],
                None => Seq::empty(),
            }),
            self.app_type != RustAppType::Worker && !self.cfg.inject_scripts ==> (res matches Ok(a) && a@.len() == 0),
            self.app_type != RustAppType::Worker && self.cfg.inject_scripts ==> match self.id {
                Some(i) => res matches Ok(a) && actions_view(a@) == appends("html head"@, self.preloads()).push(
                    (1int, link_selector(i as nat), self.script()),
                ),
                None => if body_elements == 0 {
                    res is Err
                } else {
                    res matches Ok(a) && actions_view(a@) == appends("html head"@, self.preloads()).push(
                        (2int, "html body"@, self.script()),
                    )
                },
            },
    {
        let mut actions: Vec<DomAction> = Vec::new();
        if self.app_type == RustAppType::Worker {
            if let Some(id) = self.id {
                actions.push(DomAction::Remove { selector: trunk_id_selector(id) });
                assert(actions_view(actions@) =~= seq![(0int, link_selector(id as nat), Seq::<char>::empty())]);
            } else {
                assert(actions_view(actions@) =~= Seq::empty());
            }
            return Ok(actions);
        }
        if !self.cfg.inject_scripts {
            return Ok(actions);
        }
        let mut params = copy_params(&self.cfg.pattern_params);
        set_param(&mut params, "base", self.cfg.public_url.clone());
        set_param(&mut params, "js", self.js_output.clone());
        set_param(&mut params, "wasm", self.wasm_output.clone());
        set_param(&mut params, "crossorigin", to_owned_string(self.cross_origin.as_str()));
        assert(params_view(params@) == self.params());
        let mut head: Vec<String> = Vec::new();
        match &self.cfg.pattern_preload {
            Some(p) => {
                head.push(pattern_evaluate(p.as_str(), &params));
            },
            None => {
                self.integrities.result().inject(&mut head, self.cfg.public_url.as_str(), self.cross_origin, &self.cfg.create_nonce);
            },
        }
        let script = match &self.cfg.pattern_script {
            Some(p) => pattern_evaluate(p.as_str(), &params),
            None => self.default_initializer(self.cfg.public_url.as_str(), self.js_output.as_str(), self.wasm_output.as_str()),
        };
        if self.id.is_none() && body_elements == 0 {
            return Err(NoBody);
        }
        let mut k: usize = 0;
        while k < head.len()
            invariant
                k <= head.len(),
                actions_view(actions@) == appends("html head"@, head@.map_values(|h: String| h@).subrange(0, k as int)),
            decreases head.len() - k,
        {
            let ghost before = actions@;
            let sel = to_owned_string("html head");
            let h = head[k].clone();
            assert(h@ == head@[k as int]@);
            actions.push(DomAction::AppendHtml { selector: sel, html: h });
            assert(actions_view(actions@) =~= actions_view(before).push((2int, "html head"@, head@[k as int]@)));
            assert(actions_view(actions@) =~= appends("html head"@, head@.map_values(|h: String| h@).subrange(0, k + 1)));
            k = k + 1;
        }
        assert(head@.map_values(|h: String| h@).subrange(0, head@.len() as int) =~= head@.map_values(|h: String| h@));
        let ghost before = actions@;
        match self.id {
            Some(id) => {
                actions.push(DomAction::ReplaceWithHtml { selector: trunk_id_selector(id), html: script });
            },
            None => {
                actions.push(DomAction::AppendHtml { selector: to_owned_string("html body"), html: script });
            },
        }
        assert(actions_view(actions@) =~= actions_view(before).push(action_view(actions@.last())));
        Ok(actions)
    }
}


/// Without a custom initializer, the start script imports `init` from the JS loader and hands
/// `init` the WASM file, `base` + `wasm`: as a plain string, or as `module_or_path` of an object
/// when wasm-bindgen takes one. Everything around the argument is the same in both forms. With a
/// custom initializer, the WASM file is the second argument of `__trunkInitializer`.
#[verifier::rlimit(60)]
pub proof fn law_init_argument_is_the_wasm_file(
    base: Seq<char>,
    js: Seq<char>,
    wasm: Seq<char>,
    nonce: Seq<char>,
    import_bindings: bool,
    bindings_name: Option<Seq<char>>,
    init_js: Seq<char>,
    size: u64,
    custom: Seq<char>,
    init_with_object: bool,
)
    ensures
        ({
            let (import, bind) = bindings_parts(import_bindings, bindings_name);
            let head = "\n<script type=\"module\""@ + nonce + ">\nimport init"@ + import + " from '"@ + base + js
                + "';\nconst wasm = await init("@;
            let tail = ");\n\n"@ + bind + "\n"@ + fire_event() + "\n</script>"@;
            &&& initializer_script(base, js, wasm, nonce, import_bindings, bindings_name, None, init_js, size, false)
                == head + "'"@ + base + wasm + "'"@ + tail
            &&& initializer_script(base, js, wasm, nonce, import_bindings, bindings_name, None, init_js, size, true)
                == head + "{ module_or_path: '"@ + base + wasm + "' }"@ + tail
        }),
        ({
            let (import, bind) = bindings_parts(import_bindings, bindings_name);
            let head = "\n<script type=\"module\""@ + nonce + ">\n"@ + init_js + "\n\nimport init"@ + import
                + " from '"@ + base + js + "';\nimport initializer from '"@ + base + custom
                + "';\n\nconst wasm = await __trunkInitializer(init, '"@;
            exists|rest: Seq<char>|
                initializer_script(base, js, wasm, nonce, import_bindings, bindings_name, Some(custom), init_js, size, init_with_object)
                    == head + base + wasm + "', "@ + rest
        }),
{
    let (import, bind) = bindings_parts(import_bindings, bindings_name);
    let head = "\n<script type=\"module\""@ + nonce + ">\nimport init"@ + import + " from '"@ + base + js
        + "';\nconst wasm = await init("@;
    let tail = ");\n\n"@ + bind + "\n"@ + fire_event() + "\n</script>"@;
    assert(initializer_script(base, js, wasm, nonce, import_bindings, bindings_name, None, init_js, size, false)
        =~= head + "'"@ + base + wasm + "'"@ + tail);
    assert(initializer_script(base, js, wasm, nonce, import_bindings, bindings_name, None, init_js, size, true)
        =~= head + "{ module_or_path: '"@ + base + wasm + "' }"@ + tail);
    let head2 = "\n<script type=\"module\""@ + nonce + ">\n"@ + init_js + "\n\nimport init"@ + import
        + " from '"@ + base + js + "';\nimport initializer from '"@ + base + custom
        + "';\n\nconst wasm = await __trunkInitializer(init, '"@;
    let rest = decimal(size as nat) + ", initializer(), "@ + bool_text(init_with_object) + ");\n\n"@ + bind + "\n"@
        + fire_event() + "\n</script>"@;
    assert(initializer_script(base, js, wasm, nonce, import_bindings, bindings_name, Some(custom), init_js, size, init_with_object)
        =~= head2 + base + wasm + "', "@ + rest);
}

} // verus!
