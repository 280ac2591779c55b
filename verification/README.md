# trunk

A bundler for Rust web applications: it reads an `index.html` whose `<link data-trunk .../>` and
`<script data-trunk>` elements name the assets of the application (style sheets, SASS and
Tailwind sources, scripts, icons, files and directories to copy, and the Rust application
itself), builds each of them, and writes the finished document and its assets into a dist
directory.

## Layout

- `src/` is the library, verified with Verus. Each module states its behaviour in `requires` /
  `ensures` contracts over mathematical models, and the properties that span several
  functions stand as public proof functions named `law_*`:
  - `attrs`, `order`, `text`, `split`, `paths`: element attributes and their rendering, string
    and path helpers;
  - `assets`, `html`, `dom`, `outputs`, `sass`, `tailwind_css`, `pipeline_output`: which
    pipeline an element starts, and the document edits that finalize each pipeline;
  - `rust_app`, `cargo_build`, `bindgen`, `rust_output`, `rust_worker`: the Rust application
    pipeline, from its attributes to the script that starts it;
  - `integrity`, `sri`: subresource integrity and preload links;
  - `compress`, `dist_compression`, `minify`: compression and minification;
  - `bindgen_cache`: the cache of wasm-bindgen's outputs;
  - `watch`, `ws`, `serve`, `listen`, `proxy`: the decisions of the watch system and of the
    development server;
  - `tools`, `version`, `permissions`, `plugin_args`: external tools, update checks and
    plugins.
- `tests/` exercises the library on concrete values.
- `app/` is the command line front end (`trunk build`, `trunk clean`): it reads and writes
  files, runs cargo and the external tools, and edits the document, calling the library for
  every decision.
