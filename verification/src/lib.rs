//! Verified core of a WASM web application bundler: asset link handling, subresource
//! integrity, build argument planning, caching decisions and dev-server helpers.
pub mod text;
pub mod order;
pub mod attrs;
pub mod integrity;
pub mod sri;
pub mod paths;
pub mod compress;
pub mod dist_compression;
pub mod rust_app;
pub mod cargo_build;
pub mod dom;
pub mod outputs;
pub mod sass;
pub mod tailwind_css;
pub mod rust_output;
pub mod bindgen;
pub mod rust_worker;
pub mod split;
pub mod tools;
pub mod proxy;
pub mod ws;
pub mod watch;
pub mod permissions;
pub mod serve;
pub mod version;
pub mod bindgen_cache;
pub mod minify;
pub mod swc;
pub mod assets;
pub mod html;
pub mod pipeline_output;
pub mod plugin_args;
pub mod listen;
