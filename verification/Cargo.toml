[package]
name = "trunk"
version = "0.1.0"
edition = "2021"
publish = false

[dependencies]
sha2 = "=0.10.9"
base64 = "=0.22.1"
seahash = "=4.1.0"
hex = "=0.4.3"
htmlescape = "=0.3.1"
http = "=1.5.0"
flate2 = "=1.1.10"
semver = "=1.0.28"
serde = { version = "=1.0.229", features = ["derive"] }
serde_json = "=1.0.154"
minify-html = "=0.16.5"
minify-js = "=0.6.0"
lightningcss = "=1.0.0-alpha.72"
oxipng = { version = "=10.2.1", default-features = false }
nipper = "=0.1.9"
url = "=2.5.8"
swc_common = "=27.0.0"
swc_ecma_ast = "=30.0.0"
swc_ecma_codegen = "=33.0.0"
swc_ecma_minifier = "=64.0.0"
swc_ecma_parser = "=47.0.0"
swc_ecma_transforms_base = "=51.0.0"
swc_ecma_visit = "=30.0.0"
brotli = "*"
globset = "=0.4.21"
