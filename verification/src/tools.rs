//! The external tools that the pipelines run: their names, archive layouts, default versions
//! and download URLs, how their version output reads, and whether a system installation is
//! used or a release is downloaded.
use crate::split::{first_line, first_nonempty_line, first_word, first_word_of, nth_piece, split_nth, trim, trim_spec};
use crate::text::{str_eq, to_owned_string};
use vstd::prelude::*;

verus! {

/// An application that is located, and downloaded when missing.
#[derive(Clone, Copy, Debug, PartialEq, Eq, Hash, Structural)]
pub enum Application {
    /// sass for generating css
    Sass,
    /// tailwindcss for generating css
    TailwindCss,
    /// tailwindcss-extra for generating css with DaisyUI bundled
    TailwindCssExtra,
    /// wasm-bindgen for generating the JS bindings
    WasmBindgen,
    /// wasm-opt to improve performance and size of the output file further
    WasmOpt,
}

/// The operating system trunk runs on.
#[derive(Clone, Copy, Debug, PartialEq, Eq, Structural)]
pub enum TargetOs {
    Windows,
    Macos,
    Linux,
    Other,
}

/// The processor architecture trunk runs on.
#[derive(Clone, Copy, Debug, PartialEq, Eq, Structural)]
pub enum TargetArch {
    X86_64,
    Aarch64,
    Other,
}

/// How trunk sets up its HTTP client.
#[derive(Debug, Clone, Default)]
pub struct HttpClientOptions {
    /// A root certificate that validates the certificate chain.
    pub root_certificate: Option<String>,
    /// Whether certificates that cannot be verified are accepted.
    pub accept_invalid_certificates: bool,
}

/// A located tool.
#[derive(Clone, Debug, PartialEq, Eq)]
pub struct ToolInformation {
    /// The path of the tool's binary.
    pub path: String,
    /// The version of the tool.
    pub version: String,
}

/// The base name of an application's executable.
pub open spec fn app_name(a: Application) -> Seq<char> {
    match a {
        Application::Sass => "sass"@,
        Application::TailwindCss => "tailwindcss"@,
        Application::TailwindCssExtra => "tailwindcss-extra"@,
        Application::WasmBindgen => "wasm-bindgen"@,
        Application::WasmOpt => "wasm-opt"@,
    }
}

/// The path of an application's executable within its archive.
pub open spec fn app_path(a: Application, os: TargetOs) -> Seq<char> {
    if os == TargetOs::Windows {
        match a {
            Application::Sass => "sass.bat"@,
            Application::TailwindCss => "tailwindcss.exe"@,
            Application::TailwindCssExtra => "tailwindcss-extra.exe"@,
            Application::WasmBindgen => "wasm-bindgen.exe"@,
            Application::WasmOpt => "bin/wasm-opt.exe"@,
        }
    } else {
        match a {
            Application::Sass => "sass"@,
            Application::TailwindCss => "tailwindcss"@,
            Application::TailwindCssExtra => "tailwindcss-extra"@,
            Application::WasmBindgen => "wasm-bindgen"@,
            Application::WasmOpt => "bin/wasm-opt"@,
        }
    }
}

/// The files besides the executable that an application needs from its archive.
pub open spec fn app_extra_paths(a: Application, os: TargetOs) -> Seq<Seq<char>> {
    match a {
        Application::Sass => if os == TargetOs::Windows {
            seq!["src/dart.exe"@, "src/sass.snapshot"@]
        } else {
            seq!["src/dart"@, "src/sass.snapshot"@]
        },
        Application::WasmOpt => if os == TargetOs::Macos {
            seq!["lib/libbinaryen.dylib"@]
        } else {
            Seq::empty()
        },
        _ => Seq::empty(),
    }
}

/// The version of an application used when none is configured.
pub open spec fn app_default_version(a: Application) -> Seq<char> {
    match a {
        Application::Sass => "1.69.5"@,
        Application::TailwindCss => "3.3.5"@,
        Application::TailwindCssExtra => "1.7.25"@,
        Application::WasmBindgen => "0.2.89"@,
        Application::WasmOpt => "version_116"@,
    }
}

/// The argument that makes an application print its version.
pub open spec fn app_version_test(a: Application) -> Seq<char> {
    match a {
        Application::TailwindCss | Application::TailwindCssExtra => "--help"@,
        _ => "--version"@,
    }
}

/// The name of an operating system in download URLs.
pub open spec fn os_name(os: TargetOs) -> Seq<char> {
    match os {
        TargetOs::Windows => "windows"@,
        TargetOs::Macos => "macos"@,
        _ => "linux"@,
    }
}

/// The name of an architecture in download URLs.
pub open spec fn arch_name(arch: TargetArch) -> Seq<char> {
    match arch {
        TargetArch::Aarch64 => "aarch64"@,
        _ => "x86_64"@,
    }
}

/// Why no download URL exists.
#[derive(Debug, Clone, Copy, PartialEq, Eq, Structural)]
pub enum UrlError {
    UnsupportedOs,
    UnsupportedArch,
    /// No release of the application for this system.
    NoRelease { app: Application, os: TargetOs, arch: TargetArch },
}

/// How an application is named in the message that no release exists for a system.
pub open spec fn release_label(a: Application) -> Seq<char> {
    match a {
        Application::Sass => "Sass"@,
        Application::TailwindCss | Application::TailwindCssExtra => "tailwindcss"@,
        Application::WasmBindgen => "wasm-bindgen"@,
        Application::WasmOpt => "wasm-opt"@,
    }
}

impl UrlError {
    /// The error message.
    pub fn to_string(&self) -> (res: String)
        ensures
            res@ == match self {
                UrlError::UnsupportedOs => "unsupported OS"@,
                UrlError::UnsupportedArch => "unsupported target architecture"@,
                UrlError::NoRelease { app, os, arch } => "Unable to download "@ + release_label(*app) + " for "@
                    + os_name(*os) + " "@ + arch_name(*arch),
            },
    {
        match self {
            UrlError::UnsupportedOs => to_owned_string("unsupported OS"),
            UrlError::UnsupportedArch => to_owned_string("unsupported target architecture"),
            UrlError::NoRelease { app, os, arch } => {
                let mut s = to_owned_string("Unable to download ");
                s.append(
                    match app {
                        Application::Sass => "Sass",
                        Application::TailwindCss | Application::TailwindCssExtra => "tailwindcss",
                        Application::WasmBindgen => "wasm-bindgen",
                        Application::WasmOpt => "wasm-opt",
                    },
                );
                s.append(" for ");
                s.append(
                    match os {
                        TargetOs::Windows => "windows",
                        TargetOs::Macos => "macos",
                        _ => "linux",
                    },
                );
                s.append(" ");
                s.append(
                    match arch {
                        TargetArch::Aarch64 => "aarch64",
                        _ => "x86_64",
                    },
                );
                s
            },
        }
    }
}

/// The download URL of a release, or none for this system.
pub open spec fn url_spec(a: Application, v: Seq<char>, os: TargetOs, arch: TargetArch) -> Option<Seq<char>> {
    let o = os_name(os);
    let unix = os == TargetOs::Macos || os == TargetOs::Linux;
    let x64 = arch == TargetArch::X86_64;
    let arm = arch == TargetArch::Aarch64;
    match a {
        Application::Sass => if os == TargetOs::Windows && x64 {
            Some("https://github.com/sass/dart-sass/releases/download/"@ + v + "/dart-sass-"@ + v + "-windows-x64.zip"@)
        } else if unix && x64 {
            Some("https://github.com/sass/dart-sass/releases/download/"@ + v + "/dart-sass-"@ + v + "-"@ + o + "-x64.tar.gz"@)
        } else if unix && arm {
            Some("https://github.com/sass/dart-sass/releases/download/"@ + v + "/dart-sass-"@ + v + "-"@ + o + "-arm64.tar.gz"@)
        } else {
            None
        },
        Application::TailwindCss => if os == TargetOs::Windows && x64 {
            Some("https://github.com/tailwindlabs/tailwindcss/releases/download/v"@ + v + "/tailwindcss-windows-x64.exe"@)
        } else if unix && x64 {
            Some("https://github.com/tailwindlabs/tailwindcss/releases/download/v"@ + v + "/tailwindcss-"@ + o + "-x64"@)
        } else if unix && arm {
            Some("https://github.com/tailwindlabs/tailwindcss/releases/download/v"@ + v + "/tailwindcss-"@ + o + "-arm64"@)
        } else {
            None
        },
        Application::TailwindCssExtra => if os == TargetOs::Windows && x64 {
            Some("https://github.com/dobicinaitis/tailwind-cli-extra/releases/download/v"@ + v + "/tailwindcss-extra-windows-x64.exe"@)
        } else if unix && x64 {
            Some("https://github.com/dobicinaitis/tailwind-cli-extra/releases/download/v"@ + v + "/tailwindcss-extra-"@ + o + "-x64"@)
        } else if unix && arm {
            Some("https://github.com/dobicinaitis/tailwind-cli-extra/releases/download/v"@ + v + "/tailwindcss-extra-"@ + o + "-arm64"@)
        } else {
            None
        },
        Application::WasmBindgen => {
            let pre = "https://github.com/rustwasm/wasm-bindgen/releases/download/"@ + v + "/wasm-bindgen-"@ + v;
            if os == TargetOs::Windows && x64 {
                Some(pre + "-x86_64-pc-windows-msvc.tar.gz"@)
            } else if os == TargetOs::Macos && x64 {
                Some(pre + "-x86_64-apple-darwin.tar.gz"@)
            } else if os == TargetOs::Macos && arm {
                Some(pre + "-aarch64-apple-darwin.tar.gz"@)
            } else if os == TargetOs::Linux && x64 {
                Some(pre + "-x86_64-unknown-linux-musl.tar.gz"@)
            } else if os == TargetOs::Linux && arm {
                Some(pre + "-aarch64-unknown-linux-gnu.tar.gz"@)
            } else {
                None
            }
        },
        Application::WasmOpt => {
            let pre = "https://github.com/WebAssembly/binaryen/releases/download/"@ + v + "/binaryen-"@ + v;
            if os == TargetOs::Macos && arm {
                Some(pre + "-arm64-macos.tar.gz"@)
            } else {
                Some(pre + "-"@ + arch_name(arch) + "-"@ + o + ".tar.gz"@)
            }
        },
    }
}

/// The version that an application's version output names, read from the trimmed output:
/// its first word for sass, what follows ` v` on the first non-empty line for tailwindcss, the
/// second space-separated piece for wasm-bindgen, and `version_` with the third for wasm-opt.
pub open spec fn version_of_output(a: Application, text: Seq<char>) -> Option<Seq<char>> {
    let t = trim_spec(text);
    match a {
        Application::Sass => first_word(t),
        Application::TailwindCss | Application::TailwindCssExtra => match first_nonempty_line(t) {
            Some(l) => split_nth(l, " v"@, 1),
            None => None,
        },
        Application::WasmBindgen => split_nth(t, " "@, 1),
        Application::WasmOpt => match split_nth(t, " "@, 2) {
            Some(p) => Some("version_"@ + p),
            None => None,
        },
    }
}

/// Version output that names no version; `text` is the trimmed output.
#[derive(Debug, Clone)]
pub struct MalformedVersion {
    pub text: String,
}

impl MalformedVersion {
    /// The error message.
    pub fn to_string(&self) -> (res: String)
        ensures
            res@ == "missing or malformed version output: "@ + self.text@,
    {
        let mut s = to_owned_string("missing or malformed version output: ");
        s.append(self.text.as_str());
        s
    }
}

impl Application {
    /// The base name of the executable.
    pub fn name(&self) -> (res: &'static str)
        ensures
            res@ == app_name(*self),
    {
        match self {
            Application::Sass => "sass",
            Application::TailwindCss => "tailwindcss",
            Application::TailwindCssExtra => "tailwindcss-extra",
            Application::WasmBindgen => "wasm-bindgen",
            Application::WasmOpt => "wasm-opt",
        }
    }

    /// The path of the executable within the downloaded archive.
    pub fn path(&self, os: TargetOs) -> (res: &'static str)
        ensures
            res@ == app_path(*self, os),
    {
        if os == TargetOs::Windows {
            match self {
                Application::Sass => "sass.bat",
                Application::TailwindCss => "tailwindcss.exe",
                Application::TailwindCssExtra => "tailwindcss-extra.exe",
                Application::WasmBindgen => "wasm-bindgen.exe",
                Application::WasmOpt => "bin/wasm-opt.exe",
            }
        } else {
            match self {
                Application::Sass => "sass",
                Application::TailwindCss => "tailwindcss",
                Application::TailwindCssExtra => "tailwindcss-extra",
                Application::WasmBindgen => "wasm-bindgen",
                Application::WasmOpt => "bin/wasm-opt",
            }
        }
    }

    /// The files in the archive that the executable needs besides itself.
    pub fn extra_paths(&self, os: TargetOs) -> (res: Vec<&'static str>)
        ensures
            res@.map_values(|p: &str| p@) == app_extra_paths(*self, os),
    {
        let res: Vec<&'static str> = match self {
            Application::Sass => if os == TargetOs::Windows {
                vec!["src/dart.exe", "src/sass.snapshot"]
            } else {
                vec!["src/dart", "src/sass.snapshot"]
            },
            Application::WasmOpt => if os == TargetOs::Macos {
                vec!["lib/libbinaryen.dylib"]
            } else {
                Vec::new()
            },
            _ => Vec::new(),
        };
        assert(res@.map_values(|p: &str| p@) =~= app_extra_paths(*self, os));
        res
    }

    /// The version used when none is configured.
    pub fn default_version(&self) -> (res: &'static str)
        ensures
            res@ == app_default_version(*self),
    {
        match self {
            Application::Sass => "1.69.5",
            Application::TailwindCss => "3.3.5",
            Application::TailwindCssExtra => "1.7.25",
            Application::WasmBindgen => "0.2.89",
            Application::WasmOpt => "version_116",
        }
    }

    /// The argument that makes the application print its version.
    pub fn version_test(&self) -> (res: &'static str)
        ensures
            res@ == app_version_test(*self),
    {
        match self {
            Application::Sass => "--version",
            Application::TailwindCss => "--help",
            Application::TailwindCssExtra => "--help",
            Application::WasmBindgen => "--version",
            Application::WasmOpt => "--version",
        }
    }

    /// The download URL of a release for this system: an unsupported system is refused first
    /// (`Other`), then a system without a release.
    pub fn url(&self, version: &str, os: TargetOs, arch: TargetArch) -> (res: Result<String, UrlError>)
        ensures
            os == TargetOs::Other ==> res == Err::<String, UrlError>(UrlError::UnsupportedOs),
            os != TargetOs::Other && arch == TargetArch::Other ==> res == Err::<String, UrlError>(UrlError::UnsupportedArch),
            os != TargetOs::Other && arch != TargetArch::Other ==> match url_spec(*self, version@, os, arch) {
                Some(u) => res matches Ok(r) && r@ == u,
                None => res == Err::<String, UrlError>(UrlError::NoRelease { app: *self, os, arch }),
            },
    {
        if os == TargetOs::Other {
            return Err(UrlError::UnsupportedOs);
        }
        if arch == TargetArch::Other {
            return Err(UrlError::UnsupportedArch);
        }
        let o: &str = match os {
            TargetOs::Windows => "windows",
            TargetOs::Macos => "macos",
            _ => "linux",
        };
        let unix = os == TargetOs::Macos || os == TargetOs::Linux;
        let x64 = arch == TargetArch::X86_64;
        let arm = arch == TargetArch::Aarch64;
        let mut s = String::new();
        match self {
            Application::Sass => {
                s.append("https://github.com/sass/dart-sass/releases/download/");
                s.append(version);
                s.append("/dart-sass-");
                s.append(version);
                if os == TargetOs::Windows && x64 {
                    s.append("-windows-x64.zip");
                } else if unix && (x64 || arm) {
                    s.append("-");
                    s.append(o);
                    s.append(if x64 { "-x64.tar.gz" } else { "-arm64.tar.gz" });
                } else {
                    return Err(UrlError::NoRelease { app: *self, os, arch });
                }
            },
            Application::TailwindCss => {
                s.append("https://github.com/tailwindlabs/tailwindcss/releases/download/v");
                s.append(version);
                if os == TargetOs::Windows && x64 {
                    s.append("/tailwindcss-windows-x64.exe");
                } else if unix && (x64 || arm) {
                    s.append("/tailwindcss-");
                    s.append(o);
                    s.append(if x64 { "-x64" } else { "-arm64" });
                } else {
                    return Err(UrlError::NoRelease { app: *self, os, arch });
                }
            },
            Application::TailwindCssExtra => {
                s.append("https://github.com/dobicinaitis/tailwind-cli-extra/releases/download/v");
                s.append(version);
                if os == TargetOs::Windows && x64 {
                    s.append("/tailwindcss-extra-windows-x64.exe");
                } else if unix && (x64 || arm) {
                    s.append("/tailwindcss-extra-");
                    s.append(o);
                    s.append(if x64 { "-x64" } else { "-arm64" });
                } else {
                    return Err(UrlError::NoRelease { app: *self, os, arch });
                }
            },
            Application::WasmBindgen => {
                s.append("https://github.com/rustwasm/wasm-bindgen/releases/download/");
                s.append(version);
                s.append("/wasm-bindgen-");
                s.append(version);
                if os == TargetOs::Windows && x64 {
                    s.append("-x86_64-pc-windows-msvc.tar.gz");
                } else if os == TargetOs::Macos && x64 {
                    s.append("-x86_64-apple-darwin.tar.gz");
                } else if os == TargetOs::Macos && arm {
                    s.append("-aarch64-apple-darwin.tar.gz");
                } else if os == TargetOs::Linux && x64 {
                    s.append("-x86_64-unknown-linux-musl.tar.gz");
                } else if os == TargetOs::Linux && arm {
                    s.append("-aarch64-unknown-linux-gnu.tar.gz");
                } else {
                    return Err(UrlError::NoRelease { app: *self, os, arch });
                }
            },
            Application::WasmOpt => {
                s.append("https://github.com/WebAssembly/binaryen/releases/download/");
                s.append(version);
                s.append("/binaryen-");
                s.append(version);
                if os == TargetOs::Macos && arm {
                    s.append("-arm64-macos.tar.gz");
                } else {
                    s.append("-");
                    s.append(if arm { "aarch64" } else { "x86_64" });
                    s.append("-");
                    s.append(o);
                    s.append(".tar.gz");
                }
            },
        }
        Ok(s)
    }

    /// The version that the application's version output names.
    pub fn format_version_output(&self, text: &str) -> (res: Result<String, MalformedVersion>)
        ensures
            match version_of_output(*self, text@) {
                Some(v) => res matches Ok(r) && r@ == v,
                None => res matches Err(e) && e.text@ == trim_spec(text@),
            },
    {
        let t = trim(text);
        proof {
            reveal_strlit(" v");
            reveal_strlit(" ");
        }
        let found = match self {
            Application::Sass => first_word_of(t.as_str()),
            Application::TailwindCss | Application::TailwindCssExtra => match first_line(t.as_str()) {
                Some(l) => nth_piece(l.as_str(), " v", 1),
                None => None,
            },
            Application::WasmBindgen => nth_piece(t.as_str(), " ", 1),
            Application::WasmOpt => match nth_piece(t.as_str(), " ", 2) {
                Some(p) => {
                    let mut v = to_owned_string("version_");
                    v.append(p.as_str());
                    Some(v)
                },
                None => None,
            },
        };
        match found {
            Some(v) => Ok(v),
            None => Err(MalformedVersion { text: t }),
        }
    }
}

/// Where a tool comes from.
#[derive(Debug, Clone)]
pub enum ToolSource {
    /// The system installation, with its version.
    System { path: String, version: String },
    /// A release of this version, downloaded into the cache unless it is there already.
    Download { version: String },
}

/// Why a tool cannot be had.
#[derive(Debug, Clone)]
pub enum ToolError {
    /// The system installation has another version than the one required, and nothing can be
    /// downloaded.
    OfflineVersionMismatch { required: String, found: String },
    /// No system installation, and nothing can be downloaded; `version` is the required one or
    /// `<any>`.
    OfflineMissing { version: String },
}

/// Whether the system installation is used, a release is downloaded, or the tool cannot be had.
pub fn resolve_tool(
    app: Application,
    version: &Option<String>,
    offline: bool,
    system: &Option<(String, String)>,
) -> (res: Result<ToolSource, ToolError>)
    ensures
        match system {
            Some((path, found)) => match version {
                None => res matches Ok(ToolSource::System { path: p, version: v }) && p@ == path@ && v@ == found@,
                Some(req) => if req@ == found@ {
                    res matches Ok(ToolSource::System { path: p, version: v }) && p@ == path@ && v@ == found@
                } else if offline {
                    res matches Err(ToolError::OfflineVersionMismatch { required, found: f }) && required@ == req@ && f@ == found@
                } else {
                    res matches Ok(ToolSource::Download { version: v }) && v@ == req@
                },
            },
            None => if offline {
                res matches Err(ToolError::OfflineMissing { version: v }) && v@ == match version {
                    Some(r) => r@,
                    None => "<any>"@,
                }
            } else {
                res matches Ok(ToolSource::Download { version: v }) && v@ == match version {
                    Some(r) => r@,
                    None => app_default_version(app),
                }
            },
        },
{
    if let Some((path, found)) = system {
        match version {
            None => {
                return Ok(ToolSource::System { path: path.clone(), version: found.clone() });
            },
            Some(req) => {
                if str_eq(req.as_str(), found.as_str()) {
                    return Ok(ToolSource::System { path: path.clone(), version: found.clone() });
                } else if offline {
                    return Err(ToolError::OfflineVersionMismatch { required: req.clone(), found: found.clone() });
                }
            },
        }
    }
    if offline {
        let v = match version {
            Some(r) => r.clone(),
            None => to_owned_string("<any>"),
        };
        return Err(ToolError::OfflineMissing { version: v });
    }
    let v = match version {
        Some(r) => r.clone(),
        None => to_owned_string(app.default_version()),
    };
    Ok(ToolSource::Download { version: v })
}

/// The directory of a downloaded release in the cache: `<name>-<version>`.
pub fn app_dir_name(app: Application, version: &str) -> (res: String)
    ensures
        res@ == app_name(app) + "-"@ + version@,
{
    let mut s = to_owned_string(app.name());
    s.append("-");
    s.append(version);
    s
}


/// wasm-opt is downloaded from binaryen's releases, whose assets name the architecture before
/// the system: `binaryen-<version>-<arch>-<os>.tar.gz`, with `x86_64` or `aarch64` and `linux`,
/// `macos` or `windows`; only macOS on aarch64 has its own name, `arm64-macos`.
pub proof fn law_wasm_opt_asset_names(v: Seq<char>)
    ensures
        ({
            let pre = "https://github.com/WebAssembly/binaryen/releases/download/"@ + v + "/binaryen-"@ + v;
            &&& url_spec(Application::WasmOpt, v, TargetOs::Linux, TargetArch::X86_64) == Some(pre + "-x86_64-linux.tar.gz"@)
            &&& url_spec(Application::WasmOpt, v, TargetOs::Linux, TargetArch::Aarch64) == Some(pre + "-aarch64-linux.tar.gz"@)
            &&& url_spec(Application::WasmOpt, v, TargetOs::Windows, TargetArch::X86_64) == Some(pre + "-x86_64-windows.tar.gz"@)
            &&& url_spec(Application::WasmOpt, v, TargetOs::Windows, TargetArch::Aarch64) == Some(pre + "-aarch64-windows.tar.gz"@)
            &&& url_spec(Application::WasmOpt, v, TargetOs::Macos, TargetArch::X86_64) == Some(pre + "-x86_64-macos.tar.gz"@)
            &&& url_spec(Application::WasmOpt, v, TargetOs::Macos, TargetArch::Aarch64) == Some(pre + "-arm64-macos.tar.gz"@)
        }),
{
    reveal_strlit("-");
    reveal_strlit(".tar.gz");
    reveal_strlit("x86_64");
    reveal_strlit("aarch64");
    reveal_strlit("linux");
    reveal_strlit("macos");
    reveal_strlit("windows");
    reveal_strlit("-x86_64-linux.tar.gz");
    reveal_strlit("-aarch64-linux.tar.gz");
    reveal_strlit("-x86_64-windows.tar.gz");
    reveal_strlit("-aarch64-windows.tar.gz");
    reveal_strlit("-x86_64-macos.tar.gz");
    let pre = "https://github.com/WebAssembly/binaryen/releases/download/"@ + v + "/binaryen-"@ + v;
    assert(pre + "-"@ + "x86_64"@ + "-"@ + "linux"@ + ".tar.gz"@ =~= pre + "-x86_64-linux.tar.gz"@);
    assert(pre + "-"@ + "aarch64"@ + "-"@ + "linux"@ + ".tar.gz"@ =~= pre + "-aarch64-linux.tar.gz"@);
    assert(pre + "-"@ + "x86_64"@ + "-"@ + "windows"@ + ".tar.gz"@ =~= pre + "-x86_64-windows.tar.gz"@);
    assert(pre + "-"@ + "aarch64"@ + "-"@ + "windows"@ + ".tar.gz"@ =~= pre + "-aarch64-windows.tar.gz"@);
    assert(pre + "-"@ + "x86_64"@ + "-"@ + "macos"@ + ".tar.gz"@ =~= pre + "-x86_64-macos.tar.gz"@);
}

} // verus!
