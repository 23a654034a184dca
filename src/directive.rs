//! The directives a build script can hand to Cargo, and the exact line each
//! of them renders as.

use vstd::prelude::*;

use crate::kinds::{
    is_ascii_lowercase_of, lemma_lib_token_is_lowercased_name,
    lemma_search_token_is_lowercased_name, lib_kind_name, lib_kind_token, search_kind_name,
    search_kind_token, LibKind, LinkArgTarget, SearchLibKind,
};

verus! {

/// One instruction to Cargo, with its parameters.
///
/// Paths are carried as the text they display as on this platform.
#[derive(Clone, Debug)]
#[allow(inconsistent_fields)]
pub enum Directive {
    /// Re-run the build script when the file at `path` changes.
    RerunIfChanged { path: String },
    /// Re-run the build script when the environment variable `var` changes.
    RerunIfEnvChanged { var: String },
    /// Set an environment variable for the compilation of the crate.
    RustcEnv { var: String, value: String },
    /// Enable a `cfg` setting, as a bare key or as `key="value"`.
    RustcCfg { key: String, value: Option<String> },
    /// Pass an argument to the linker, for every artifact or for `target` only.
    RustcLinkArg { arg: String, target: Option<LinkArgTarget> },
    /// Add a library search path; with no kind, `all` is used.
    RustcLinkSearch { path: String, kind: Option<SearchLibKind> },
    /// Link a library; with no kind, Cargo picks its default.
    RustcLinkLib { lib: String, kind: Option<LibKind> },
    /// Set a metadata pair for the crates that depend on this one.
    MetadataSet { key: String, val: String },
    /// Show a warning on the terminal.
    Warning { msg: String },
}

/// The segment a link target adds after `link-arg` (empty for none and for
/// a C-compatible library, which changes the prefix instead).
pub open spec fn link_arg_suffix(target: Option<LinkArgTarget>) -> Seq<char> {
    match target {
        Some(LinkArgTarget::Bin(name)) => "-bin="@ + name@,
        Some(LinkArgTarget::Bins) => "-bins"@,
        Some(LinkArgTarget::Tests) => "-tests"@,
        Some(LinkArgTarget::Examples) => "-examples"@,
        Some(LinkArgTarget::Benches) => "-benches"@,
        Some(LinkArgTarget::Cdylib) => Seq::empty(),
        None => Seq::empty(),
    }
}

/// The tag of a link-argument directive.
pub open spec fn link_arg_tag(target: Option<LinkArgTarget>) -> Seq<char> {
    match target {
        Some(LinkArgTarget::Cdylib) => "cargo:rustc-cdylib-link-arg"@,
        _ => "cargo:rustc-link-arg"@,
    }
}

/// The search kind that is written: the given one, or `All`.
pub open spec fn effective_search_kind(kind: Option<SearchLibKind>) -> SearchLibKind {
    match kind {
        Some(k) => k,
        None => SearchLibKind::All,
    }
}

impl Directive {
    /// The line this directive renders as, without its line terminator.
    pub open spec fn line(&self) -> Seq<char> {
        match self {
            Directive::RerunIfChanged { path } => "cargo:rerun-if-changed="@ + path@,
            Directive::RerunIfEnvChanged { var } => "cargo:rerun-if-env-changed="@ + var@,
            Directive::RustcEnv { var, value } => "cargo:rustc-env="@ + var@ + "="@ + value@,
            Directive::RustcCfg { key, value } => match value {
                Some(v) => "cargo:rustc-cfg="@ + key@ + "="@ + v@,
                None => "cargo:rustc-cfg="@ + key@,
            },
            Directive::RustcLinkArg { arg, target } => link_arg_tag(*target) + link_arg_suffix(
                *target,
            ) + "="@ + arg@,
            Directive::RustcLinkSearch { path, kind } => "cargo:rustc-link-search="@
                + search_kind_token(effective_search_kind(*kind)) + "="@ + path@,
            Directive::RustcLinkLib { lib, kind } => match kind {
                Some(k) => "cargo:rustc-link-lib="@ + lib_kind_token(*k) + "="@ + lib@,
                None => "cargo:rustc-link-lib="@ + lib@,
            },
            Directive::MetadataSet { key, val } => "cargo:"@ + key@ + "="@ + val@,
            Directive::Warning { msg } => "cargo:warning="@ + msg@,
        }
    }

    /// Renders the directive as one line, without its line terminator.
    pub fn render(&self) -> (r: String)
        ensures
            r@ == self.line(),
    {
        match self {
            Directive::RerunIfChanged { path } => {
                let mut s = String::from_str("cargo:rerun-if-changed=");
                s.append(path.as_str());
                s
            },
            Directive::RerunIfEnvChanged { var } => {
                let mut s = String::from_str("cargo:rerun-if-env-changed=");
                s.append(var.as_str());
                s
            },
            Directive::RustcEnv { var, value } => {
                let mut s = String::from_str("cargo:rustc-env=");
                s.append(var.as_str());
                s.append("=");
                s.append(value.as_str());
                s
            },
            Directive::RustcCfg { key, value } => {
                let mut s = String::from_str("cargo:rustc-cfg=");
                s.append(key.as_str());
                if let Some(v) = value {
                    s.append("=");
                    s.append(v.as_str());
                }
                s
            },
            Directive::RustcLinkArg { arg, target } => {
                let is_cdylib = match target {
                    Some(LinkArgTarget::Cdylib) => true,
                    _ => false,
                };
                let mut s = if is_cdylib {
                    String::from_str("cargo:rustc-cdylib-link-arg")
                } else {
                    String::from_str("cargo:rustc-link-arg")
                };
                match target {
                    Some(LinkArgTarget::Bin(name)) => {
                        s.append("-bin=");
                        s.append(name);
                    },
                    Some(LinkArgTarget::Bins) => s.append("-bins"),
                    Some(LinkArgTarget::Tests) => s.append("-tests"),
                    Some(LinkArgTarget::Examples) => s.append("-examples"),
                    Some(LinkArgTarget::Benches) => s.append("-benches"),
                    Some(LinkArgTarget::Cdylib) => {},
                    None => {},
                }
                s.append("=");
                s.append(arg.as_str());
                s
            },
            Directive::RustcLinkSearch { path, kind } => {
                let k = match kind {
                    Some(k) => *k,
                    None => SearchLibKind::All,
                };
                let mut s = String::from_str("cargo:rustc-link-search=");
                s.append(k.token());
                s.append("=");
                s.append(path.as_str());
                s
            },
            Directive::RustcLinkLib { lib, kind } => {
                let mut s = String::from_str("cargo:rustc-link-lib=");
                if let Some(k) = kind {
                    s.append(k.token());
                    s.append("=");
                }
                s.append(lib.as_str());
                s
            },
            Directive::MetadataSet { key, val } => {
                let mut s = String::from_str("cargo:");
                s.append(key.as_str());
                s.append("=");
                s.append(val.as_str());
                s
            },
            Directive::Warning { msg } => {
                let mut s = String::from_str("cargo:warning=");
                s.append(msg.as_str());
                s
            },
        }
    }

    /// Renders the directive as it is written to the output stream: its line,
    /// then a line feed, so that one write carries the whole line.
    pub fn render_terminated(&self) -> (r: String)
        ensures
            r@ == written(*self),
    {
        let mut s = self.render();
        s.append("\n");
        proof {
            reveal_strlit("\n");
        }
        s
    }
}

/// What one directive puts on the output stream.
pub open spec fn written(d: Directive) -> Seq<char> {
    d.line().push('\n')
}

/// A search-path line carries the kind's identifier lower-cased as its
/// qualifier, and `all` when no kind is given.
pub proof fn lemma_link_search_qualifier(path: String, kind: Option<SearchLibKind>)
    ensures
        ({
            let line = (Directive::RustcLinkSearch { path, kind }).line();
            match kind {
                Some(k) => {
                    &&& line == "cargo:rustc-link-search="@ + search_kind_token(k) + "="@ + path@
                    &&& is_ascii_lowercase_of(search_kind_token(k), search_kind_name(k))
                },
                None => line == "cargo:rustc-link-search="@ + "all"@ + "="@ + path@,
            }
        }),
{
    if let Some(k) = kind {
        lemma_search_token_is_lowercased_name(k);
    }
}

/// A link-library line carries `<kind>=<lib>` with the kind's identifier
/// lower-cased when a kind is given, and the bare library name, with no
/// qualifier segment, when none is.
pub proof fn lemma_link_lib_qualifier(lib: String, kind: Option<LibKind>)
    ensures
        ({
            let line = (Directive::RustcLinkLib { lib, kind }).line();
            match kind {
                Some(k) => {
                    &&& line == "cargo:rustc-link-lib="@ + lib_kind_token(k) + "="@ + lib@
                    &&& is_ascii_lowercase_of(lib_kind_token(k), lib_kind_name(k))
                },
                None => line == "cargo:rustc-link-lib="@ + lib@,
            }
        }),
{
    if let Some(k) = kind {
        lemma_lib_token_is_lowercased_name(k);
    }
}

} // verus!
