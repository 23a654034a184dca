use build_directives::{Directive, LibKind, LinkArgTarget, SearchLibKind};

fn s(t: &str) -> String {
    t.to_string()
}

#[test]
fn cfg_without_value_is_bare_key() {
    let d = Directive::RustcCfg { key: s("feature"), value: None };
    assert_eq!(d.render(), "cargo:rustc-cfg=feature");
}

#[test]
fn cfg_with_value_appends_it() {
    let d = Directive::RustcCfg { key: s("feature"), value: Some(s("x")) };
    assert_eq!(d.render(), "cargo:rustc-cfg=feature=x");
}

#[test]
fn link_arg_for_cdylib_changes_prefix() {
    let d = Directive::RustcLinkArg { arg: s("-lfoo"), target: Some(LinkArgTarget::Cdylib) };
    assert_eq!(d.render(), "cargo:rustc-cdylib-link-arg=-lfoo");
}

#[test]
fn link_arg_for_named_bin() {
    let d = Directive::RustcLinkArg {
        arg: s("-lfoo"),
        target: Some(LinkArgTarget::Bin("myapp")),
    };
    assert_eq!(d.render(), "cargo:rustc-link-arg-bin=myapp=-lfoo");
}

#[test]
fn link_arg_suffixes() {
    let cases = [
        (None, "cargo:rustc-link-arg=-lfoo"),
        (Some(LinkArgTarget::Bins), "cargo:rustc-link-arg-bins=-lfoo"),
        (Some(LinkArgTarget::Tests), "cargo:rustc-link-arg-tests=-lfoo"),
        (Some(LinkArgTarget::Examples), "cargo:rustc-link-arg-examples=-lfoo"),
        (Some(LinkArgTarget::Benches), "cargo:rustc-link-arg-benches=-lfoo"),
    ];
    for (target, expected) in cases {
        let d = Directive::RustcLinkArg { arg: s("-lfoo"), target };
        assert_eq!(d.render(), expected);
    }
}

#[test]
fn link_search_defaults_to_all() {
    let d = Directive::RustcLinkSearch { path: s("/usr/lib"), kind: None };
    assert_eq!(d.render(), "cargo:rustc-link-search=all=/usr/lib");
}

#[test]
fn link_search_kinds_are_lowercased() {
    let cases = [
        (SearchLibKind::Dependency, "dependency"),
        (SearchLibKind::Crate, "crate"),
        (SearchLibKind::Native, "native"),
        (SearchLibKind::Framework, "framework"),
        (SearchLibKind::All, "all"),
    ];
    for (kind, token) in cases {
        assert_eq!(kind.token(), token);
        assert_eq!(token, format!("{:?}", kind).to_lowercase());
        let d = Directive::RustcLinkSearch { path: s("/opt/x"), kind: Some(kind) };
        assert_eq!(d.render(), format!("cargo:rustc-link-search={}=/opt/x", token));
    }
}

#[test]
fn link_lib_with_kind() {
    let cases = [
        (LibKind::Dylib, "cargo:rustc-link-lib=dylib=z"),
        (LibKind::Static, "cargo:rustc-link-lib=static=z"),
        (LibKind::Framework, "cargo:rustc-link-lib=framework=z"),
    ];
    for (kind, expected) in cases {
        assert_eq!(kind.token(), format!("{:?}", kind).to_lowercase());
        let d = Directive::RustcLinkLib { lib: s("z"), kind: Some(kind) };
        assert_eq!(d.render(), expected);
    }
}

#[test]
fn link_lib_without_kind_is_bare() {
    let d = Directive::RustcLinkLib { lib: s("z"), kind: None };
    assert_eq!(d.render(), "cargo:rustc-link-lib=z");
}

#[test]
fn metadata_is_key_and_value_only() {
    let d = Directive::MetadataSet { key: s("foo"), val: s("bar") };
    assert_eq!(d.render(), "cargo:foo=bar");
    let d = Directive::MetadataSet { key: s("warning"), val: s("bar") };
    assert_eq!(d.render(), "cargo:warning=bar");
}

#[test]
fn rerun_and_env_and_warning() {
    let d = Directive::RerunIfChanged { path: s("src/a.c") };
    assert_eq!(d.render(), "cargo:rerun-if-changed=src/a.c");
    let d = Directive::RerunIfEnvChanged { var: s("CC") };
    assert_eq!(d.render(), "cargo:rerun-if-env-changed=CC");
    let d = Directive::RustcEnv { var: s("VERSION"), value: s("1.2") };
    assert_eq!(d.render(), "cargo:rustc-env=VERSION=1.2");
    let d = Directive::Warning { msg: s("careful") };
    assert_eq!(d.render(), "cargo:warning=careful");
}

#[test]
fn empty_payloads_render_as_given() {
    let d = Directive::RustcLinkLib { lib: s(""), kind: None };
    assert_eq!(d.render(), "cargo:rustc-link-lib=");
    let d = Directive::Warning { msg: s("") };
    assert_eq!(d.render(), "cargo:warning=");
}

#[test]
fn each_directive_writes_one_terminated_line() {
    let ds = vec![
        Directive::RerunIfChanged { path: s("build.rs") },
        Directive::RustcCfg { key: s("feature"), value: Some(s("x")) },
        Directive::RustcLinkSearch { path: s("/usr/lib"), kind: None },
        Directive::Warning { msg: s("w") },
    ];
    let mut out = String::new();
    for d in &ds {
        let t = d.render_terminated();
        assert_eq!(t.matches('\n').count(), 1);
        assert!(t.ends_with('\n'));
        out.push_str(&t);
    }
    let lines: Vec<&str> = out.lines().collect();
    assert_eq!(lines.len(), ds.len());
    for (line, d) in lines.iter().zip(ds.iter()) {
        assert_eq!(*line, d.render());
    }
}

#[test]
fn same_directive_twice_gives_two_identical_lines() {
    let d = Directive::RustcLinkLib { lib: s("z"), kind: Some(LibKind::Static) };
    let mut out = d.render_terminated();
    out.push_str(&d.render_terminated());
    assert_eq!(out, "cargo:rustc-link-lib=static=z\ncargo:rustc-link-lib=static=z\n");
}
