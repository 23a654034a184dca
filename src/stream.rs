//! The output stream as a sequence of characters, and the laws of writing
//! directives to it one after another.

use vstd::prelude::*;

use crate::directive::{effective_search_kind, link_arg_suffix, link_arg_tag, written, Directive};
use crate::kinds::{lib_kind_token, search_kind_token, LinkArgTarget};

verus! {

/// `s` holds no line feed.
pub open spec fn has_no_newline(s: Seq<char>) -> bool {
    forall|i: int| 0 <= i < s.len() ==> #[trigger] s[i] != '\n'
}

/// How many line feeds `s` holds, that is how many lines it ends.
pub open spec fn newline_count(s: Seq<char>) -> nat
    decreases s.len(),
{
    if s.len() == 0 {
        0
    } else {
        newline_count(s.drop_last()) + if s.last() == '\n' {
            1nat
        } else {
            0nat
        }
    }
}

/// Every text parameter of the directive is free of line feeds.
pub open spec fn payloads_single_line(d: Directive) -> bool {
    match d {
        Directive::RerunIfChanged { path } => has_no_newline(path@),
        Directive::RerunIfEnvChanged { var } => has_no_newline(var@),
        Directive::RustcEnv { var, value } => has_no_newline(var@) && has_no_newline(value@),
        Directive::RustcCfg { key, value } => has_no_newline(key@) && match value {
            Some(v) => has_no_newline(v@),
            None => true,
        },
        Directive::RustcLinkArg { arg, target } => has_no_newline(arg@) && match target {
            Some(LinkArgTarget::Bin(name)) => has_no_newline(name@),
            _ => true,
        },
        Directive::RustcLinkSearch { path, kind } => has_no_newline(path@),
        Directive::RustcLinkLib { lib, kind } => has_no_newline(lib@),
        Directive::MetadataSet { key, val } => has_no_newline(key@) && has_no_newline(val@),
        Directive::Warning { msg } => has_no_newline(msg@),
    }
}

/// The stream after the directives `ds` were written, in that order.
pub open spec fn output(ds: Seq<Directive>) -> Seq<char>
    decreases ds.len(),
{
    if ds.len() == 0 {
        Seq::empty()
    } else {
        output(ds.drop_last()) + written(ds.last())
    }
}

/// Line feeds of a concatenation add up.
pub proof fn lemma_newline_count_concat(a: Seq<char>, b: Seq<char>)
    ensures
        newline_count(a + b) == newline_count(a) + newline_count(b),
    decreases b.len(),
{
    if b.len() > 0 {
        assert((a + b).drop_last() =~= a + b.drop_last());
        lemma_newline_count_concat(a, b.drop_last());
    } else {
        assert(a + b =~= a);
    }
}

/// Text with no line feed ends no line.
pub proof fn lemma_no_newline_count(s: Seq<char>)
    requires
        has_no_newline(s),
    ensures
        newline_count(s) == 0,
    decreases s.len(),
{
    if s.len() > 0 {
        assert(s.last() == s[s.len() - 1]);
        lemma_no_newline_count(s.drop_last());
    }
}

proof fn lemma_concat_no_newline(a: Seq<char>, b: Seq<char>)
    requires
        has_no_newline(a),
        has_no_newline(b),
    ensures
        has_no_newline(a + b),
{
    assert forall|i: int| 0 <= i < (a + b).len() implies #[trigger] (a + b)[i] != '\n' by {
        if i >= a.len() {
            assert((a + b)[i] == b[i - a.len()]);
        }
    }
}

/// A directive's line holds no line feed when its parameters hold none.
pub proof fn lemma_line_has_no_newline(d: Directive)
    requires
        payloads_single_line(d),
    ensures
        has_no_newline(d.line()),
{
    reveal_strlit("=");
    let eq = "="@;
    match d {
        Directive::RerunIfChanged { path } => {
            reveal_strlit("cargo:rerun-if-changed=");
            lemma_concat_no_newline("cargo:rerun-if-changed="@, path@);
        },
        Directive::RerunIfEnvChanged { var } => {
            reveal_strlit("cargo:rerun-if-env-changed=");
            lemma_concat_no_newline("cargo:rerun-if-env-changed="@, var@);
        },
        Directive::RustcEnv { var, value } => {
            let p = "cargo:rustc-env="@;
            reveal_strlit("cargo:rustc-env=");
            lemma_concat_no_newline(p, var@);
            lemma_concat_no_newline(p + var@, eq);
            lemma_concat_no_newline(p + var@ + eq, value@);
        },
        Directive::RustcCfg { key, value } => {
            let p = "cargo:rustc-cfg="@;
            reveal_strlit("cargo:rustc-cfg=");
            lemma_concat_no_newline(p, key@);
            if let Some(v) = value {
                lemma_concat_no_newline(p + key@, eq);
                lemma_concat_no_newline(p + key@ + eq, v@);
            }
        },
        Directive::RustcLinkArg { arg, target } => {
            let t = link_arg_tag(target);
            let x = link_arg_suffix(target);
            reveal_strlit("cargo:rustc-cdylib-link-arg");
            reveal_strlit("cargo:rustc-link-arg");
            reveal_strlit("-bin=");
            reveal_strlit("-bins");
            reveal_strlit("-tests");
            reveal_strlit("-examples");
            reveal_strlit("-benches");
            if let Some(LinkArgTarget::Bin(name)) = target {
                lemma_concat_no_newline("-bin="@, name@);
            }
            assert(has_no_newline(x));
            lemma_concat_no_newline(t, x);
            lemma_concat_no_newline(t + x, eq);
            lemma_concat_no_newline(t + x + eq, arg@);
        },
        Directive::RustcLinkSearch { path, kind } => {
            let p = "cargo:rustc-link-search="@;
            let k = search_kind_token(effective_search_kind(kind));
            reveal_strlit("cargo:rustc-link-search=");
            reveal_strlit("dependency");
            reveal_strlit("crate");
            reveal_strlit("native");
            reveal_strlit("framework");
            reveal_strlit("all");
            lemma_concat_no_newline(p, k);
            lemma_concat_no_newline(p + k, eq);
            lemma_concat_no_newline(p + k + eq, path@);
        },
        Directive::RustcLinkLib { lib, kind } => {
            let p = "cargo:rustc-link-lib="@;
            reveal_strlit("cargo:rustc-link-lib=");
            if let Some(k) = kind {
                let t = lib_kind_token(k);
                reveal_strlit("dylib");
                reveal_strlit("static");
                reveal_strlit("framework");
                lemma_concat_no_newline(p, t);
                lemma_concat_no_newline(p + t, eq);
                lemma_concat_no_newline(p + t + eq, lib@);
            } else {
                lemma_concat_no_newline(p, lib@);
            }
        },
        Directive::MetadataSet { key, val } => {
            let p = "cargo:"@;
            reveal_strlit("cargo:");
            lemma_concat_no_newline(p, key@);
            lemma_concat_no_newline(p + key@, eq);
            lemma_concat_no_newline(p + key@ + eq, val@);
        },
        Directive::Warning { msg } => {
            reveal_strlit("cargo:warning=");
            lemma_concat_no_newline("cargo:warning="@, msg@);
        },
    }
}

/// Writing one directive puts exactly one line on the stream: its rendered
/// line, then a line feed as the last character and the only one.
pub proof fn lemma_directive_writes_one_line(d: Directive)
    requires
        payloads_single_line(d),
    ensures
        newline_count(written(d)) == 1,
        written(d).last() == '\n',
        written(d).drop_last() == d.line(),
        has_no_newline(d.line()),
{
    lemma_line_has_no_newline(d);
    lemma_no_newline_count(d.line());
    assert(written(d).drop_last() =~= d.line());
}

/// The stream holds one line per directive written.
pub proof fn lemma_output_line_count(ds: Seq<Directive>)
    requires
        forall|i: int| 0 <= i < ds.len() ==> payloads_single_line(#[trigger] ds[i]),
    ensures
        newline_count(output(ds)) == ds.len(),
    decreases ds.len(),
{
    if ds.len() > 0 {
        let d = ds.last();
        assert(payloads_single_line(ds[ds.len() - 1]));
        lemma_output_line_count(ds.drop_last());
        lemma_directive_writes_one_line(d);
        lemma_newline_count_concat(output(ds.drop_last()), written(d));
    }
}

/// Writing `ds` and then `es` gives the stream of `ds` followed by the stream
/// of `es`: lines stay in the order of the calls, and what was written is
/// never held back or changed by a later call.
pub proof fn lemma_output_in_call_order(ds: Seq<Directive>, es: Seq<Directive>)
    ensures
        output(ds + es) == output(ds) + output(es),
    decreases es.len(),
{
    if es.len() == 0 {
        assert(ds + es =~= ds);
        assert(output(ds) + output(es) =~= output(ds));
    } else {
        assert((ds + es).drop_last() =~= ds + es.drop_last());
        assert((ds + es).last() == es.last());
        lemma_output_in_call_order(ds, es.drop_last());
        assert(output(ds + es) =~= output(ds) + output(es));
    }
}

/// Writing the same directive twice puts its line on the stream twice: two
/// identical lines, with nothing merged or dropped.
pub proof fn lemma_repeat_writes_twice(ds: Seq<Directive>, d: Directive)
    requires
        payloads_single_line(d),
    ensures
        output(ds.push(d).push(d)) == output(ds) + d.line().push('\n') + d.line().push('\n'),
        newline_count(output(ds.push(d).push(d))) == newline_count(output(ds)) + 2,
{
    let once = ds.push(d);
    let twice = once.push(d);
    assert(twice.drop_last() =~= once);
    assert(once.drop_last() =~= ds);
    lemma_directive_writes_one_line(d);
    lemma_newline_count_concat(output(ds), written(d));
    lemma_newline_count_concat(output(once), written(d));
}

} // verus!
