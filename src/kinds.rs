//! The closed enumerations that qualify a directive, and the lower-case
//! token each of them renders as.

use vstd::prelude::*;

verus! {

/// What a library search path is searched for.
#[derive(Copy, Clone, Debug, PartialEq, Eq, Structural)]
pub enum SearchLibKind {
    Dependency,
    Crate,
    Native,
    Framework,
    All,
}

/// How a library is linked.
#[derive(Copy, Clone, Debug, PartialEq, Eq, Structural)]
pub enum LibKind {
    Dylib,
    Static,
    Framework,
}

/// The artifacts that a linker argument applies to.
#[derive(Copy, Clone, Debug)]
pub enum LinkArgTarget {
    /// One binary, named by its identifier.
    Bin(&'static str),
    Bins,
    Tests,
    Examples,
    Benches,
    Cdylib,
}

/// The identifier of a search kind, as it is written in the source.
pub open spec fn search_kind_name(k: SearchLibKind) -> Seq<char> {
    match k {
        SearchLibKind::Dependency => "Dependency"@,
        SearchLibKind::Crate => "Crate"@,
        SearchLibKind::Native => "Native"@,
        SearchLibKind::Framework => "Framework"@,
        SearchLibKind::All => "All"@,
    }
}

/// The identifier of a link kind, as it is written in the source.
pub open spec fn lib_kind_name(k: LibKind) -> Seq<char> {
    match k {
        LibKind::Dylib => "Dylib"@,
        LibKind::Static => "Static"@,
        LibKind::Framework => "Framework"@,
    }
}

/// The protocol token of a search kind.
pub open spec fn search_kind_token(k: SearchLibKind) -> Seq<char> {
    match k {
        SearchLibKind::Dependency => "dependency"@,
        SearchLibKind::Crate => "crate"@,
        SearchLibKind::Native => "native"@,
        SearchLibKind::Framework => "framework"@,
        SearchLibKind::All => "all"@,
    }
}

/// The protocol token of a link kind.
pub open spec fn lib_kind_token(k: LibKind) -> Seq<char> {
    match k {
        LibKind::Dylib => "dylib"@,
        LibKind::Static => "static"@,
        LibKind::Framework => "framework"@,
    }
}

/// `lo` is the ASCII lower-case form of `c`: upper-case letters move down by
/// 32 code points, every other character stays.
pub open spec fn is_ascii_lower_of(lo: char, c: char) -> bool {
    if 'A' <= c && c <= 'Z' {
        lo as u32 == c as u32 + 32
    } else {
        lo == c
    }
}

/// `lo` is `s` with each ASCII upper-case letter lowered.
pub open spec fn is_ascii_lowercase_of(lo: Seq<char>, s: Seq<char>) -> bool {
    &&& lo.len() == s.len()
    &&& forall|i: int| 0 <= i < s.len() ==> #[trigger] is_ascii_lower_of(lo[i], s[i])
}

impl SearchLibKind {
    /// The lower-case token of this kind (`dependency`, ..., `all`).
    pub fn token(&self) -> (r: &'static str)
        ensures
            r@ == search_kind_token(*self),
    {
        match self {
            SearchLibKind::Dependency => "dependency",
            SearchLibKind::Crate => "crate",
            SearchLibKind::Native => "native",
            SearchLibKind::Framework => "framework",
            SearchLibKind::All => "all",
        }
    }
}

impl LibKind {
    /// The lower-case token of this kind (`dylib`, `static`, `framework`).
    pub fn token(&self) -> (r: &'static str)
        ensures
            r@ == lib_kind_token(*self),
    {
        match self {
            LibKind::Dylib => "dylib",
            LibKind::Static => "static",
            LibKind::Framework => "framework",
        }
    }
}

/// The token of every search kind is its identifier, lower-cased.
pub proof fn lemma_search_token_is_lowercased_name(k: SearchLibKind)
    ensures
        is_ascii_lowercase_of(search_kind_token(k), search_kind_name(k)),
{
    reveal_strlit("Dependency");
    reveal_strlit("dependency");
    reveal_strlit("Crate");
    reveal_strlit("crate");
    reveal_strlit("Native");
    reveal_strlit("native");
    reveal_strlit("Framework");
    reveal_strlit("framework");
    reveal_strlit("All");
    reveal_strlit("all");
}

/// The token of every link kind is its identifier, lower-cased.
pub proof fn lemma_lib_token_is_lowercased_name(k: LibKind)
    ensures
        is_ascii_lowercase_of(lib_kind_token(k), lib_kind_name(k)),
{
    reveal_strlit("Dylib");
    reveal_strlit("dylib");
    reveal_strlit("Static");
    reveal_strlit("static");
    reveal_strlit("Framework");
    reveal_strlit("framework");
}

} // verus!
