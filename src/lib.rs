//! Rendering of the line-oriented directives that a build script hands to
//! Cargo on its standard output.
//!
//! Each directive is one line: `cargo:` followed by a directive tag, optional
//! qualifier segments and `=` with the payload. The library renders those lines
//! and proves their exact shape; writing them out is left to the caller.

pub mod directive;
pub mod kinds;
pub mod stream;

pub use directive::Directive;
pub use kinds::{LibKind, LinkArgTarget, SearchLibKind};
