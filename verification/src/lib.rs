//! Source-code structure analysis over tree-sitter: language registry, line
//! metrics, structural symbols, imports, comments, string literals and
//! arbitrary tree-sitter queries.

pub mod extract;
pub mod functions;
pub mod lang;
pub mod laws;
pub mod meta;
pub mod parsing;
pub mod symbols;
pub mod text;
pub mod ts;

use vstd::prelude::*;

verus! {

} // verus!
