//! Static resolution of the export surface of a CommonJS-style module.
//!
//! Given the top-level items of a parsed module, the resolver determines,
//! without executing any code, which names the module exposes as exports and
//! which other modules it forwards exports from. `ast` holds the syntax-tree
//! model the resolver reads, `resolve` the resolution pass and its
//! specification, and `laws` the properties proved of every resolution:
//! determinism, deduplication, exact membership and first-seen ordering.

pub mod ast;
pub mod laws;
pub mod resolve;
