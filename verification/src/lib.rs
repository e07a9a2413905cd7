//! Build-time extraction of prefetchable content declarations from a
//! JSX module tree: recognize `<Node uri="...">...</Node>` marker
//! elements, statically evaluate their identifier and optional default
//! value, and prepend one import of the registration entry point plus
//! one registration call per marker to the module.
pub mod ast;
pub mod diag;
pub mod extract;
pub mod laws;
pub mod rewrite;
pub mod scan;
