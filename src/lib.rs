//! A module-loading cache facade for dependency-graph construction: it
//! decides, per requested module, whether it is a registry package, which
//! permission set a fetch runs under, how a fetch outcome reads to the graph
//! builder, and how caller-forced headers combine with fetched ones.
pub mod text;
pub mod specifier;
pub mod headers;
pub mod npm;
pub mod overrides;
pub mod loader;
