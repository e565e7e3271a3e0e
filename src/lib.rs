//! Code generation for a two-sided call boundary between a managed module and
//! a native module. From one interface description the library writes the
//! native artifacts (`emit`, `write`, `generic`, `headers`) and the managed
//! module (`bridge`, `expand`, `instances`). Both sides take the passing
//! strategy of every type from one registry (`types`) and name every entry
//! point by one symbol scheme (`mangle`, `link`), so that the two artifacts
//! agree without a shared compile step; `laws` states what holds of them.
pub mod atom;
pub mod bridge;
pub mod emit;
pub mod expand;
pub mod generic;
pub mod headers;
pub mod instances;
pub mod laws;
pub mod link;
pub mod mangle;
pub mod out;
pub mod strings;
pub mod syntax;
pub mod types;
pub mod write;
