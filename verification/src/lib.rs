//! Scaffolds a new Wasm contract workspace for the Dimension Platform: a
//! dependency registry holding the canonical name/version pairs of the shared
//! Dimension libraries, an override-resolution engine choosing among published,
//! local-path and remote-branch dependency sources, and a manifest composer
//! that renders the contract and tests package manifests from them.

pub mod dependency;
pub mod overrides;
pub mod manifest;
pub mod registry;
pub mod rust_toolchain;
pub mod scaffold;
pub mod text;
