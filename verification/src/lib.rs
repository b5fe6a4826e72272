//! Application manifest model and canonical renderer.
//!
//! A manifest describes one buildable application unit. It can be authored
//! as a fully typed record, as a JSON value tree, or as a TOML value tree;
//! the [`Manifest`] enum presents one typed field-access contract over all
//! three. Rendering reads every catalog field through that contract into a
//! flat [`Projection`] and emits a single canonical `App(...)` text block
//! with a fixed field order, consumed by a downstream build tool.

pub mod manifest;
pub mod projection;
pub mod read_json;
pub mod read_toml;
pub mod render;
pub mod text;

pub use manifest::Manifest;
pub use manifest::render_raw_json;
pub use manifest::render_raw_toml;
pub use projection::Projection;
pub use render::Error;
