//! A verified core for a schematic-capture tool: a parser for the
//! line-oriented schematic and component-library text formats, an integer
//! geometry kernel, the aggregate that owns the parsed entities, and the
//! render-cache synchronizer that keeps a derived view consistent with the
//! aggregate through an ordered notification stream.
pub mod geometry;
pub mod identity;
pub mod component;
pub mod component_libraries;
pub mod event;
pub mod schema_drawer;
pub mod parsing;
pub mod schema_file;
pub mod schema;
