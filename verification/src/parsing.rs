//! The format grammar: decoding of schematic files and component-library
//! files from raw bytes into typed entries. A parse either matches the whole
//! expected structure or produces nothing; there is no partial result.

pub mod common;
pub mod schema;
pub mod library;
