//! A verified client library for a Mondrian-style REST aggregation service.
//!
//! The library models fully qualified level names and their derived query
//! parameters, a validating query-URL builder, the cube schema description
//! tree, and a schema-driven test-matrix generator.  Every public function
//! carries a contract that pins its result down over sequence-level models
//! of the involved strings.

pub mod api;
pub mod escape;
pub mod schema;
pub mod text;
