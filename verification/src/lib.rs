//! Schema migration planning and CQL query construction for ScyllaDB models.

pub mod args;
pub mod builder;
pub mod clause;
pub mod cql;
pub mod data;
pub mod keys;
pub mod fields;
pub mod laws;
pub mod migration;
pub mod model_impls;
pub mod model_rules;
pub mod modelize;
pub mod native;
pub mod options;
pub mod output_laws;
pub mod plan;
pub mod queries;
pub mod rules;
pub mod schema;
pub mod text;
