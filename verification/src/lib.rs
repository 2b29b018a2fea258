//! Conda recipe generation for Rust crates.
pub mod text;
pub mod sys_deps;
pub mod recipe;
pub mod build_script;
pub mod renderer;
pub mod license_family;
pub mod recipe_builder;
pub mod runtime_deps;
pub mod json;
pub mod source;
pub mod github_graphql;
pub mod crate_inspector;
pub mod conda;
pub mod pipeline;
pub mod workflow;
