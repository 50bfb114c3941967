//! A registry of factories, one for each type of dependency.

pub mod dependency_provider;
pub mod encoding;
pub mod global_provider;
pub mod laws;
pub mod provider_function;
pub mod provider_table;

pub use dependency_provider::DependencyProvider;
