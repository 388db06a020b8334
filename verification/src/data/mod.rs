//! Data layer: domain vocabulary and the decisions of the store and the provider.

pub mod provider;
pub mod store;
pub mod types;
pub mod yahoo;
