pub mod address;
pub mod market;
pub mod registry;
