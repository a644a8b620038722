//! Simulated external resources for validating pipeline components: the codec
//! a component is configured with, the inverse encoder derived from it, and
//! the binding of direction, resource kind and codec into one spawnable unit.
pub mod codec;
pub mod config;
pub mod data_type;
pub mod resource;
