//! Inter-module communication and extension layer: an event bus, a module
//! registry and a provider-agnostic AI abstraction.
pub mod ai;
pub mod entities;
pub mod events;
pub mod registry;

pub use ai::AIProvider;
pub use events::EventBus;
pub use registry::AppRegistry;
