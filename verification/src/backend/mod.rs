//! Backend abstraction. The console depends only on normalized models and
//! on what a backend declares it can do, never on raw FortiGate responses.

pub mod capabilities;
pub mod direct;
pub mod traits;

pub use capabilities::Capabilities;
pub use traits::{AddressFamily, SessionFilter};
