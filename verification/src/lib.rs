//! Exclusive capture and relay of a physical mouse.
//!
//! The library holds the verified core of a device-forwarding pipeline:
//! classifying kernel input events, declaring the capability set of a
//! synthetic device, the relay step that copies events verbatim from the
//! physical source to the synthetic sink, and the startup/shutdown state
//! machine that drives acquisition, the relay loop and teardown.
//! The actual device nodes are opened and written by a thin unverified
//! shell around the library.

pub mod capability;
pub mod controller;
pub mod error;
pub mod event;
pub mod identity;
pub mod relay;
pub mod sim;

pub use capability::CapabilitySet;
pub use error::RelayError;
pub use event::EventClass;
pub use event::InputEventRec;
pub use event::MouseButton;
pub use identity::InputIdentity;
