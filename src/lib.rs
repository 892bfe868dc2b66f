//! Frame lifecycle of a windowed GPU application.
//!
//! The run loop itself (window events, GPU calls, host callbacks) is driven
//! from outside; this crate decides, for every event it is handed, how the
//! surface configuration changes and which effects must follow, in which order.
pub mod backend;
pub mod frame;
pub mod guarantees;
pub mod lifecycle;

pub use backend::Backend;
pub use frame::{FrameDelta, PassTarget, SurfaceConfig, WindowSize};
pub use lifecycle::{Action, App, Input, Lifecycle, Stage};
