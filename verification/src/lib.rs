//! Frame orchestration core for an interactive real-time renderer.
//!
//! The crate models the decision logic that drives a GPU presentation loop:
//! gathering per-entity lights into fixed-capacity frame descriptors,
//! pacing frame production at a target interval, sequencing each draw
//! (recreate-if-dirty, acquire, submit, present) with a single in-flight
//! future, and versioning the swapchain resource bundle that is rebuilt
//! wholesale on resize or staleness.
//!
//! The platform work itself (device and window creation, command recording,
//! presentation, asset loading) is performed by an unverified driver around
//! this crate; the driver reports each platform outcome back as a plain
//! value and the functions here decide what happens next.

pub mod frame_times;
pub mod game;
pub mod graphics;
pub mod orchestrator;
pub mod pacer;
pub mod scene;
pub mod world;
