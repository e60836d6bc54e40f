//! Render-target adapters over a window shared between several holders.
//!
//! The adapter state (framebuffer handle, clear mask, gamma mode and the
//! gamma capability flag) lives in [`output::OutputState`]; the two variants
//! differ only in how the window itself is shared: [`shared::SharedOutput`]
//! for one thread, [`sync::SyncOutput`] across threads.

pub mod output;
pub mod shared;
pub mod sync;

pub use output::{AccessError, ClearMask, CapabilityError, GammaMode, OutputModel, OutputState, size_from_report, to_target_size};
pub use shared::SharedOutput;
pub use sync::SyncOutput;
