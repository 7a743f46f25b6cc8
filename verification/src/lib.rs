//! A safety layer over a foreign, C-ABI rendering/XR runtime.
//!
//! The library is the verified core of that layer: the one-shot
//! initialization gate, the run-loop session that drives per-frame
//! callbacks, and the ownership discipline that ties every native
//! resource handle to the liveness of the runtime that created it.
//! The native calls themselves live outside the library; each verified
//! function here decides what may be done and with which handle, and
//! states that decision in its contract.

pub mod lifecycle;
pub mod material;
pub mod resources;
pub mod settings;

pub use lifecycle::{DrawContext, InitGate, RunSession, SkError, StereoKit};
pub use settings::{Settings, SKSettingsBuilt};
