//! Boundary layer that exposes a contract-verification engine to a managed
//! host runtime.
//!
//! The bridge marshals closed-set domain values between the host-facing
//! shapes (`host`) and the engine-facing shapes (`engine`): every conversion
//! in `adapt` is proved lossless over the shared model in `model`. The
//! dispatch entry point in `dispatch` prepares one verification call and
//! translates the engine's outcome into either a boolean or a raised error
//! with a stable tag. `boundary` holds the once-only initialization plan and
//! the structured report built when a native fault is contained.

pub mod adapt;
pub mod boundary;
pub mod dispatch;
pub mod engine;
pub mod host;
pub mod laws;
pub mod model;
