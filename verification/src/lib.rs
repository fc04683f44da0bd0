//! Device resource handles: typed, reference-counted handles to the
//! resources of a rendering back end, and the manager that keeps every
//! handle handed out or referenced by a command buffer alive until it is
//! cleaned up.

pub mod handle;
pub mod info;
pub mod positions;
pub mod shared;
