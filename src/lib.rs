//! Core of a Wayland windowing backend: window identity, logical-to-physical
//! size conversion, the unified error type, and a cursor-control model shared
//! by ordinary pointers and tablet tools.

pub mod dpi;
pub mod error;
pub mod identity;
pub mod pointer;

pub use dpi::{logical_to_physical_rounded, LogicalSize, PhysicalSize, ScaleFactor};
pub use error::{OsError, WaylandError};
pub use identity::{make_wid, DeviceId, WindowId};
pub use pointer::{CursorRequest, CursorTarget, GenericPointer, PointerDevice, PointerState};
