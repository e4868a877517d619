//! Core logic of a transparent desktop overlay: colour conversion, scene
//! animation state, per-frame composition, and the bootstrap and event-loop
//! protocols. All quantities are fixed-point integers in thousandths of a
//! unit, so the logic is deterministic and fully verified; the thin shell
//! that talks to the window system and the GPU converts at the boundary.

pub mod bootstrap;
pub mod color;
pub mod compose;
pub mod events;
pub mod scene;
