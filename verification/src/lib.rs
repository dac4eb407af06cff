//! Computational core of an anchor-offset 2D UI layout system.
//!
//! The crate turns a tree of declarative transforms (anchors, offsets,
//! context-relative sizes, rotation, scale, depth bias) into absolute
//! screen-space rectangles, and provides the frame-scoped signal and
//! animation substrate that mutates those descriptions over time.
//!
//! All scalar quantities are carried as saturating fixed-point numbers
//! (see [`fixed`]) so that every computation has an exact, machine-checked
//! contract.

pub mod anchor;
pub mod anim;
pub mod dimension;
pub mod dsl;
pub mod events;
pub mod fixed;
pub mod layout;
pub mod opacity;
pub mod pipeline;
pub mod rect;
pub mod scaling;
pub mod scroll;
pub mod signals;
pub mod vec2;
