//! Decision core of a bridge that mirrors X11 windows into a VR desktop shell.
//!
//! Every outside effect (X11 round trips, GPU calls, scene-graph updates, input
//! injection) is performed by the embedding program. This crate holds the state
//! and the rules: which windows are admitted, where they are placed, how GPU
//! resources are handed between the two graphics contexts, and in which order
//! everything is torn down again.

pub mod geometry;
pub mod guard;
pub mod texture;
pub mod texture_set;
pub mod handoff;
pub mod window;
pub mod lifecycle;
pub mod registry;
pub mod admission;
pub mod input;
pub mod startup;
pub mod router;
pub mod visual;
pub mod worker;
pub mod cursor;
pub mod gulkan;
