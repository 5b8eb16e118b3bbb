//! A small model of a hinged vehicle rig: the bodies of a scene and the
//! joints between them, the groups that decide which colliders meet, the
//! two switches that gate the simulation, the filter that reports changed
//! orientations, and the camera's pan.
//!
//! Lengths are fixed-point integers, `vector::UNIT` steps to one world unit,
//! and turns are the turns that carry the coordinate axes onto each other.
//! The simulation itself, the window and the drawing belong to an engine;
//! of the engine's own types only the keyboard is read here, in `input`.

pub mod camera;
pub mod collision;
pub mod input;
pub mod joint;
pub mod registry;
pub mod report;
pub mod scene;
pub mod shape;
pub mod status;
pub mod toggle;
pub mod vector;
