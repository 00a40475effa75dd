//! Interaction and animation core of a small 3D scene editor.
//!
//! The engine around it (window, renderer, asset loading, UI widgets) is an
//! external collaborator; this crate holds the hand-written logic: the
//! pointer-driven pick/drag/drop state machine, the spin-decay animator it
//! triggers, the orbit-camera controller, and the per-frame screen-space
//! reservation snapshot. Angles and world coordinates are fixed-point
//! integers so that every rule here is exact and provable.

pub mod camera;
pub mod fixed;
pub mod frame;
pub mod scene;
pub mod spin;
pub mod style;
pub mod ui;
pub mod world;
