//! Control core of a simulated wheeled robot: the instruction set exchanged
//! with the controlling process, the shared-memory channel that carries it,
//! the time-sliced instruction scheduler, the direction lock of the motion
//! model and the grouping of obstacle meshes into faces.
pub mod instruction;
pub mod channel;
pub mod scheduler;
pub mod motion;
pub mod control;
pub mod mesh;
