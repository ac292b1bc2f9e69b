//! A verified core for a small real-time 3D sandbox.
//!
//! The crate plans everything the sandbox does to the graphics context and
//! keeps the state of the scene, in integers only. A thin host program feeds
//! it input events and elapsed time, carries out the commands it records, and
//! works the transforms it names out to numbers.
//!
//! - [`scalar`]: fixed-point numbers and vectors.
//! - [`matrix`]: transforms, as the expressions that define them.
//! - [`command`]: the commands for the graphics interface.
//! - [`gpu`]: the model of the graphics context, and the rules of what it
//!   allows.
//! - [`buffer`], [`shader_program`], [`model`]: the owners of buffers, vertex
//!   arrays, programs and meshes.
//! - [`geometry`]: the box, and what holds of it.
//! - [`camera`], [`spinning_cube`]: the orbit camera and the animated cube.
//! - [`driver`]: input handling and the frame, for a scene of two cubes.
//! - [`lifecycle`]: what holds of making and releasing any number of models.

pub mod scalar;
pub mod matrix;
pub mod command;
pub mod gpu;
pub mod buffer;
pub mod shader_program;
pub mod geometry;
pub mod model;
pub mod camera;
pub mod spinning_cube;
pub mod driver;
pub mod lifecycle;
