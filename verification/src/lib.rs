//! Draw batching for textured, indexed 3D meshes.
//!
//! The crate holds the decisions of a small 3D renderer: the vertex and
//! instance layouts of its pipeline, the bytes that go into GPU buffers, the
//! per-frame queue of draw commands and what one frame records from it. It
//! creates no GPU object itself: each function returns a description of what
//! is to be created, written or drawn, and GPU objects are known to it by the
//! handles that their owner gave them.
//!
//! Numbers that the GPU reads as 32-bit IEEE 754 values are held by their bit
//! patterns (see [`scalar`]): the crate stores, copies and packs them, and
//! leaves every computation on them to functions that its callers hand in.
//!
//! - [`scalar`]: scalars, vectors, colours, and the memory image of words.
//! - [`layout`]: how a vertex buffer is read.
//! - [`descriptor`]: shaders, bind groups, buffers and the render pipeline.
//! - [`mesh`]: vertices, meshes, instance records and their upload.
//! - [`camera`]: camera, projection and the camera uniform.
//! - [`canvas`]: the queue of draw commands and the frame.
//! - [`pipeline`]: the plain pipeline, without instances or shader choice.
//! - [`store`]: GPU objects under handles.

pub mod camera;
pub mod canvas;
pub mod descriptor;
pub mod layout;
pub mod mesh;
pub mod pipeline;
pub mod scalar;
pub mod store;
