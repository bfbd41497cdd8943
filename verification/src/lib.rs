//! A minimal real-time rendering core, modelled as verified data and
//! decisions: surface configuration, resource-layout construction, mesh and
//! material descriptors, and the per-frame command-recording protocol.
//! An unverified host owns the window and the GPU device and executes the
//! command plans this library produces.

pub mod bind_group;
pub mod bind_group_layout;
pub mod graphics;
pub mod materials;
pub mod mesh_builder;
pub mod pipeline;
pub mod texture;
pub mod texture_format;
pub mod util;
pub mod vertex;
