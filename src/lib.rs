pub mod buffers;
pub mod context;
pub mod errors;
pub mod scene_graph;
pub mod shaders;
pub mod shapes;
pub mod textures;
