//! Asset import and scene description logic of the `strahl` renderer.
pub mod slot;
pub mod per_texture;
pub mod material_textures;
pub mod reader;
pub mod extract;
pub mod texture;
pub mod raytracer;
pub mod scene_desc;
pub mod interfaces;
pub mod js_api;
pub mod node_api;
pub mod material;
pub mod gpu_alloc;
pub mod camera;
pub mod registry;
pub mod cubemap;
pub mod bloom;
pub mod rasterizer;
pub mod material_read;
