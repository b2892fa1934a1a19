pub mod fx;
pub mod sampler;
pub mod math;
pub mod ray;
pub mod aabb;
pub mod textures;
pub mod onb;
pub mod hittable;
pub mod materials;
pub mod objects;
pub mod bvh;
pub mod pdf;
pub mod render;
