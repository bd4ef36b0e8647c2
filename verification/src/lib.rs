pub mod bits;
pub mod matrix;
pub mod mesh;
pub mod render;
pub mod scene;
pub mod shader;
pub mod vertex;
