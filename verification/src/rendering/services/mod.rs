pub mod buffer;
pub mod effects;
pub mod shapes;
pub mod text;
