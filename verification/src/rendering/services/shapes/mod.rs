pub mod rect;
pub mod line;
