pub mod font;
pub mod outline;
