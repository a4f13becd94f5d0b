pub mod wayland;
