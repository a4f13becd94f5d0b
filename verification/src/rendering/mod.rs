pub mod managers;
pub mod models;
pub mod services;
