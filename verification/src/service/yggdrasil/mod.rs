//! Yggdrasil (Minecraft authentication server) API implementation

pub mod api;
pub mod types;
pub mod texture;
