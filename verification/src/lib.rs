//! Host examination for ROCm machines.

pub mod ask;
pub mod devices;
pub mod examination;
pub mod framework;
pub mod gfx;
pub mod gpu;
pub mod host;
pub mod install;
pub mod json;
pub mod laws;
pub mod number;
pub mod order;
pub mod platform;
pub mod probe;
pub mod rocminfo;
pub mod split;
pub mod surroundings;
pub mod text;
pub mod textmap;
pub mod unicode;
pub mod utf16;
pub mod wait;
pub mod windows;
pub mod wsl;
