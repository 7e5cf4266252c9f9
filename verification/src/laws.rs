//! What holds of the library as a whole.

pub mod adapters;
pub mod agents;
pub mod devices;
pub mod ending;
pub mod environment;
pub mod examination;
pub mod frames;
pub mod framework;
pub mod gpus;
pub mod guest;
pub mod hearing;
pub mod install;
pub mod llama;
pub mod modules;
pub mod names;
pub mod nodes;
pub mod output;
pub mod packages;
pub mod platform;
pub mod protocol;
pub mod scripts;
pub mod surroundings;
pub mod text;
pub mod told;
pub mod torch;
pub mod waiting;
pub mod windows;
pub mod wsl;
