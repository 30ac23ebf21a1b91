//! Verified core of a small libretro front end.

pub mod error;
pub mod options;
pub mod text;
pub mod option_file;
pub mod paths;
pub mod system;
pub mod game_tools;
pub mod av_info;
pub mod retro_core;
pub mod environment;
pub mod devices;
pub mod video;
pub mod gl_objects;
pub mod audio;
pub mod database;
