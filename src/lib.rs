pub mod cache;
pub mod config;
pub mod error;
pub mod key_rotation;
pub mod mineskin;
pub mod mojang;
pub mod outcome;
pub mod resolver;
pub mod subject;
