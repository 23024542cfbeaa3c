pub mod color;
pub mod config;
pub mod errors;
pub mod events;
pub mod get;
pub mod hashes;
pub mod info;
pub mod install;
pub mod interact;
pub mod kvmap;
pub mod pipeline;
pub mod strutil;
pub mod trust;
