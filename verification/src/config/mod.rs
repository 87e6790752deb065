//! Configuration: the plugin's settings, their defaults, and where
//! credentials are found.

pub mod claude;
pub mod types;
