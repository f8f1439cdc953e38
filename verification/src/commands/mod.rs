pub mod aliases;
pub mod container;
pub mod detail;
pub mod image;
pub mod plugin;
pub mod search;
pub mod system;
pub mod volume;
