pub mod buffer;
pub mod echo;
pub mod feed;
pub mod modes;
pub mod pacing;
pub mod position;
pub mod window;
