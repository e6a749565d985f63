pub mod catalog;
pub mod playback;
