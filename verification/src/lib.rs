//! Verified core of the Spotix Qt front end: navigation, detail rows,
//! playback bookkeeping, text formatting and audio meter framing.

pub mod audio;
pub mod data;
pub mod qt;
pub mod text;
pub mod text_map;
pub mod widget;
