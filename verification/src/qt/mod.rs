pub mod models;
pub mod navigation;
pub mod format;
pub mod art_cache;
pub mod detail;
pub mod cache_rows;
pub mod art;
pub mod playback_service;
pub mod features;
pub mod runtime;
pub mod app_controller;
