pub mod meter;
