pub mod remote_image;
