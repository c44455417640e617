pub mod media;
