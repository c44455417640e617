pub mod jitter_buffer;
pub mod mix;
