pub mod bytes;
pub mod checksum;
pub mod errors;
pub mod text;
