pub mod codec;
pub mod error;
pub mod id;
pub mod options;
pub mod retrieve;
pub mod text;
