pub mod text;
pub mod token;
pub mod category;
pub mod boundary;
pub mod segment;
pub mod analysis;
pub mod stats;
