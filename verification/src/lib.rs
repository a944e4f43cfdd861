pub mod error;
pub mod header;
pub mod lead;
pub mod payload;
pub mod raw;
pub mod reader;
pub mod rpm;
pub mod signature;
pub mod utils;

pub use rpm::{Compressor, RPMBuilder, RPMFile, RPMInfo};
