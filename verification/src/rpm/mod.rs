pub mod builder;
pub mod file;
pub mod info;
pub mod roundtrip;

pub use builder::{RPMBuilder, Scriptlets};
pub use file::{Compressor, RPMFile};
pub use info::RPMInfo;
