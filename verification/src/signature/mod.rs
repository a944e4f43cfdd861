pub mod tags;

pub use tags::Tag;
