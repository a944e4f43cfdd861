pub mod archive;
pub mod builder;
pub mod cpio;
pub mod extract;
pub mod info;
pub mod roundtrip;

pub use archive::{io_copy_exact, read_entries, read_entry, CpioRead, CpioWriter};
pub use builder::{CpioBuilder, CpioEntries, CpioFiles, FileMeta};
pub use cpio::{major, minor, FileEntry, FileEntryView};
pub use extract::{
    check_within, extract_entries, extract_entry, is_safe_path, ownership_to_set, parent_decision,
    ExtractStep, Extraction, Interrupted, Ownership,
};
pub use info::{FileFlags, FileInfo, RPMPayload};
