pub mod archive_base;
pub mod archived;
pub mod codecs;
pub mod create;
pub mod datasource;
pub mod detect;
pub mod dispatch;
pub mod entity;
pub mod events;
pub mod extract;
pub mod iso_archive;
pub mod listing;
pub mod magic;
pub mod messages;
pub mod options;
pub mod paths;
pub mod sevenz_archive;
pub mod tar_archive;
pub mod text;
pub mod zip_archive;

pub use crate::archive::archive_base::{
    ArchiveError, ArchiveFileEntityType, ArchiveType, Fault, SkipReason, DEFAULT_BUF_SIZE,
};
pub use crate::archive::archived::Archived;
pub use crate::archive::codecs::{ArchiveCodec, ArchiveCompression, CompressionTag, FinishError};
pub use crate::archive::datasource::{DataSource, Lengthed};
pub use crate::archive::dispatch::Archive;
pub use crate::archive::entity::{
    datetime_from_timestamp, AdditionalMetadata, ArchiveFileEntity, ArchiveMetadata, CreateResult,
    Timestamp,
};
pub use crate::archive::events::{ArchiveEvent, EventView};
pub use crate::archive::extract::{
    extract_with, Disposition, EntryReader, EntryRecord, ExtractedEntry,
};
pub use crate::archive::iso_archive::{
    ISOArchive, IsoDirectory, IsoEntry, IsoFile, IsoSymlink, IsoVolume,
};
pub use crate::archive::magic::{MagicBytesAt, MagicNumbers};
pub use crate::archive::messages::SimpleLogger;
pub use crate::archive::options::{
    CreateOptions, ExtractOptions, ListOptions, OpenOptions, SourceFile,
};
pub use crate::archive::paths::{compute_deepest_common_directory, join_path_with_root};
pub use crate::archive::sevenz_archive::{
    SevenZArchive, SevenZBlock, SevenZEntry, SevenZStreams, SevenZVolume,
};
pub use crate::archive::tar_archive::{AsTarArchiveResult, TarArchive};
pub use crate::archive::zip_archive::ZipArchive;
