//! The types shared by every container format: kinds of container and of
//! entry, entries and metadata, events, and the error taxonomy.
use vstd::prelude::*;
use crate::archive::codecs::ArchiveCompression;
use crate::archive::magic::MagicNumbers;
use crate::archive::text::str_equal;

verus! {

/// Size of the buffers that callers should use when they move archive bytes.
pub const DEFAULT_BUF_SIZE: usize = 32768;

#[verifier::external_type_specification]
#[verifier::external_body]
pub struct ExIoError(std::io::Error);

#[verifier::external_type_specification]
#[verifier::external_body]
pub struct ExZipError(zip::result::ZipError);

#[verifier::external_type_specification]
#[verifier::external_body]
pub struct ExInvalidPassword(zip::result::InvalidPassword);

#[verifier::external_type_specification]
#[verifier::external_body]
pub struct ExSevenZError(sevenz_rust::Error);

#[verifier::external_type_specification]
#[verifier::external_body]
pub struct ExLzmaError(lzma::LzmaError);

/// The container formats that the library handles.
#[derive(Debug, PartialEq, Eq, Clone, Copy, Structural)]
pub enum ArchiveType {
    Zip,
    Tar,
    SevenZ,
    Iso,
}

impl ArchiveType {
    /// The short name of the format.
    pub open spec fn label(self) -> Seq<char> {
        match self {
            ArchiveType::Zip => "zip"@,
            ArchiveType::Tar => "tar"@,
            ArchiveType::SevenZ => "7z"@,
            ArchiveType::Iso => "iso"@,
        }
    }

    pub fn to_string(&self) -> (r: String)
        ensures
            r@ == self.label(),
    {
        match self {
            ArchiveType::Zip => "zip".to_owned(),
            ArchiveType::Tar => "tar".to_owned(),
            ArchiveType::SevenZ => "7z".to_owned(),
            ArchiveType::Iso => "iso".to_owned(),
        }
    }
}

/// What an entry of a container is.
#[derive(Debug, PartialEq, Eq, Clone, Copy, Structural)]
pub enum ArchiveFileEntityType {
    File,
    Directory,
    SymbolicLink,
    Unknown,
}

impl ArchiveFileEntityType {
    /// The word that stands for the kind in listings.
    pub open spec fn label(self) -> Seq<char> {
        match self {
            ArchiveFileEntityType::File => "file"@,
            ArchiveFileEntityType::Directory => "dir"@,
            ArchiveFileEntityType::SymbolicLink => "symlink"@,
            ArchiveFileEntityType::Unknown => "unknown"@,
        }
    }

    /// The kind that a word of a listing stands for.
    pub open spec fn parse(word: Seq<char>) -> Option<ArchiveFileEntityType> {
        if word == "file"@ {
            Some(ArchiveFileEntityType::File)
        } else if word == "dir"@ {
            Some(ArchiveFileEntityType::Directory)
        } else if word == "symlink"@ {
            Some(ArchiveFileEntityType::SymbolicLink)
        } else if word == "unknown"@ {
            Some(ArchiveFileEntityType::Unknown)
        } else {
            None
        }
    }

    pub fn to_string(&self) -> (r: String)
        ensures
            r@ == self.label(),
    {
        match self {
            ArchiveFileEntityType::File => "file".to_owned(),
            ArchiveFileEntityType::Directory => "dir".to_owned(),
            ArchiveFileEntityType::SymbolicLink => "symlink".to_owned(),
            ArchiveFileEntityType::Unknown => "unknown".to_owned(),
        }
    }

    /// Reads a kind back from its word; any other word is refused.
    pub fn try_from(value: &str) -> (r: Result<ArchiveFileEntityType, ()>)
        ensures
            r is Ok <==> Self::parse(value@) is Some,
            r matches Ok(kind) ==> Self::parse(value@) == Some(kind),
    {
        if str_equal(value, "file") {
            Ok(ArchiveFileEntityType::File)
        } else if str_equal(value, "dir") {
            Ok(ArchiveFileEntityType::Directory)
        } else if str_equal(value, "symlink") {
            Ok(ArchiveFileEntityType::SymbolicLink)
        } else if str_equal(value, "unknown") {
            Ok(ArchiveFileEntityType::Unknown)
        } else {
            Err(())
        }
    }
}

/// Why an entry was passed over.
#[derive(Debug, PartialEq, Eq, Clone, Copy, Structural)]
pub enum SkipReason {
    Hidden,
    NotInFiles,
    AlreadyExists,
    UnknownType,
}

/// The kinds of error, without what an error carries.
#[derive(Debug, PartialEq, Eq, Clone, Copy, Structural)]
pub enum Fault {
    Zip,
    Password,
    Tar,
    SevenZ,
    Io,
    Iso,
    Lzma,
    UnknownArchiveType,
    UnknownFileExtension,
    InvalidDataSource,
    Finish,
    UnsupportedCompression,
    CompressionMethodRequired,
    UnsupportedActionForArchiveType,
    Json,
    EntryNotFound,
}

/// Everything that can go wrong in an operation on an archive.
#[derive(Debug)]
pub enum ArchiveError {
    /// The zip container is corrupt or cannot be read.
    Zip(zip::result::ZipError),
    /// The password does not decrypt the zip entry.
    Password(zip::result::InvalidPassword),
    /// The tar container is corrupt or cannot be written.
    Tar(std::io::Error),
    /// The 7z container is corrupt, or its password is wrong.
    SevenZ(sevenz_rust::Error),
    /// A byte stream could not be read or written.
    Io(std::io::Error),
    /// The ISO 9660 volume is corrupt; the text says how.
    Iso(String),
    /// The xz codec refused its input.
    Lzma(lzma::LzmaError),
    /// No known signature was found; every probed window is kept.
    UnknownArchiveType(MagicNumbers),
    /// The file name does not end in a known archive extension.
    UnknownFileExtension(String),
    /// The source cannot back an archive; the text names it.
    InvalidDataSource(String),
    /// An encoder could not write its epilogue; the text names the encoder.
    Finish(String, std::io::Error),
    /// The compression has no codec in this library.
    UnsupportedCompression(ArchiveCompression),
    /// The container needs a compression and none was given.
    CompressionMethodRequired,
    /// The action, named by the text, is not offered for this container.
    UnsupportedActionForArchiveType(String, ArchiveType),
    /// Metadata could not be encoded; the text says why.
    Json(String),
    /// The container has no entry under this path.
    EntryNotFound(String),
}

impl ArchiveError {
    /// The kind of the error.
    pub open spec fn fault(&self) -> Fault {
        match self {
            ArchiveError::Zip(_) => Fault::Zip,
            ArchiveError::Password(_) => Fault::Password,
            ArchiveError::Tar(_) => Fault::Tar,
            ArchiveError::SevenZ(_) => Fault::SevenZ,
            ArchiveError::Io(_) => Fault::Io,
            ArchiveError::Iso(_) => Fault::Iso,
            ArchiveError::Lzma(_) => Fault::Lzma,
            ArchiveError::UnknownArchiveType(_) => Fault::UnknownArchiveType,
            ArchiveError::UnknownFileExtension(_) => Fault::UnknownFileExtension,
            ArchiveError::InvalidDataSource(_) => Fault::InvalidDataSource,
            ArchiveError::Finish(_, _) => Fault::Finish,
            ArchiveError::UnsupportedCompression(_) => Fault::UnsupportedCompression,
            ArchiveError::CompressionMethodRequired => Fault::CompressionMethodRequired,
            ArchiveError::UnsupportedActionForArchiveType(_, _) => Fault::UnsupportedActionForArchiveType,
            ArchiveError::Json(_) => Fault::Json,
            ArchiveError::EntryNotFound(_) => Fault::EntryNotFound,
        }
    }

    /// The kind of the error.
    pub fn kind(&self) -> (r: Fault)
        ensures
            r == self.fault(),
    {
        match self {
            ArchiveError::Zip(_) => Fault::Zip,
            ArchiveError::Password(_) => Fault::Password,
            ArchiveError::Tar(_) => Fault::Tar,
            ArchiveError::SevenZ(_) => Fault::SevenZ,
            ArchiveError::Io(_) => Fault::Io,
            ArchiveError::Iso(_) => Fault::Iso,
            ArchiveError::Lzma(_) => Fault::Lzma,
            ArchiveError::UnknownArchiveType(_) => Fault::UnknownArchiveType,
            ArchiveError::UnknownFileExtension(_) => Fault::UnknownFileExtension,
            ArchiveError::InvalidDataSource(_) => Fault::InvalidDataSource,
            ArchiveError::Finish(_, _) => Fault::Finish,
            ArchiveError::UnsupportedCompression(_) => Fault::UnsupportedCompression,
            ArchiveError::CompressionMethodRequired => Fault::CompressionMethodRequired,
            ArchiveError::UnsupportedActionForArchiveType(_, _) => Fault::UnsupportedActionForArchiveType,
            ArchiveError::Json(_) => Fault::Json,
            ArchiveError::EntryNotFound(_) => Fault::EntryNotFound,
        }
    }
}

} // verus!
