//! The options of each operation.
use vstd::prelude::*;
use crate::archive::archive_base::{ArchiveFileEntityType, ArchiveType};
use crate::archive::codecs::ArchiveCompression;

verus! {

/// The views of a sequence of strings, in order.
pub open spec fn names_of(list: Seq<String>) -> Seq<Seq<char>> {
    list.map_values(|s: String| s@)
}

/// Whether a list of strings holds `name`, character for character.
pub fn contains_name(list: &Vec<String>, name: &str) -> (r: bool)
    ensures
        r == names_of(list@).contains(name@),
{
    let mut i: usize = 0;
    while i < list.len()
        invariant
            i <= list@.len(),
            forall|j: int| 0 <= j < i ==> names_of(list@)[j] != name@,
        decreases list@.len() - i,
    {
        if crate::archive::text::str_equal(list[i].as_str(), name) {
            assert(names_of(list@)[i as int] == name@);
            return true;
        }
        i += 1;
    }
    false
}

/// How to unpack an archive.
#[derive(Debug)]
pub struct ExtractOptions {
    /// The directory to unpack into.
    pub destination: String,
    pub password: Option<String>,
    /// The entries to unpack, by their exact names; all of them where absent.
    pub files: Option<Vec<String>>,
    /// Whether an entry may replace what is already at its destination.
    pub overwrite: bool,
    /// Whether hidden entries are unpacked.
    pub show_hidden: bool,
}

impl Default for ExtractOptions {
    fn default() -> (r: Self)
        ensures
            r.destination@ == "."@,
            r.password is None,
            r.files is None,
            !r.overwrite,
            r.show_hidden,
    {
        ExtractOptions {
            destination: ".".to_owned(),
            password: None,
            files: None,
            overwrite: false,
            show_hidden: true,
        }
    }
}

/// How to list an archive.
#[derive(Debug)]
pub struct ListOptions {
    pub password: Option<String>,
}

impl Default for ListOptions {
    fn default() -> (r: Self)
        ensures
            r.password is None,
    {
        ListOptions { password: None }
    }
}

/// Which entry to open.
#[derive(Debug)]
pub struct OpenOptions {
    /// The exact name of the entry inside the archive.
    pub path: String,
    pub password: Option<String>,
}

/// One input of an archive that is being created: a file or a directory
/// that the caller has read.
#[derive(Debug)]
pub struct SourceFile {
    /// The path that the input was found at.
    pub path: String,
    pub fstype: ArchiveFileEntityType,
    /// The bytes of a file; empty for anything else.
    pub content: Vec<u8>,
    /// When the input was last modified, in seconds since the Unix epoch.
    pub modified: u64,
    /// The permission bits of the input.
    pub mode: u32,
}

/// How to create an archive.
#[derive(Debug)]
pub struct CreateOptions {
    /// Where the archive is to be stored.
    pub destination: String,
    /// The directory that the names inside the archive are relative to.
    pub source: String,
    /// The inputs, in the order in which they go in.
    pub files: Vec<SourceFile>,
    pub password: Option<String>,
    pub archive_type: ArchiveType,
    pub archive_compression: Option<ArchiveCompression>,
    pub overwrite: bool,
    /// Whether hidden inputs go in.
    pub include_hidden: bool,
}

} // verus!
