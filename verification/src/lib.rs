//! An archive-processing engine over in-memory byte sources: it recognises the
//! container format and compression of a source, and lists, extracts, creates
//! or opens entries of Zip, Tar, 7z and ISO 9660 containers.
pub mod archive;
