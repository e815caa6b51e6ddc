//! How windows, errors and events are shown to people.
use vstd::prelude::*;
use crate::archive::archive_base::{ArchiveError, SkipReason};
use crate::archive::events::{ArchiveEvent, EventView};
use crate::archive::magic::{MagicBytesAt, MagicNumbers};

use crate::archive::text::{
    decimal_text, hex_text, push_decimal, push_hex, push_str, string_from_chars,
};

verus! {

/// An offset as it is shown: `0x` and at least six hexadecimal digits.
pub open spec fn offset_text(offset: u64) -> Seq<char> {
    "0x"@ + hex_text(offset as nat, 6)
}

/// The first `upto` bytes of a window as hexadecimal pairs with a space
/// between them.
pub open spec fn hex_pairs(bytes: Seq<u8>, upto: int) -> Seq<char>
    decreases upto,
{
    if upto <= 0 {
        Seq::empty()
    } else if upto == 1 {
        hex_text(bytes[0] as nat, 2)
    } else {
        hex_pairs(bytes, upto - 1) + " "@ + hex_text(bytes[upto - 1] as nat, 2)
    }
}

/// The bytes of a window, each as the character with its number.
pub open spec fn byte_chars(bytes: Seq<u8>) -> Seq<char> {
    bytes.map_values(|b: u8| b as char)
}

/// A window shown with its bytes in hexadecimal.
pub open spec fn window_hex_text(offset: u64, bytes: Seq<u8>) -> Seq<char> {
    offset_text(offset) + ": ["@ + hex_pairs(bytes, bytes.len() as int) + "]"@
}

/// A window shown with its bytes as characters.
pub open spec fn window_char_text(offset: u64, bytes: Seq<u8>) -> Seq<char> {
    offset_text(offset) + ": '"@ + byte_chars(bytes) + "'"@
}

/// The windows that detection probed, shown one after the other.
pub open spec fn magic_numbers_text(m: MagicNumbers) -> Seq<char> {
    let (primary, supplementary, terminator) = m.iso;
    "zip at "@ + window_char_text(m.zip.0, m.zip.1@) + ", tar at "@ + window_char_text(
        m.tar.0,
        m.tar.1@,
    ) + ", iso at "@ + window_hex_text(primary.0, primary.1@) + ", iso at "@ + window_hex_text(
        supplementary.0,
        supplementary.1@,
    ) + ", iso at "@ + window_hex_text(terminator.0, terminator.1@)
}

impl<const N: usize> MagicBytesAt<N> {
    /// Appends the window with its bytes in hexadecimal.
    pub fn push_hex_text(&self, out: &mut Vec<char>)
        ensures
            final(out)@ == old(out)@ + window_hex_text(self.0, self.1@),
    {
        push_str(out, "0x");
        push_hex(out, self.0, 6);
        push_str(out, ": [");
        let ghost head = out@;
        let mut i: usize = 0;
        while i < N
            invariant
                i <= N,
                self.1@.len() == N,
                out@ == head + hex_pairs(self.1@, i as int),
            decreases N - i,
        {
            if i > 0 {
                push_str(out, " ");
            }
            push_hex(out, self.1[i] as u64, 2);
            assert(out@ =~= head + hex_pairs(self.1@, i + 1));
            i += 1;
        }
        push_str(out, "]");
        assert(out@ =~= old(out)@ + window_hex_text(self.0, self.1@));
    }

    /// Appends the window with its bytes as characters.
    pub fn push_char_text(&self, out: &mut Vec<char>)
        ensures
            final(out)@ == old(out)@ + window_char_text(self.0, self.1@),
    {
        push_str(out, "0x");
        push_hex(out, self.0, 6);
        push_str(out, ": '");
        let ghost head = out@;
        let mut i: usize = 0;
        while i < N
            invariant
                i <= N,
                self.1@.len() == N,
                out@ == head + byte_chars(self.1@).take(i as int),
            decreases N - i,
        {
            out.push(self.1[i] as char);
            assert(out@ =~= head + byte_chars(self.1@).take(i + 1));
            i += 1;
        }
        assert(byte_chars(self.1@).take(N as int) =~= byte_chars(self.1@));
        push_str(out, "'");
        assert(out@ =~= old(out)@ + window_char_text(self.0, self.1@));
    }

    /// The window with its bytes in hexadecimal: `0x008001: [43 44 30 30 31]`.
    pub fn to_hex_string(&self) -> (r: String)
        ensures
            r@ == window_hex_text(self.0, self.1@),
    {
        let mut out: Vec<char> = Vec::new();
        self.push_hex_text(&mut out);
        string_from_chars(&out)
    }

    /// The window with its bytes as characters: `0x000000: 'PK..'`.
    pub fn to_string(&self) -> (r: String)
        ensures
            r@ == window_char_text(self.0, self.1@),
    {
        let mut out: Vec<char> = Vec::new();
        self.push_char_text(&mut out);
        string_from_chars(&out)
    }
}

impl MagicNumbers {
    /// Every window that was probed: those for zip and tar with their bytes
    /// as characters, those for iso in hexadecimal.
    pub fn to_string(&self) -> (r: String)
        ensures
            r@ == magic_numbers_text(*self),
    {
        let (primary, supplementary, terminator) = self.iso;
        let mut out: Vec<char> = Vec::new();
        push_str(&mut out, "zip at ");
        self.zip.push_char_text(&mut out);
        push_str(&mut out, ", tar at ");
        self.tar.push_char_text(&mut out);
        push_str(&mut out, ", iso at ");
        primary.push_hex_text(&mut out);
        push_str(&mut out, ", iso at ");
        supplementary.push_hex_text(&mut out);
        push_str(&mut out, ", iso at ");
        terminator.push_hex_text(&mut out);
        assert(out@ =~= magic_numbers_text(*self));
        string_from_chars(&out)
    }
}

/// What `std::io::Error` shows of itself (its `Display`).
#[verifier::external_body]
fn io_error_text(e: &std::io::Error) -> String {
    e.to_string()
}

/// What `zip::result::ZipError` shows of itself (its `Display`).
#[verifier::external_body]
fn zip_error_text(e: &zip::result::ZipError) -> String {
    e.to_string()
}

/// What `zip::result::InvalidPassword` shows of itself (its `Display`).
#[verifier::external_body]
fn password_error_text(e: &zip::result::InvalidPassword) -> String {
    e.to_string()
}

/// What `sevenz_rust::Error` shows of itself (its `Display`).
#[verifier::external_body]
fn sevenz_error_text(e: &sevenz_rust::Error) -> String {
    e.to_string()
}

/// What `lzma::LzmaError` shows of itself (its `Display`).
#[verifier::external_body]
fn lzma_error_text(e: &lzma::LzmaError) -> String {
    e.to_string()
}

/// An error as it is shown, where `detail` is what an error of an outside
/// library shows of itself; an error without one is shown without it.
pub open spec fn error_text(e: ArchiveError, detail: Seq<char>) -> Seq<char> {
    match e {
        ArchiveError::Zip(_) => "ZipError: "@ + detail,
        ArchiveError::Password(_) => "PasswordError: "@ + detail,
        ArchiveError::Io(_) => detail,
        ArchiveError::Tar(_) => "TarError: "@ + detail,
        ArchiveError::SevenZ(_) => "SevenZError: "@ + detail,
        ArchiveError::Iso(text) => "ISOError: "@ + text@,
        ArchiveError::Lzma(_) => "LzmaError: "@ + detail,
        ArchiveError::UnknownArchiveType(m) => "Unknown archive type, magic numbers: "@
            + magic_numbers_text(m),
        ArchiveError::UnknownFileExtension(name) => "Unknown file extension: "@ + name@,
        ArchiveError::InvalidDataSource(name) => "Invalid data source for the archive: "@ + name@,
        ArchiveError::Finish(name, _) => "FinishError: Failed to finish encoder "@ + name@ + ": "@
            + detail,
        ArchiveError::UnsupportedCompression(c) => "Unsupported compression: "@ + c@.label(),
        ArchiveError::CompressionMethodRequired => "Compression method required for this type of archive."@,
        ArchiveError::UnsupportedActionForArchiveType(action, kind) => "Action `"@ + action@
            + "` is unsupported for "@ + kind.label() + " archives."@,
        ArchiveError::Json(text) => "JsonError: "@ + text@,
        ArchiveError::EntryNotFound(path) => "Entry not found: "@ + path@,
    }
}

impl ArchiveError {
    /// Appends the error as it is shown.
    pub fn push_text(&self, out: &mut Vec<char>)
        ensures
            exists|detail: Seq<char>| final(out)@ == old(out)@ + error_text(*self, detail),
    {
        let ghost before = out@;
        match self {
            ArchiveError::Zip(e) => {
                let detail = zip_error_text(e);
                push_str(out, "ZipError: ");
                push_str(out, detail.as_str());
                assert(out@ =~= before + error_text(*self, detail@));
            },
            ArchiveError::Password(e) => {
                let detail = password_error_text(e);
                push_str(out, "PasswordError: ");
                push_str(out, detail.as_str());
                assert(out@ =~= before + error_text(*self, detail@));
            },
            ArchiveError::Io(e) => {
                let detail = io_error_text(e);
                push_str(out, detail.as_str());
                assert(out@ =~= before + error_text(*self, detail@));
            },
            ArchiveError::Tar(e) => {
                let detail = io_error_text(e);
                push_str(out, "TarError: ");
                push_str(out, detail.as_str());
                assert(out@ =~= before + error_text(*self, detail@));
            },
            ArchiveError::SevenZ(e) => {
                let detail = sevenz_error_text(e);
                push_str(out, "SevenZError: ");
                push_str(out, detail.as_str());
                assert(out@ =~= before + error_text(*self, detail@));
            },
            ArchiveError::Iso(text) => {
                push_str(out, "ISOError: ");
                push_str(out, text.as_str());
                assert(out@ =~= before + error_text(*self, Seq::empty()));
            },
            ArchiveError::Lzma(e) => {
                let detail = lzma_error_text(e);
                push_str(out, "LzmaError: ");
                push_str(out, detail.as_str());
                assert(out@ =~= before + error_text(*self, detail@));
            },
            ArchiveError::UnknownArchiveType(m) => {
                let shown = m.to_string();
                push_str(out, "Unknown archive type, magic numbers: ");
                push_str(out, shown.as_str());
                assert(out@ =~= before + error_text(*self, Seq::empty()));
            },
            ArchiveError::UnknownFileExtension(name) => {
                push_str(out, "Unknown file extension: ");
                push_str(out, name.as_str());
                assert(out@ =~= before + error_text(*self, Seq::empty()));
            },
            ArchiveError::InvalidDataSource(name) => {
                push_str(out, "Invalid data source for the archive: ");
                push_str(out, name.as_str());
                assert(out@ =~= before + error_text(*self, Seq::empty()));
            },
            ArchiveError::Finish(name, e) => {
                let detail = io_error_text(e);
                push_str(out, "FinishError: Failed to finish encoder ");
                push_str(out, name.as_str());
                push_str(out, ": ");
                push_str(out, detail.as_str());
                assert(out@ =~= before + error_text(*self, detail@));
            },
            ArchiveError::UnsupportedCompression(c) => {
                let label = c.to_string();
                push_str(out, "Unsupported compression: ");
                push_str(out, label.as_str());
                assert(out@ =~= before + error_text(*self, Seq::empty()));
            },
            ArchiveError::CompressionMethodRequired => {
                push_str(out, "Compression method required for this type of archive.");
                assert(out@ =~= before + error_text(*self, Seq::empty()));
            },
            ArchiveError::UnsupportedActionForArchiveType(action, kind) => {
                let label = kind.to_string();
                push_str(out, "Action `");
                push_str(out, action.as_str());
                push_str(out, "` is unsupported for ");
                push_str(out, label.as_str());
                push_str(out, " archives.");
                assert(out@ =~= before + error_text(*self, Seq::empty()));
            },
            ArchiveError::Json(text) => {
                push_str(out, "JsonError: ");
                push_str(out, text.as_str());
                assert(out@ =~= before + error_text(*self, Seq::empty()));
            },
            ArchiveError::EntryNotFound(path) => {
                push_str(out, "Entry not found: ");
                push_str(out, path.as_str());
                assert(out@ =~= before + error_text(*self, Seq::empty()));
            },
        }
    }

    /// The error as it is shown: what kind of error it is, and what it
    /// carries. Where it carries an error of an outside library, that error
    /// shows itself.
    pub fn to_string(&self) -> (r: String)
        ensures
            exists|detail: Seq<char>| r@ == error_text(*self, detail),
    {
        let mut out: Vec<char> = Vec::new();
        self.push_text(&mut out);
        assert(forall|detail: Seq<char>|
            Seq::<char>::empty() + #[trigger] error_text(*self, detail) =~= error_text(
                *self,
                detail,
            ));
        string_from_chars(&out)
    }
}

/// How a reason to pass over an entry is worded around the name of the
/// entry.
pub open spec fn skipped_text(name: Seq<char>, reason: SkipReason) -> Seq<char> {
    match reason {
        SkipReason::Hidden => "Skipped hidden file "@ + name,
        SkipReason::NotInFiles => "Skipped file "@ + name + " not in files"@,
        SkipReason::AlreadyExists => "Skipped file "@ + name + " already exists"@,
        SkipReason::UnknownType => "Skipped file "@ + name + " with unknown type"@,
    }
}

/// The line that stands for an event, where `failure` is how the error of a
/// failed read is shown.
pub open spec fn event_text(e: EventView, failure: Seq<char>) -> Seq<char> {
    match e {
        EventView::Extracting(name, Some(size)) => "Extracting "@ + name + " ("@ + decimal_text(
            size as nat,
        ) + ")"@,
        EventView::Extracting(name, None) => "Extracting "@ + name,
        EventView::DoneExtracting(name, to) => "Done extracting "@ + name + " to "@ + to,
        EventView::FailedToReadEntry(name, _) => "Failed to read entry "@ + name + ": "@ + failure,
        EventView::Created(name, kind) => "Created "@ + kind.label() + ": "@ + name,
        EventView::Skipped(name, reason) => skipped_text(name, reason),
        EventView::Log(text) => text,
    }
}

/// Words events as lines for people to read.
#[derive(Debug)]
pub struct SimpleLogger;

impl SimpleLogger {
    /// The line that stands for an event. For an entry that could not be
    /// read, the line ends in the error as it shows itself.
    pub fn message(&self, event: &ArchiveEvent) -> (r: String)
        ensures
            match event {
                ArchiveEvent::FailedToReadEntry(_, error) => exists|detail: Seq<char>|
                    r@ == event_text(event@, error_text(*error, detail)),
                _ => r@ == event_text(event@, Seq::empty()),
            },
    {
        let mut out: Vec<char> = Vec::new();
        match event {
            ArchiveEvent::Extracting(name, size) => {
                push_str(&mut out, "Extracting ");
                push_str(&mut out, name.as_str());
                match size {
                    Some(n) => {
                        push_str(&mut out, " (");
                        push_decimal(&mut out, *n);
                        push_str(&mut out, ")");
                    },
                    None => {},
                }
                assert(out@ =~= event_text(event@, Seq::empty()));
            },
            ArchiveEvent::DoneExtracting(name, to) => {
                push_str(&mut out, "Done extracting ");
                push_str(&mut out, name.as_str());
                push_str(&mut out, " to ");
                push_str(&mut out, to.as_str());
                assert(out@ =~= event_text(event@, Seq::empty()));
            },
            ArchiveEvent::FailedToReadEntry(name, error) => {
                push_str(&mut out, "Failed to read entry ");
                push_str(&mut out, name.as_str());
                push_str(&mut out, ": ");
                let ghost head = out@;
                error.push_text(&mut out);
                proof {
                    let detail = choose|detail: Seq<char>|
                        out@ == head + error_text(*error, detail);
                    assert(out@ =~= event_text(event@, error_text(*error, detail)));
                }
            },
            ArchiveEvent::Created(name, kind) => {
                let label = kind.to_string();
                push_str(&mut out, "Created ");
                push_str(&mut out, label.as_str());
                push_str(&mut out, ": ");
                push_str(&mut out, name.as_str());
                assert(out@ =~= event_text(event@, Seq::empty()));
            },
            ArchiveEvent::Skipped(name, reason) => {
                match reason {
                    SkipReason::Hidden => {
                        push_str(&mut out, "Skipped hidden file ");
                        push_str(&mut out, name.as_str());
                    },
                    SkipReason::NotInFiles => {
                        push_str(&mut out, "Skipped file ");
                        push_str(&mut out, name.as_str());
                        push_str(&mut out, " not in files");
                    },
                    SkipReason::AlreadyExists => {
                        push_str(&mut out, "Skipped file ");
                        push_str(&mut out, name.as_str());
                        push_str(&mut out, " already exists");
                    },
                    SkipReason::UnknownType => {
                        push_str(&mut out, "Skipped file ");
                        push_str(&mut out, name.as_str());
                        push_str(&mut out, " with unknown type");
                    },
                }
                assert(out@ =~= event_text(event@, Seq::empty()));
            },
            ArchiveEvent::Log(text) => {
                push_str(&mut out, text.as_str());
                assert(out@ =~= event_text(event@, Seq::empty()));
            },
        }
        string_from_chars(&out)
    }
}

} // verus!
