//! Recognising the container format and the compression of a source: by the
//! signatures in its bytes, or, where no bytes exist yet, by a file name.
use vstd::prelude::*;
use crate::archive::archive_base::{ArchiveError, ArchiveType};
use crate::archive::codecs::{decoded_prefix, ArchiveCodec, ArchiveCompression, CompressionTag};
use crate::archive::datasource::{unexpected_end, DataSource};
use crate::archive::magic::{
    has_iso_identifier, has_sevenz_signature, has_ustar_magic, has_zip_signature, holds_window,
    is_iso_identifier, is_sevenz_signature, is_ustar_magic, is_zip_signature, probe, window,
    MagicBytesAt, MagicNumbers, Probe, ISO_PRIMARY_OFFSET, ISO_SUPPLEMENTARY_OFFSET,
    ISO_TERMINATOR_OFFSET, TAR_MAGIC_OFFSET,
};
use crate::archive::text::{chars_of, last_index_of, rfind_char, str_equal, substring};

verus! {

/// The compression codec whose signature stands at the start of a window
/// that was read at `offset`; only a window at offset 0 can tell.
pub open spec fn sniffed_compression(offset: u64, w: Seq<u8>) -> Option<CompressionTag> {
    if offset != 0 || w.len() < 8 {
        None
    } else if w[0] == 0x1f && w[1] == 0x8b {
        Some(CompressionTag::Gzip)
    } else if w[0] == 0x42 && w[1] == 0x5a && w[2] == 0x68 {
        Some(CompressionTag::Bzip2)
    } else if w[0] == 0xfd && w[1] == 0x37 && w[2] == 0x7a && w[3] == 0x58 && w[4] == 0x5a && w[5]
        == 0x00 {
        Some(CompressionTag::Lzma)
    } else if w[0] == 0x28 && w[1] == 0xb5 && w[2] == 0x2f && w[3] == 0xfd {
        Some(CompressionTag::Zstd)
    } else {
        None
    }
}

/// Whether all three windows are whole and hold the ISO 9660 identifier.
pub open spec fn all_iso_identifiers(iso: (Probe<5>, Probe<5>, Probe<5>)) -> bool {
    let (primary, supplementary, terminator) = iso;
    &&& primary.whole && is_iso_identifier(primary.found.1@)
    &&& supplementary.whole && is_iso_identifier(supplementary.found.1@)
    &&& terminator.whole && is_iso_identifier(terminator.found.1@)
}

/// How many decoded bytes detection needs to see the ustar magic of a
/// compressed tar.
pub const INNER_PROBE_LEN: u64 = 265;

/// What the windows of a source say about it. A window says something only
/// where the source held every byte of it. `inner` is the codec that the
/// first window names together with the window found under it, where the
/// codec could be read.
pub open spec fn classification(
    zip: Probe<8>,
    tar: Probe<8>,
    inner: Option<(CompressionTag, Probe<8>)>,
    iso: (Probe<5>, Probe<5>, Probe<5>),
) -> Result<(ArchiveType, CompressionTag), MagicNumbers> {
    if zip.whole && is_zip_signature(zip.found.1@) {
        Ok((ArchiveType::Zip, CompressionTag::Uncompressed))
    } else if zip.whole && is_sevenz_signature(zip.found.1@) {
        Ok((ArchiveType::SevenZ, CompressionTag::Uncompressed))
    } else if tar.whole && is_ustar_magic(tar.found.1@) {
        Ok((ArchiveType::Tar, CompressionTag::Uncompressed))
    } else if inner matches Some((tag, under)) && under.whole && is_ustar_magic(under.found.1@) {
        Ok((ArchiveType::Tar, inner.unwrap().0))
    } else if all_iso_identifiers(iso) {
        Ok((ArchiveType::Iso, CompressionTag::Uncompressed))
    } else {
        let (primary, supplementary, terminator) = iso;
        Err(
            MagicNumbers {
                zip: zip.found,
                tar: match inner {
                    Some((tag, under)) => under.found,
                    None => tar.found,
                },
                iso: (primary.found, supplementary.found, terminator.found),
            },
        )
    }
}

/// The codec that the first eight bytes of a source name, where the source
/// holds that many.
pub open spec fn leading_compression(bytes: Seq<u8>) -> Option<CompressionTag> {
    if holds_window(bytes, 0, 8) {
        sniffed_compression(0, window(bytes, 0, 8))
    } else {
        None
    }
}

/// Whether a source shows the signature of a zip archive: it holds the
/// eight bytes of the first window, and they start with the signature.
pub open spec fn shows_zip(bytes: Seq<u8>) -> bool {
    holds_window(bytes, 0, 8) && is_zip_signature(window(bytes, 0, 8))
}

/// Whether a source shows the signature of a 7z archive: it holds the eight
/// bytes of the first window, the two of the version among them, and they
/// start with the signature.
pub open spec fn shows_sevenz(bytes: Seq<u8>) -> bool {
    holds_window(bytes, 0, 8) && is_sevenz_signature(window(bytes, 0, 8))
}

/// Whether a stream shows the ustar magic: it holds the eight bytes of the
/// magic field of a tar header, and they are the magic.
pub open spec fn shows_ustar(bytes: Seq<u8>) -> bool {
    holds_window(bytes, TAR_MAGIC_OFFSET as int, 8) && is_ustar_magic(
        window(bytes, TAR_MAGIC_OFFSET as int, 8),
    )
}

/// Whether a source shows the identifier of an ISO 9660 volume in the
/// window of one descriptor.
pub open spec fn shows_iso_at(bytes: Seq<u8>, offset: u64) -> bool {
    holds_window(bytes, offset as int, 5) && is_iso_identifier(window(bytes, offset as int, 5))
}

/// Whether a source shows all three descriptors of an ISO 9660 volume.
pub open spec fn shows_iso(bytes: Seq<u8>) -> bool {
    &&& shows_iso_at(bytes, ISO_PRIMARY_OFFSET)
    &&& shows_iso_at(bytes, ISO_SUPPLEMENTARY_OFFSET)
    &&& shows_iso_at(bytes, ISO_TERMINATOR_OFFSET)
}

/// The first bytes of the stream under the codec that the first window of a
/// source names, as far as detection reads them, where the codec can be
/// read.
pub open spec fn stream_under(bytes: Seq<u8>) -> Option<(CompressionTag, Seq<u8>)> {
    match leading_compression(bytes) {
        Some(tag) => match decoded_prefix(bytes, tag, INNER_PROBE_LEN) {
            Some(stream) => Some((tag, stream)),
            None => None,
        },
        None => None,
    }
}

/// The container and compression of a source with these bytes, or the windows
/// that were probed in vain. The windows are given by their bytes, in the
/// order zip, tar and the three of iso; a byte that the source does not hold
/// is given as zero, and a window with such a byte shows no signature.
pub open spec fn detection(bytes: Seq<u8>) -> Result<
    (ArchiveType, CompressionTag),
    (Seq<u8>, Seq<u8>, Seq<u8>, Seq<u8>, Seq<u8>),
> {
    let inner = stream_under(bytes);
    if shows_zip(bytes) {
        Ok((ArchiveType::Zip, CompressionTag::Uncompressed))
    } else if shows_sevenz(bytes) {
        Ok((ArchiveType::SevenZ, CompressionTag::Uncompressed))
    } else if shows_ustar(bytes) {
        Ok((ArchiveType::Tar, CompressionTag::Uncompressed))
    } else if inner matches Some((tag, stream)) && shows_ustar(stream) {
        Ok((ArchiveType::Tar, inner.unwrap().0))
    } else if shows_iso(bytes) {
        Ok((ArchiveType::Iso, CompressionTag::Uncompressed))
    } else {
        Err(
            (
                window(bytes, 0, 8),
                match inner {
                    Some((tag, stream)) => window(stream, TAR_MAGIC_OFFSET as int, 8),
                    None => window(bytes, TAR_MAGIC_OFFSET as int, 8),
                },
                window(bytes, ISO_PRIMARY_OFFSET as int, 5),
                window(bytes, ISO_SUPPLEMENTARY_OFFSET as int, 5),
                window(bytes, ISO_TERMINATOR_OFFSET as int, 5),
            ),
        )
    }
}

/// A stream that shows the ustar magic, and neither the signature of a zip
/// archive nor that of a 7z archive, is a tar archive under no compression.
pub proof fn lemma_ustar_magic_is_a_plain_tar(bytes: Seq<u8>)
    requires
        shows_ustar(bytes),
        !shows_zip(bytes),
        !shows_sevenz(bytes),
    ensures
        detection(bytes) == Ok::<
            (ArchiveType, CompressionTag),
            (Seq<u8>, Seq<u8>, Seq<u8>, Seq<u8>, Seq<u8>),
        >((ArchiveType::Tar, CompressionTag::Uncompressed)),
{
}

/// A source whose first bytes name a codec, under which a stream that shows
/// the ustar magic can be read, is a tar archive under that codec: the
/// signature of the codec is neither that of a zip archive nor that of a 7z
/// archive. A source that shows the ustar magic in its own bytes is left
/// out: it is taken for a tar archive under no compression before the codec
/// is asked.
pub proof fn lemma_compressed_tar_is_recognised(bytes: Seq<u8>)
    requires
        stream_under(bytes) matches Some((tag, stream)) && shows_ustar(stream),
        !shows_ustar(bytes),
    ensures
        stream_under(bytes) matches Some((tag, stream)) && detection(bytes) == Ok::<
            (ArchiveType, CompressionTag),
            (Seq<u8>, Seq<u8>, Seq<u8>, Seq<u8>, Seq<u8>),
        >((ArchiveType::Tar, tag)),
{
}

/// The bytes of the windows of `m`, where each window stands at the offset
/// that detection reads it from.
pub open spec fn probed_windows(m: MagicNumbers) -> (Seq<u8>, Seq<u8>, Seq<u8>, Seq<u8>, Seq<u8>)
    recommends
        at_probe_offsets(m),
{
    let (primary, supplementary, terminator) = m.iso;
    (m.zip.1@, m.tar.1@, primary.1@, supplementary.1@, terminator.1@)
}

/// Each window of `m` stands at the offset that detection reads it from.
pub open spec fn at_probe_offsets(m: MagicNumbers) -> bool {
    let (primary, supplementary, terminator) = m.iso;
    &&& m.zip.0 == 0
    &&& m.tar.0 == TAR_MAGIC_OFFSET
    &&& primary.0 == ISO_PRIMARY_OFFSET
    &&& supplementary.0 == ISO_SUPPLEMENTARY_OFFSET
    &&& terminator.0 == ISO_TERMINATOR_OFFSET
}

/// The error for a window that names no compression codec: an
/// `std::io::Error` of kind `InvalidData` whose text shows the window.
#[verifier::external_body]
fn unknown_magic(offset: u64, bytes: &[u8; 8]) -> std::io::Error {
    std::io::Error::new(
        std::io::ErrorKind::InvalidData,
        format!("unknown magic bytes at {}: {:04x?}", offset, bytes),
    )
}

impl ArchiveCompression {
    /// The compression codec that the window names by its leading bytes.
    pub fn try_from(magic: MagicBytesAt<8>) -> (r: Result<ArchiveCompression, std::io::Error>)
        ensures
            r is Ok <==> sniffed_compression(magic.0, magic.1@) is Some,
            r matches Ok(c) ==> sniffed_compression(magic.0, magic.1@) == Some(c@),
    {
        let w = &magic.1;
        if magic.0 != 0 {
            Err(unknown_magic(magic.0, w))
        } else if w[0] == 0x1f && w[1] == 0x8b {
            Ok(ArchiveCompression::Gzip)
        } else if w[0] == 0x42 && w[1] == 0x5a && w[2] == 0x68 {
            Ok(ArchiveCompression::Bzip2)
        } else if w[0] == 0xfd && w[1] == 0x37 && w[2] == 0x7a && w[3] == 0x58 && w[4] == 0x5a
            && w[5] == 0x00 {
            Ok(ArchiveCompression::Lzma)
        } else if w[0] == 0x28 && w[1] == 0xb5 && w[2] == 0x2f && w[3] == 0xfd {
            Ok(ArchiveCompression::Zstd)
        } else {
            Err(unknown_magic(magic.0, w))
        }
    }
}

impl ArchiveCompression {
    /// The compression codec that the first eight bytes of a source name;
    /// a source that does not hold that many names none, and ends too
    /// early.
    pub fn try_from_datasource(source: &DataSource) -> (r: Result<
        ArchiveCompression,
        std::io::Error,
    >)
        ensures
            r is Ok <==> leading_compression(source@.bytes) is Some,
            r matches Ok(c) ==> leading_compression(source@.bytes) == Some(c@),
    {
        let first = probe::<8>(source.bytes(), 0);
        if first.whole {
            Self::try_from(first.found)
        } else {
            Err(unexpected_end())
        }
    }
}

impl ArchiveType {
    /// Decides what the probed windows say: the container with its
    /// compression, or `UnknownArchiveType` with every window.
    pub fn classify(
        zip: Probe<8>,
        tar: Probe<8>,
        inner: Option<(ArchiveCompression, Probe<8>)>,
        iso: (Probe<5>, Probe<5>, Probe<5>),
    ) -> (r: Result<(ArchiveType, ArchiveCompression), ArchiveError>)
        ensures
            match classification(
                zip,
                tar,
                match inner {
                    Some((compression, under)) => Some((compression@, under)),
                    None => None,
                },
                iso,
            ) {
                Ok(found) => r matches Ok(got) && got.0 == found.0 && got.1@ == found.1,
                Err(probed) => r matches Err(ArchiveError::UnknownArchiveType(m)) && m == probed,
            },
    {
        if zip.whole && has_zip_signature(&zip.found.1) {
            return Ok((ArchiveType::Zip, ArchiveCompression::Uncompressed));
        }
        if zip.whole && has_sevenz_signature(&zip.found.1) {
            return Ok((ArchiveType::SevenZ, ArchiveCompression::Uncompressed));
        }
        if tar.whole && has_ustar_magic(&tar.found.1) {
            return Ok((ArchiveType::Tar, ArchiveCompression::Uncompressed));
        }
        let mut reported = tar.found;
        match inner {
            Some((compression, under)) => {
                if under.whole && has_ustar_magic(&under.found.1) {
                    return Ok((ArchiveType::Tar, compression));
                }
                reported = under.found;
            },
            None => {},
        }
        let (primary, supplementary, terminator) = iso;
        if primary.whole && has_iso_identifier(&primary.found.1) && supplementary.whole
            && has_iso_identifier(&supplementary.found.1) && terminator.whole
            && has_iso_identifier(&terminator.found.1) {
            return Ok((ArchiveType::Iso, ArchiveCompression::Uncompressed));
        }
        Err(
            ArchiveError::UnknownArchiveType(
                MagicNumbers {
                    zip: zip.found,
                    tar: reported,
                    iso: (primary.found, supplementary.found, terminator.found),
                },
            ),
        )
    }

    /// Recognises the container and the compression of a source from its
    /// bytes alone. The read position of the source plays no part and is not
    /// moved.
    pub fn try_from_datasource(data: &DataSource) -> (r: Result<
        (ArchiveType, ArchiveCompression),
        ArchiveError,
    >)
        ensures
            match detection(data@.bytes) {
                Ok(found) => r matches Ok(got) && got.0 == found.0 && got.1@ == found.1,
                Err(probed) => r matches Err(ArchiveError::UnknownArchiveType(m))
                    && at_probe_offsets(m) && probed_windows(m) == probed,
            },
    {
        let bytes = data.bytes();
        let zip = probe::<8>(bytes, 0);
        if zip.whole && has_zip_signature(&zip.found.1) {
            return Ok((ArchiveType::Zip, ArchiveCompression::Uncompressed));
        }
        if zip.whole && has_sevenz_signature(&zip.found.1) {
            return Ok((ArchiveType::SevenZ, ArchiveCompression::Uncompressed));
        }
        let tar = probe::<8>(bytes, TAR_MAGIC_OFFSET);
        if tar.whole && has_ustar_magic(&tar.found.1) {
            return Ok((ArchiveType::Tar, ArchiveCompression::Uncompressed));
        }
        let inner: Option<(ArchiveCompression, Probe<8>)> = match ArchiveCompression::try_from_datasource(
            data,
        ) {
            Ok(compression) => match ArchiveCodec::read_prefix(bytes, &compression, INNER_PROBE_LEN) {
                Ok(stream) => Some((compression, probe::<8>(&stream, TAR_MAGIC_OFFSET))),
                Err(_) => None,
            },
            Err(_) => None,
        };
        let iso = (
            probe::<5>(bytes, ISO_PRIMARY_OFFSET),
            probe::<5>(bytes, ISO_SUPPLEMENTARY_OFFSET),
            probe::<5>(bytes, ISO_TERMINATOR_OFFSET),
        );
        Self::classify(zip, tar, inner, iso)
    }
}

/// The last two dot-separated parts of a file name: the part before the last
/// dot, cut at the dot before it, where the name has a dot at all; and the
/// part behind the last dot, which is the whole name where it has none.
pub open spec fn extension_parts(path: Seq<char>) -> (Option<Seq<char>>, Seq<char>) {
    let dot = last_index_of(path, '.');
    if dot < 0 {
        (None, path)
    } else {
        let stem = path.take(dot);
        (Some(stem.skip(last_index_of(stem, '.') + 1)), path.skip(dot + 1))
    }
}

/// The container, and the compression where the name settles it, that a file
/// name stands for by its extension.
pub open spec fn guessed_from_filename(path: Seq<char>) -> Option<
    (ArchiveType, Option<CompressionTag>),
> {
    let (before, last) = extension_parts(path);
    let after_tar = before == Some("tar"@);
    if (after_tar && last == "gz"@) || last == "tgz"@ {
        Some((ArchiveType::Tar, Some(CompressionTag::Gzip)))
    } else if (after_tar && last == "xz"@) || last == "txz"@ {
        Some((ArchiveType::Tar, Some(CompressionTag::Lzma)))
    } else if (after_tar && last == "bz2"@) || last == "tbz2"@ {
        Some((ArchiveType::Tar, Some(CompressionTag::Bzip2)))
    } else if (after_tar && last == "zst"@) || last == "tzst"@ {
        Some((ArchiveType::Tar, Some(CompressionTag::Zstd)))
    } else if last == "tar"@ {
        Some((ArchiveType::Tar, Some(CompressionTag::Uncompressed)))
    } else if last == "zip"@ {
        Some((ArchiveType::Zip, None))
    } else if last == "7z"@ || last == "7zip"@ {
        Some((ArchiveType::SevenZ, None))
    } else if last == "iso"@ {
        Some((ArchiveType::Iso, None))
    } else {
        None
    }
}

impl ArchiveType {
    /// Guesses the container from the extension of a file name, for an
    /// archive that is yet to be written. A name with no known extension is
    /// refused as `UnknownFileExtension`, which keeps the name.
    pub fn guess_from_filename(path: &str) -> (r: Result<
        (ArchiveType, Option<ArchiveCompression>),
        ArchiveError,
    >)
        ensures
            match guessed_from_filename(path@) {
                Some(found) => r matches Ok(got) && got.0 == found.0 && (match found.1 {
                    Some(tag) => got.1 matches Some(c) && c@ == tag,
                    None => got.1 is None,
                }),
                None => r matches Err(ArchiveError::UnknownFileExtension(name)) && name@ == path@,
            },
    {
        let chars = chars_of(path);
        let len = chars.len();
        assert(chars@.take(len as int) == chars@);
        let dot = rfind_char(&chars, len, '.');
        let (after_tar, last) = match dot {
            Some(d) => {
                let from: usize = match rfind_char(&chars, d, '.') {
                    Some(k) => k + 1,
                    None => 0,
                };
                assert(chars@.take(d as int).skip(from as int) == chars@.subrange(
                    from as int,
                    d as int,
                ));
                assert(chars@.skip(d + 1) == chars@.subrange(d + 1, len as int));
                let before = substring(&chars, from, d);
                (str_equal(before.as_str(), "tar"), substring(&chars, d + 1, len))
            },
            None => {
                assert(chars@.subrange(0, len as int) == chars@);
                (false, substring(&chars, 0, len))
            },
        };
        let last = last.as_str();
        if (after_tar && str_equal(last, "gz")) || str_equal(last, "tgz") {
            Ok((ArchiveType::Tar, Some(ArchiveCompression::Gzip)))
        } else if (after_tar && str_equal(last, "xz")) || str_equal(last, "txz") {
            Ok((ArchiveType::Tar, Some(ArchiveCompression::Lzma)))
        } else if (after_tar && str_equal(last, "bz2")) || str_equal(last, "tbz2") {
            Ok((ArchiveType::Tar, Some(ArchiveCompression::Bzip2)))
        } else if (after_tar && str_equal(last, "zst")) || str_equal(last, "tzst") {
            Ok((ArchiveType::Tar, Some(ArchiveCompression::Zstd)))
        } else if str_equal(last, "tar") {
            Ok((ArchiveType::Tar, Some(ArchiveCompression::Uncompressed)))
        } else if str_equal(last, "zip") {
            Ok((ArchiveType::Zip, None))
        } else if str_equal(last, "7z") || str_equal(last, "7zip") {
            Ok((ArchiveType::SevenZ, None))
        } else if str_equal(last, "iso") {
            Ok((ArchiveType::Iso, None))
        } else {
            Err(ArchiveError::UnknownFileExtension(path.to_owned()))
        }
    }
}

/// Detection depends on the bytes of a source alone: two sources over the
/// same bytes are recognised alike, wherever their read positions stand and
/// whatever they are called, and so is one source asked twice.
pub proof fn lemma_detection_is_deterministic(a: DataSource, b: DataSource)
    requires
        a@.bytes == b@.bytes,
    ensures
        detection(a@.bytes) == detection(b@.bytes),
{
}

} // verus!
