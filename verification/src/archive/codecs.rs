//! Compression tags and the codecs behind them.
use vstd::prelude::*;
use std::io::{Read, Write};
use crate::archive::archive_base::ArchiveError;
use crate::archive::text::str_equal;

verus! {

/// The compression applied to a byte stream or to an entry of a container.
#[derive(Debug)]
pub enum ArchiveCompression {
    Gzip,
    Bzip2,
    Lzma,
    Zstd,
    Aes,
    Deflate,
    Unknown(String),
    /// No compression at all; its label is `none`.
    Uncompressed,
}

/// The mathematical value of an [`ArchiveCompression`].
pub enum CompressionTag {
    Gzip,
    Bzip2,
    Lzma,
    Zstd,
    Aes,
    Deflate,
    Unknown(Seq<char>),
    Uncompressed,
}

impl View for ArchiveCompression {
    type V = CompressionTag;

    open spec fn view(&self) -> CompressionTag {
        match self {
            ArchiveCompression::Gzip => CompressionTag::Gzip,
            ArchiveCompression::Bzip2 => CompressionTag::Bzip2,
            ArchiveCompression::Lzma => CompressionTag::Lzma,
            ArchiveCompression::Zstd => CompressionTag::Zstd,
            ArchiveCompression::Aes => CompressionTag::Aes,
            ArchiveCompression::Deflate => CompressionTag::Deflate,
            ArchiveCompression::Unknown(s) => CompressionTag::Unknown(s@),
            ArchiveCompression::Uncompressed => CompressionTag::Uncompressed,
        }
    }
}

impl CompressionTag {
    /// The lower-case label of the tag, as it is shown to users.
    pub open spec fn label(self) -> Seq<char> {
        match self {
            CompressionTag::Gzip => "gzip"@,
            CompressionTag::Bzip2 => "bzip2"@,
            CompressionTag::Lzma => "lzma"@,
            CompressionTag::Zstd => "zstd"@,
            CompressionTag::Aes => "aes"@,
            CompressionTag::Deflate => "deflate"@,
            CompressionTag::Uncompressed => "none"@,
            CompressionTag::Unknown(s) => "unknown ("@ + s + ")"@,
        }
    }

    /// The inclusive range of compression levels, where the codec has levels.
    pub open spec fn level_range(self) -> Option<(int, int)> {
        match self {
            CompressionTag::Gzip => Some((0, 9)),
            CompressionTag::Bzip2 => Some((0, 9)),
            CompressionTag::Lzma => Some((0, 9)),
            CompressionTag::Zstd => Some((1, 19)),
            CompressionTag::Deflate => Some((0, 9)),
            CompressionTag::Aes => None,
            CompressionTag::Unknown(_) => None,
            CompressionTag::Uncompressed => None,
        }
    }

    /// Whether a codec of this library can decode and encode the tag.
    pub open spec fn is_supported(self) -> bool {
        !(self is Aes) && !(self is Unknown)
    }
}

impl Clone for ArchiveCompression {
    fn clone(&self) -> (r: Self)
        ensures
            r@ == self@,
    {
        match self {
            ArchiveCompression::Gzip => ArchiveCompression::Gzip,
            ArchiveCompression::Bzip2 => ArchiveCompression::Bzip2,
            ArchiveCompression::Lzma => ArchiveCompression::Lzma,
            ArchiveCompression::Zstd => ArchiveCompression::Zstd,
            ArchiveCompression::Aes => ArchiveCompression::Aes,
            ArchiveCompression::Deflate => ArchiveCompression::Deflate,
            ArchiveCompression::Unknown(s) => ArchiveCompression::Unknown(s.clone()),
            ArchiveCompression::Uncompressed => ArchiveCompression::Uncompressed,
        }
    }
}

impl PartialEq for ArchiveCompression {
    fn eq(&self, other: &Self) -> (r: bool) {
        match (self, other) {
            (ArchiveCompression::Gzip, ArchiveCompression::Gzip) => true,
            (ArchiveCompression::Bzip2, ArchiveCompression::Bzip2) => true,
            (ArchiveCompression::Lzma, ArchiveCompression::Lzma) => true,
            (ArchiveCompression::Zstd, ArchiveCompression::Zstd) => true,
            (ArchiveCompression::Aes, ArchiveCompression::Aes) => true,
            (ArchiveCompression::Deflate, ArchiveCompression::Deflate) => true,
            (ArchiveCompression::Uncompressed, ArchiveCompression::Uncompressed) => true,
            (ArchiveCompression::Unknown(a), ArchiveCompression::Unknown(b)) => *a == *b,
            _ => false,
        }
    }
}

impl vstd::std_specs::cmp::PartialEqSpecImpl for ArchiveCompression {
    open spec fn obeys_eq_spec() -> bool {
        true
    }

    open spec fn eq_spec(&self, other: &Self) -> bool {
        self@ == other@
    }
}

impl ArchiveCompression {
    /// The compression levels that the codec accepts, if it has levels.
    pub fn valid_level_range(&self) -> (r: Option<std::ops::RangeInclusive<i32>>)
        ensures
            r is Some <==> self@.level_range() is Some,
            r matches Some(range) ==> {
                &&& range@.start == self@.level_range().unwrap().0
                &&& range@.end == self@.level_range().unwrap().1
                &&& !range@.exhausted
            },
    {
        match self {
            ArchiveCompression::Gzip => Some(std::ops::RangeInclusive::new(0, 9)),
            ArchiveCompression::Bzip2 => Some(std::ops::RangeInclusive::new(0, 9)),
            ArchiveCompression::Lzma => Some(std::ops::RangeInclusive::new(0, 9)),
            ArchiveCompression::Zstd => Some(std::ops::RangeInclusive::new(1, 19)),
            ArchiveCompression::Aes => None,
            ArchiveCompression::Deflate => Some(std::ops::RangeInclusive::new(0, 9)),
            ArchiveCompression::Unknown(_) => None,
            ArchiveCompression::Uncompressed => None,
        }
    }

    /// The label of the compression: its lower-case name, or `unknown (..)`
    /// around the name of a method that this library does not know.
    pub fn to_string(&self) -> (r: String)
        ensures
            r@ == self@.label(),
    {
        match self {
            ArchiveCompression::Gzip => "gzip".to_owned(),
            ArchiveCompression::Bzip2 => "bzip2".to_owned(),
            ArchiveCompression::Lzma => "lzma".to_owned(),
            ArchiveCompression::Zstd => "zstd".to_owned(),
            ArchiveCompression::Aes => "aes".to_owned(),
            ArchiveCompression::Deflate => "deflate".to_owned(),
            ArchiveCompression::Uncompressed => "none".to_owned(),
            ArchiveCompression::Unknown(s) => {
                let mut r = "unknown (".to_owned();
                r.append(s.as_str());
                r.append(")");
                r
            },
        }
    }
}

/// The bytes that a gzip decoder yields from `bytes` when it is read until
/// `limit` bytes have come or the stream ends; `None` where it reports an error.
pub uninterp spec fn gzip_stream(bytes: Seq<u8>, limit: u64) -> Option<Seq<u8>>;

/// The same for a zlib (deflate) decoder.
pub uninterp spec fn zlib_stream(bytes: Seq<u8>, limit: u64) -> Option<Seq<u8>>;

/// The same for a bzip2 decoder.
pub uninterp spec fn bzip2_stream(bytes: Seq<u8>, limit: u64) -> Option<Seq<u8>>;

/// The same for an xz decoder.
pub uninterp spec fn lzma_stream(bytes: Seq<u8>, limit: u64) -> Option<Seq<u8>>;

/// The same for a zstd decoder.
pub uninterp spec fn zstd_stream(bytes: Seq<u8>, limit: u64) -> Option<Seq<u8>>;

/// Runs `flate2::bufread::GzDecoder` over `bytes` and reads it through
/// `Read::take(limit)` to its end. Trusted: the outcome is a function of the
/// bytes and the limit, and no more than `limit` bytes come back.
#[verifier::external_body]
fn gzip_read(bytes: &Vec<u8>, limit: u64) -> (r: Result<Vec<u8>, std::io::Error>)
    ensures
        r is Ok <==> gzip_stream(bytes@, limit) is Some,
        r matches Ok(out) ==> gzip_stream(bytes@, limit) == Some(out@) && out@.len() <= limit,
{
    let mut out = Vec::new();
    flate2::bufread::GzDecoder::new(bytes.as_slice()).take(limit).read_to_end(&mut out)?;
    Ok(out)
}

/// Runs `flate2::bufread::ZlibDecoder` over `bytes` and reads it through
/// `Read::take(limit)` to its end. Trusted as [`gzip_read`] is.
#[verifier::external_body]
fn zlib_read(bytes: &Vec<u8>, limit: u64) -> (r: Result<Vec<u8>, std::io::Error>)
    ensures
        r is Ok <==> zlib_stream(bytes@, limit) is Some,
        r matches Ok(out) ==> zlib_stream(bytes@, limit) == Some(out@) && out@.len() <= limit,
{
    let mut out = Vec::new();
    flate2::bufread::ZlibDecoder::new(bytes.as_slice()).take(limit).read_to_end(&mut out)?;
    Ok(out)
}

/// Runs `bzip2::bufread::BzDecoder` over `bytes` and reads it through
/// `Read::take(limit)` to its end. Trusted as [`gzip_read`] is.
#[verifier::external_body]
fn bzip2_read(bytes: &Vec<u8>, limit: u64) -> (r: Result<Vec<u8>, std::io::Error>)
    ensures
        r is Ok <==> bzip2_stream(bytes@, limit) is Some,
        r matches Ok(out) ==> bzip2_stream(bytes@, limit) == Some(out@) && out@.len() <= limit,
{
    let mut out = Vec::new();
    bzip2::bufread::BzDecoder::new(bytes.as_slice()).take(limit).read_to_end(&mut out)?;
    Ok(out)
}

/// Runs `lzma::LzmaReader::new_decompressor` over `bytes` and reads it through
/// `Read::take(limit)` to its end; a read error comes back as `LzmaError::Io`.
/// Trusted as [`gzip_read`] is.
#[verifier::external_body]
fn lzma_read(bytes: &Vec<u8>, limit: u64) -> (r: Result<Vec<u8>, lzma::LzmaError>)
    ensures
        r is Ok <==> lzma_stream(bytes@, limit) is Some,
        r matches Ok(out) ==> lzma_stream(bytes@, limit) == Some(out@) && out@.len() <= limit,
{
    let mut out = Vec::new();
    lzma::LzmaReader::new_decompressor(bytes.as_slice())?.take(limit).read_to_end(&mut out)?;
    Ok(out)
}

/// Runs `zstd::Decoder::new` over `bytes` and reads it through
/// `Read::take(limit)` to its end. Trusted as [`gzip_read`] is.
#[verifier::external_body]
fn zstd_read(bytes: &Vec<u8>, limit: u64) -> (r: Result<Vec<u8>, std::io::Error>)
    ensures
        r is Ok <==> zstd_stream(bytes@, limit) is Some,
        r matches Ok(out) ==> zstd_stream(bytes@, limit) == Some(out@) && out@.len() <= limit,
{
    let mut out = Vec::new();
    zstd::Decoder::new(bytes.as_slice())?.take(limit).read_to_end(&mut out)?;
    Ok(out)
}

/// The first `limit` bytes of `bytes`, or all of them where there are fewer.
pub open spec fn prefix(bytes: Seq<u8>, limit: u64) -> Seq<u8> {
    if limit < bytes.len() {
        bytes.take(limit as int)
    } else {
        bytes
    }
}

/// What a decoder for `tag` yields from `bytes`, read up to `limit` bytes;
/// `None` where the tag has no codec or the codec reports an error.
pub open spec fn decoded_prefix(bytes: Seq<u8>, tag: CompressionTag, limit: u64) -> Option<
    Seq<u8>,
> {
    match tag {
        CompressionTag::Uncompressed => Some(prefix(bytes, limit)),
        CompressionTag::Gzip => gzip_stream(bytes, limit),
        CompressionTag::Deflate => zlib_stream(bytes, limit),
        CompressionTag::Bzip2 => bzip2_stream(bytes, limit),
        CompressionTag::Lzma => lzma_stream(bytes, limit),
        CompressionTag::Zstd => zstd_stream(bytes, limit),
        CompressionTag::Aes => None,
        CompressionTag::Unknown(_) => None,
    }
}

/// The whole stream that a decoder for `tag` yields from `bytes`.
pub open spec fn decoded(bytes: Seq<u8>, tag: CompressionTag) -> Option<Seq<u8>> {
    decoded_prefix(bytes, tag, u64::MAX)
}

/// Maps a compression tag to its decoder and its encoder.
pub struct ArchiveCodec;

impl ArchiveCodec {
    /// Decodes `inner` as `compression` says and stops after `limit` bytes.
    ///
    /// A tag without a codec is refused as `UnsupportedCompression`; an error
    /// of the codec itself comes back as `Io`, or `Lzma` for the xz codec.
    pub fn read_prefix(inner: &Vec<u8>, compression: &ArchiveCompression, limit: u64) -> (r:
        Result<Vec<u8>, ArchiveError>)
        ensures
            r is Ok <==> decoded_prefix(inner@, compression@, limit) is Some,
            r matches Ok(out) ==> decoded_prefix(inner@, compression@, limit) == Some(out@)
                && out@.len() <= limit,
            r matches Err(e) ==> match compression@ {
                CompressionTag::Aes | CompressionTag::Unknown(_) => e matches ArchiveError::UnsupportedCompression(
                    c,
                ) && c@ == compression@,
                CompressionTag::Lzma => e is Lzma,
                _ => e is Io,
            },
    {
        match compression {
            ArchiveCompression::Uncompressed => {
                let mut out = inner.clone();
                if limit < out.len() as u64 {
                    out.truncate(limit as usize);
                }
                Ok(out)
            },
            ArchiveCompression::Gzip => match gzip_read(inner, limit) {
                Ok(out) => Ok(out),
                Err(e) => Err(ArchiveError::Io(e)),
            },
            ArchiveCompression::Deflate => match zlib_read(inner, limit) {
                Ok(out) => Ok(out),
                Err(e) => Err(ArchiveError::Io(e)),
            },
            ArchiveCompression::Bzip2 => match bzip2_read(inner, limit) {
                Ok(out) => Ok(out),
                Err(e) => Err(ArchiveError::Io(e)),
            },
            ArchiveCompression::Lzma => match lzma_read(inner, limit) {
                Ok(out) => Ok(out),
                Err(e) => Err(ArchiveError::Lzma(e)),
            },
            ArchiveCompression::Zstd => match zstd_read(inner, limit) {
                Ok(out) => Ok(out),
                Err(e) => Err(ArchiveError::Io(e)),
            },
            ArchiveCompression::Aes => Err(
                ArchiveError::UnsupportedCompression(ArchiveCompression::Aes),
            ),
            ArchiveCompression::Unknown(s) => Err(
                ArchiveError::UnsupportedCompression(ArchiveCompression::Unknown(s.clone())),
            ),
        }
    }

    /// Decodes the whole of `inner` as `compression` says.
    pub fn get_reader(inner: &Vec<u8>, compression: &ArchiveCompression) -> (r: Result<
        Vec<u8>,
        ArchiveError,
    >)
        ensures
            r is Ok <==> decoded(inner@, compression@) is Some,
            r matches Ok(out) ==> decoded(inner@, compression@) == Some(out@),
            r matches Err(e) ==> match compression@ {
                CompressionTag::Aes | CompressionTag::Unknown(_) => e matches ArchiveError::UnsupportedCompression(
                    c,
                ) && c@ == compression@,
                CompressionTag::Lzma => e is Lzma,
                _ => e is Io,
            },
    {
        Self::read_prefix(inner, compression, u64::MAX)
    }
}

/// What went wrong in an encoder, and at which step.
#[derive(Debug)]
pub enum EncodeFault {
    /// The encoder could not be set up or could not take the bytes.
    Stream(std::io::Error),
    /// The encoder could not write its epilogue.
    Finish(std::io::Error),
}

/// The bytes that a gzip encoder at its default level makes of `data`;
/// `None` where it reports an error.
pub uninterp spec fn gzip_encoded(data: Seq<u8>) -> Option<Seq<u8>>;

/// The same for a zlib (deflate) encoder at its default level.
pub uninterp spec fn zlib_encoded(data: Seq<u8>) -> Option<Seq<u8>>;

/// The same for a bzip2 encoder at its default level.
pub uninterp spec fn bzip2_encoded(data: Seq<u8>) -> Option<Seq<u8>>;

/// The same for an xz encoder at a preset.
pub uninterp spec fn lzma_encoded(data: Seq<u8>, preset: u32) -> Option<Seq<u8>>;

/// The same for a zstd encoder at a level.
pub uninterp spec fn zstd_encoded(data: Seq<u8>, level: i32) -> Option<Seq<u8>>;

/// The preset that xz streams are written at.
pub const LZMA_PRESET: u32 = 6;

/// The level that zstd streams are written at: the one that stands for the
/// default of the codec.
pub const ZSTD_LEVEL: i32 = 0;

/// Runs `flate2::write::GzEncoder` at its default level over the bytes:
/// `write_all`, then `finish`. Trusted: the outcome is a function of the
/// bytes.
#[verifier::external_body]
fn gzip_write(data: &Vec<u8>) -> (r: Result<Vec<u8>, EncodeFault>)
    ensures
        r is Ok <==> gzip_encoded(data@) is Some,
        r matches Ok(out) ==> gzip_encoded(data@) == Some(out@),
{
    let mut encoder = flate2::write::GzEncoder::new(Vec::new(), flate2::Compression::default());
    encoder.write_all(data).map_err(EncodeFault::Stream)?;
    encoder.finish().map_err(EncodeFault::Finish)
}

/// Runs `flate2::write::ZlibEncoder` at its default level over the bytes:
/// `write_all`, then `finish`. Trusted as [`gzip_write`] is.
#[verifier::external_body]
fn zlib_write(data: &Vec<u8>) -> (r: Result<Vec<u8>, EncodeFault>)
    ensures
        r is Ok <==> zlib_encoded(data@) is Some,
        r matches Ok(out) ==> zlib_encoded(data@) == Some(out@),
{
    let mut encoder = flate2::write::ZlibEncoder::new(Vec::new(), flate2::Compression::default());
    encoder.write_all(data).map_err(EncodeFault::Stream)?;
    encoder.finish().map_err(EncodeFault::Finish)
}

/// Runs `bzip2::write::BzEncoder` at its default level over the bytes:
/// `write_all`, then `finish`. Trusted as [`gzip_write`] is.
#[verifier::external_body]
fn bzip2_write(data: &Vec<u8>) -> (r: Result<Vec<u8>, EncodeFault>)
    ensures
        r is Ok <==> bzip2_encoded(data@) is Some,
        r matches Ok(out) ==> bzip2_encoded(data@) == Some(out@),
{
    let mut encoder = bzip2::write::BzEncoder::new(Vec::new(), bzip2::Compression::default());
    encoder.write_all(data).map_err(EncodeFault::Stream)?;
    encoder.finish().map_err(EncodeFault::Finish)
}

/// Runs `lzma::LzmaWriter::new_compressor` at a preset over the bytes:
/// `write_all`, then `finish`; a failed write comes back as `LzmaError::Io`.
/// Trusted: the outcome is a function of the bytes and the preset.
#[verifier::external_body]
fn lzma_write(data: &Vec<u8>, preset: u32) -> (r: Result<Vec<u8>, lzma::LzmaError>)
    ensures
        r is Ok <==> lzma_encoded(data@, preset) is Some,
        r matches Ok(out) ==> lzma_encoded(data@, preset) == Some(out@),
{
    let mut encoder = lzma::LzmaWriter::new_compressor(Vec::new(), preset)?;
    encoder.write_all(data)?;
    encoder.finish()
}

/// Runs `zstd::Encoder::new` at a level over the bytes: `write_all`, then
/// `finish`. Trusted: the outcome is a function of the bytes and the level.
#[verifier::external_body]
fn zstd_write(data: &Vec<u8>, level: i32) -> (r: Result<Vec<u8>, EncodeFault>)
    ensures
        r is Ok <==> zstd_encoded(data@, level) is Some,
        r matches Ok(out) ==> zstd_encoded(data@, level) == Some(out@),
{
    let mut encoder = zstd::Encoder::new(Vec::new(), level).map_err(EncodeFault::Stream)?;
    encoder.write_all(data).map_err(EncodeFault::Stream)?;
    encoder.finish().map_err(EncodeFault::Finish)
}

/// What an encoder for `tag` makes of `data`, epilogue included; `None` where
/// the tag has no codec or the codec reports an error.
pub open spec fn encoded_stream(data: Seq<u8>, tag: CompressionTag) -> Option<Seq<u8>> {
    match tag {
        CompressionTag::Uncompressed => Some(data),
        CompressionTag::Gzip => gzip_encoded(data),
        CompressionTag::Deflate => zlib_encoded(data),
        CompressionTag::Bzip2 => bzip2_encoded(data),
        CompressionTag::Lzma => lzma_encoded(data, LZMA_PRESET),
        CompressionTag::Zstd => zstd_encoded(data, ZSTD_LEVEL),
        CompressionTag::Aes => None,
        CompressionTag::Unknown(_) => None,
    }
}

/// An encoder that could not write its epilogue: the error, and the name of
/// the encoder.
#[derive(Debug)]
pub struct FinishError<E> {
    pub inner: E,
    pub name: String,
}

impl<E> FinishError<E> {
    pub fn new(name: &str, inner: E) -> (r: Self)
        ensures
            r.name@ == name@,
            r.inner == inner,
    {
        FinishError { name: name.to_owned(), inner }
    }
}

impl FinishError<std::io::Error> {
    /// The error of the library that stands for a failed last step.
    pub fn into_error(self) -> (r: ArchiveError)
        ensures
            r == ArchiveError::Finish(self.name, self.inner),
    {
        ArchiveError::Finish(self.name, self.inner)
    }
}

impl CompressionTag {
    /// The name of the encoder of the tag, as errors of its last step give
    /// it.
    pub open spec fn encoder_name(self) -> Seq<char> {
        match self {
            CompressionTag::Gzip => "GzEncoder"@,
            CompressionTag::Deflate => "ZlibEncoder"@,
            CompressionTag::Bzip2 => "BzEncoder"@,
            CompressionTag::Zstd => "zstd::Encoder"@,
            _ => Seq::empty(),
        }
    }
}

/// What an encoder's outcome means for the caller: the bytes; or `Io` for a
/// failure on the way; or `Finish`, with the name of the encoder, for a
/// failure of its last step.
pub fn encoded(name: &str, outcome: Result<Vec<u8>, EncodeFault>) -> (r: Result<
    Vec<u8>,
    ArchiveError,
>)
    ensures
        match outcome {
            Ok(bytes) => r == Ok::<Vec<u8>, ArchiveError>(bytes),
            Err(EncodeFault::Stream(e)) => r == Err::<Vec<u8>, ArchiveError>(ArchiveError::Io(e)),
            Err(EncodeFault::Finish(e)) => r matches Err(ArchiveError::Finish(n, inner)) && n@
                == name@ && inner == e,
        },
{
    match outcome {
        Ok(bytes) => Ok(bytes),
        Err(EncodeFault::Stream(e)) => Err(ArchiveError::Io(e)),
        Err(EncodeFault::Finish(e)) => Err(FinishError::new(name, e).into_error()),
    }
}

impl ArchiveCodec {
    /// Encodes `data` as `compression` says, epilogue included.
    ///
    /// Without compression the bytes come back as they are. A tag without a
    /// codec is refused as `UnsupportedCompression`. A failure of a codec is
    /// `Io`, or `Finish` with the name of the encoder where its last step
    /// failed, or `Lzma` for the xz codec.
    pub fn get_writer(tar_compression: &ArchiveCompression, data: &Vec<u8>) -> (r: Result<
        Vec<u8>,
        ArchiveError,
    >)
        ensures
            r is Ok <==> encoded_stream(data@, tar_compression@) is Some,
            r matches Ok(out) ==> encoded_stream(data@, tar_compression@) == Some(out@),
            !tar_compression@.is_supported() ==> (r matches Err(
                ArchiveError::UnsupportedCompression(c),
            ) && c@ == tar_compression@),
            r matches Err(e) ==> match tar_compression@ {
                CompressionTag::Aes | CompressionTag::Unknown(_) => e is UnsupportedCompression,
                CompressionTag::Lzma => e is Lzma,
                _ => e is Io || (e matches ArchiveError::Finish(name, _) && name@
                    == tar_compression@.encoder_name()),
            },
    {
        match tar_compression {
            ArchiveCompression::Uncompressed => Ok(data.clone()),
            ArchiveCompression::Gzip => encoded("GzEncoder", gzip_write(data)),
            ArchiveCompression::Deflate => encoded("ZlibEncoder", zlib_write(data)),
            ArchiveCompression::Bzip2 => encoded("BzEncoder", bzip2_write(data)),
            ArchiveCompression::Zstd => encoded("zstd::Encoder", zstd_write(data, ZSTD_LEVEL)),
            ArchiveCompression::Lzma => match lzma_write(data, LZMA_PRESET) {
                Ok(out) => Ok(out),
                Err(e) => Err(ArchiveError::Lzma(e)),
            },
            ArchiveCompression::Aes => Err(
                ArchiveError::UnsupportedCompression(ArchiveCompression::Aes),
            ),
            ArchiveCompression::Unknown(s) => Err(
                ArchiveError::UnsupportedCompression(ArchiveCompression::Unknown(s.clone())),
            ),
        }
    }
}

/// The compression that a method of a 7z archive stands for, by the name of
/// the method; a method that has no compression of its own here is kept by
/// its name.
pub open spec fn method_compression(name: Seq<char>) -> CompressionTag {
    if name == "LZMA"@ || name == "LZMA2"@ {
        CompressionTag::Lzma
    } else if name == "ZSTD"@ {
        CompressionTag::Zstd
    } else if name == "DEFLATE"@ || name == "DEFLATE64"@ {
        CompressionTag::Deflate
    } else if name == "BZIP2"@ {
        CompressionTag::Bzip2
    } else if name == "AES256SHA256"@ {
        CompressionTag::Aes
    } else {
        CompressionTag::Unknown(name)
    }
}

impl ArchiveCompression {
    /// The compression that a method of a 7z archive stands for.
    pub fn from_method_name(name: &str) -> (r: ArchiveCompression)
        ensures
            r@ == method_compression(name@),
    {
        if str_equal(name, "LZMA") || str_equal(name, "LZMA2") {
            ArchiveCompression::Lzma
        } else if str_equal(name, "ZSTD") {
            ArchiveCompression::Zstd
        } else if str_equal(name, "DEFLATE") || str_equal(name, "DEFLATE64") {
            ArchiveCompression::Deflate
        } else if str_equal(name, "BZIP2") {
            ArchiveCompression::Bzip2
        } else if str_equal(name, "AES256SHA256") {
            ArchiveCompression::Aes
        } else {
            ArchiveCompression::Unknown(name.to_owned())
        }
    }
}

} // verus!
