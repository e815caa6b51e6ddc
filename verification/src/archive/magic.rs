//! Byte windows read at fixed offsets of a source, and the signatures that
//! identify container formats and compression codecs.
use vstd::prelude::*;

verus! {

/// The bytes found at an offset of a source: `.0` is the offset, `.1` the bytes.
#[derive(Debug, Clone, Copy)]
pub struct MagicBytesAt<const N: usize>(pub u64, pub [u8; N]);

impl<const N: usize> MagicBytesAt<N> {
    pub fn new(offset: u64, bytes: [u8; N]) -> (r: Self)
        ensures
            r.0 == offset,
            r.1 == bytes,
    {
        MagicBytesAt(offset, bytes)
    }
}

/// Every window that detection probed, kept for diagnostics.
#[derive(Debug, Clone, Copy)]
pub struct MagicNumbers {
    /// The window probed for the Zip and 7z signatures.
    pub zip: MagicBytesAt<8>,
    /// The window probed for the ustar magic: that of the decoded stream
    /// where a compression codec was recognised and could be read.
    pub tar: MagicBytesAt<8>,
    /// The windows probed for the three ISO 9660 volume descriptors.
    pub iso: (MagicBytesAt<5>, MagicBytesAt<5>, MagicBytesAt<5>),
}

/// Offset of the ustar magic in a tar header.
pub const TAR_MAGIC_OFFSET: u64 = 257;

/// Offsets of the identifiers of the three ISO 9660 volume descriptors.
pub const ISO_PRIMARY_OFFSET: u64 = 0x8001;

pub const ISO_SUPPLEMENTARY_OFFSET: u64 = 0x8801;

pub const ISO_TERMINATOR_OFFSET: u64 = 0x9001;

/// The `n` bytes of `bytes` that start at `offset`; a byte past the end of
/// `bytes` reads as zero.
pub open spec fn window(bytes: Seq<u8>, offset: int, n: nat) -> Seq<u8> {
    Seq::new(
        n,
        |i: int|
            if 0 <= offset + i < bytes.len() {
                bytes[offset + i]
            } else {
                0u8
            },
    )
}

/// Whether a source holds every byte of the window of `n` bytes at `offset`.
pub open spec fn holds_window(bytes: Seq<u8>, offset: int, n: nat) -> bool {
    0 <= offset && offset + n <= bytes.len()
}

/// A window as it was probed: its bytes, and whether the source held every
/// one of them. Only a whole window can show a signature; the bytes of any
/// window are kept for diagnostics.
#[derive(Debug, Clone, Copy)]
pub struct Probe<const N: usize> {
    pub found: MagicBytesAt<N>,
    pub whole: bool,
}

/// What probing a source at an offset gives.
pub open spec fn probed<const N: usize>(p: Probe<N>, bytes: Seq<u8>, offset: u64) -> bool {
    &&& p.found.0 == offset
    &&& p.found.1@ == window(bytes, offset as int, N as nat)
    &&& p.whole == holds_window(bytes, offset as int, N as nat)
}

/// `50 4B 03 04`, `50 4B 05 06` or `50 4B 07 08` at the start of the window.
pub open spec fn is_zip_signature(w: Seq<u8>) -> bool {
    &&& w.len() >= 4
    &&& w[0] == 0x50
    &&& w[1] == 0x4b
    &&& ((w[2] == 0x03 && w[3] == 0x04) || (w[2] == 0x05 && w[3] == 0x06) || (w[2] == 0x07
        && w[3] == 0x08))
}

/// `37 7A BC AF 27 1C` at the start of the window, before two version bytes.
pub open spec fn is_sevenz_signature(w: Seq<u8>) -> bool {
    &&& w.len() >= 8
    &&& w[0] == 0x37
    &&& w[1] == 0x7a
    &&& w[2] == 0xbc
    &&& w[3] == 0xaf
    &&& w[4] == 0x27
    &&& w[5] == 0x1c
}

/// The window is `"ustar\0" "00"` or `"ustar  \0"`.
pub open spec fn is_ustar_magic(w: Seq<u8>) -> bool {
    &&& w.len() == 8
    &&& w[0] == 0x75
    &&& w[1] == 0x73
    &&& w[2] == 0x74
    &&& w[3] == 0x61
    &&& w[4] == 0x72
    &&& ((w[5] == 0x00 && w[6] == 0x30 && w[7] == 0x30) || (w[5] == 0x20 && w[6] == 0x20 && w[7]
        == 0x00))
}

/// The window is ASCII `CD001`.
pub open spec fn is_iso_identifier(w: Seq<u8>) -> bool {
    &&& w.len() == 5
    &&& w[0] == 0x43
    &&& w[1] == 0x44
    &&& w[2] == 0x30
    &&& w[3] == 0x30
    &&& w[4] == 0x31
}

/// Reads the window of `N` bytes at `offset`.
pub fn read_window<const N: usize>(bytes: &Vec<u8>, offset: u64) -> (r: MagicBytesAt<N>)
    ensures
        r.0 == offset,
        r.1@ == window(bytes@, offset as int, N as nat),
{
    let mut out = [0u8;N];
    let len: usize = bytes.len();
    let mut i: usize = 0;
    while i < N
        invariant
            i <= N,
            len == bytes@.len(),
            out@.len() == N,
            forall|j: int| 0 <= j < i ==> out@[j] == window(bytes@, offset as int, N as nat)[j],
        decreases N - i,
    {
        if offset < len as u64 && (i as u64) < len as u64 - offset {
            let at: usize = (offset + i as u64) as usize;
            out[i] = bytes[at];
        } else {
            out[i] = 0;
        }
        i += 1;
    }
    assert(out@ =~= window(bytes@, offset as int, N as nat));
    MagicBytesAt(offset, out)
}

/// Probes the window of `N` bytes at `offset`.
pub fn probe<const N: usize>(bytes: &Vec<u8>, offset: u64) -> (r: Probe<N>)
    ensures
        probed(r, bytes@, offset),
{
    let len: usize = bytes.len();
    let whole = offset <= len as u64 && N as u64 <= len as u64 - offset;
    Probe { found: read_window::<N>(bytes, offset), whole }
}

pub fn has_zip_signature(w: &[u8; 8]) -> (r: bool)
    ensures
        r == is_zip_signature(w@),
{
    w[0] == 0x50 && w[1] == 0x4b && ((w[2] == 0x03 && w[3] == 0x04) || (w[2] == 0x05 && w[3]
        == 0x06) || (w[2] == 0x07 && w[3] == 0x08))
}

pub fn has_sevenz_signature(w: &[u8; 8]) -> (r: bool)
    ensures
        r == is_sevenz_signature(w@),
{
    w[0] == 0x37 && w[1] == 0x7a && w[2] == 0xbc && w[3] == 0xaf && w[4] == 0x27 && w[5] == 0x1c
}

pub fn has_ustar_magic(w: &[u8; 8]) -> (r: bool)
    ensures
        r == is_ustar_magic(w@),
{
    w[0] == 0x75 && w[1] == 0x73 && w[2] == 0x74 && w[3] == 0x61 && w[4] == 0x72 && ((w[5] == 0x00
        && w[6] == 0x30 && w[7] == 0x30) || (w[5] == 0x20 && w[6] == 0x20 && w[7] == 0x00))
}

pub fn has_iso_identifier(w: &[u8; 5]) -> (r: bool)
    ensures
        r == is_iso_identifier(w@),
{
    w[0] == 0x43 && w[1] == 0x44 && w[2] == 0x30 && w[3] == 0x30 && w[4] == 0x31
}

} // verus!
