//! A readable, seekable view of the bytes of an archive.
use vstd::prelude::*;

verus! {

#[verifier::external_type_specification]
pub struct ExSeekFrom(std::io::SeekFrom);

/// The error of a read that met the end of the source too early
/// (`std::io::ErrorKind::UnexpectedEof`).
#[verifier::external_body]
pub(crate) fn unexpected_end() -> std::io::Error {
    std::io::Error::from(std::io::ErrorKind::UnexpectedEof)
}

/// The error of a seek to a negative or overflowing position
/// (`std::io::ErrorKind::InvalidInput`).
#[verifier::external_body]
fn invalid_seek() -> std::io::Error {
    std::io::Error::from(std::io::ErrorKind::InvalidInput)
}

/// A source of archive bytes: the content of a file, kept with the file's
/// path, or a buffer in memory. It has a read position of its own; a clone
/// is an independent handle that starts again at the first byte.
#[derive(Debug)]
pub struct DataSource<'a> {
    bytes: &'a Vec<u8>,
    position: u64,
    path: Option<String>,
}

/// The mathematical value of a [`DataSource`].
pub struct DataSourceView {
    pub bytes: Seq<u8>,
    pub position: u64,
    pub path: Option<Seq<char>>,
}

impl<'a> View for DataSource<'a> {
    type V = DataSourceView;

    closed spec fn view(&self) -> DataSourceView {
        DataSourceView {
            bytes: self.bytes@,
            position: self.position,
            path: match self.path {
                Some(p) => Some(p@),
                None => None,
            },
        }
    }
}

impl DataSourceView {
    /// The name of the source in messages: the path of the file, or `stream`
    /// for a buffer in memory.
    pub open spec fn label(self) -> Seq<char> {
        match self.path {
            Some(p) => p,
            None => "stream"@,
        }
    }

    /// The bytes that a read of `n` bytes yields at the current position.
    pub open spec fn readable(self, n: nat) -> Seq<u8> {
        if self.position >= self.bytes.len() {
            Seq::empty()
        } else if self.position + n >= self.bytes.len() {
            self.bytes.skip(self.position as int)
        } else {
            self.bytes.subrange(self.position as int, self.position + n)
        }
    }

    /// The position that a seek leads to, where it is a valid one.
    pub open spec fn target(self, pos: std::io::SeekFrom) -> Option<u64> {
        let at: int = match pos {
            std::io::SeekFrom::Start(n) => n as int,
            std::io::SeekFrom::End(n) => self.bytes.len() + n,
            std::io::SeekFrom::Current(n) => self.position + n,
        };
        if 0 <= at <= u64::MAX {
            Some(at as u64)
        } else {
            None
        }
    }
}

/// Something whose length in bytes can be asked for.
pub trait Lengthed {
    /// The length that `len` reports.
    spec fn byte_len(&self) -> nat;

    fn len(&self) -> (r: Result<u64, std::io::Error>)
        ensures
            r matches Ok(n) ==> n == self.byte_len(),
    ;

    fn is_empty(&self) -> (r: Result<bool, std::io::Error>)
        ensures
            r matches Ok(b) ==> b == (self.byte_len() == 0),
    ;
}

impl<'a> DataSource<'a> {
    /// The source that holds the content of the file at `path`.
    pub fn file(path: &str, bytes: &'a Vec<u8>) -> (r: Self)
        ensures
            r@ == (DataSourceView { bytes: bytes@, position: 0, path: Some(path@) }),
    {
        DataSource { bytes, position: 0, path: Some(path.to_owned()) }
    }

    /// The source that views a buffer in memory.
    pub fn stream(data: &'a Vec<u8>) -> (r: Self)
        ensures
            r@ == (DataSourceView { bytes: data@, position: 0, path: None }),
    {
        DataSource { bytes: data, position: 0, path: None }
    }

    /// Derives an independent handle to the same bytes, at the first byte.
    /// The handle of this one is left where it is.
    pub fn try_clone(&self) -> (r: Result<Self, std::io::Error>)
        ensures
            r matches Ok(c) && c@ == (DataSourceView { position: 0, ..self@ }),
    {
        let path = match &self.path {
            Some(p) => Some(p.clone()),
            None => None,
        };
        Ok(DataSource { bytes: self.bytes, position: 0, path })
    }

    /// The bytes of the source, whatever the read position.
    pub fn bytes(&self) -> (r: &'a Vec<u8>)
        ensures
            r@ == self@.bytes,
    {
        self.bytes
    }

    /// The read position.
    pub fn position(&self) -> (r: u64)
        ensures
            r == self@.position,
    {
        self.position
    }

    /// Moves the read position. A position before the first byte, or beyond
    /// what a `u64` holds, is refused and leaves the position as it was; one
    /// past the last byte is accepted.
    pub fn seek(&mut self, pos: std::io::SeekFrom) -> (r: Result<u64, std::io::Error>)
        ensures
            final(self)@.bytes == old(self)@.bytes,
            final(self)@.path == old(self)@.path,
            match old(self)@.target(pos) {
                Some(at) => r == Ok::<u64, std::io::Error>(at) && final(self)@.position == at,
                None => r is Err && final(self)@.position == old(self)@.position,
            },
    {
        let len: u64 = self.bytes.len() as u64;
        let at: Option<u64> = match pos {
            std::io::SeekFrom::Start(n) => Some(n),
            std::io::SeekFrom::End(n) => len.checked_add_signed(n),
            std::io::SeekFrom::Current(n) => self.position.checked_add_signed(n),
        };
        match at {
            Some(n) => {
                self.position = n;
                Ok(n)
            },
            None => Err(invalid_seek()),
        }
    }

    /// Reads what the source holds at the read position into `buf`, as far as
    /// `buf` has room, and moves the position past it. Returns how many bytes
    /// were read: fewer than `buf` holds only at the end of the source.
    pub fn read(&mut self, buf: &mut [u8]) -> (r: Result<usize, std::io::Error>)
        ensures
            final(self)@.bytes == old(self)@.bytes,
            final(self)@.path == old(self)@.path,
            final(buf)@.len() == old(buf)@.len(),
            r matches Ok(n) && n == old(self)@.readable(old(buf)@.len()).len(),
            final(self)@.position == old(self)@.position + old(self)@.readable(old(buf)@.len()).len(),
            final(buf)@ == old(self)@.readable(old(buf)@.len()) + old(buf)@.skip(
                old(self)@.readable(old(buf)@.len()).len() as int,
            ),
    {
        let len: usize = self.bytes.len();
        let room: usize = buf.len();
        if self.position >= len as u64 {
            assert(buf@ =~= Seq::<u8>::empty() + buf@.skip(0));
            return Ok(0);
        }
        let start: usize = self.position as usize;
        let count: usize = if room >= len - start {
            len - start
        } else {
            room
        };
        let mut i: usize = 0;
        while i < count
            invariant
                i <= count,
                count <= room,
                start + count <= len,
                len == self.bytes@.len(),
                room == buf@.len(),
                room == old(buf)@.len(),
                forall|j: int| 0 <= j < i ==> buf@[j] == self.bytes@[start + j],
                forall|j: int| i <= j < room ==> buf@[j] == old(buf)@[j],
            decreases count - i,
        {
            buf[i] = self.bytes[start + i];
            i += 1;
        }
        self.position = self.position + count as u64;
        assert(buf@ =~= old(self)@.readable(room as nat) + old(buf)@.skip(count as int));
        Ok(count)
    }

    /// Fills `buf` from the read position, or fails without moving the
    /// position where the source holds too few bytes for that.
    pub fn read_exact(&mut self, buf: &mut [u8]) -> (r: Result<(), std::io::Error>)
        ensures
            final(self)@.bytes == old(self)@.bytes,
            final(self)@.path == old(self)@.path,
            final(buf)@.len() == old(buf)@.len(),
            r is Ok <==> old(self)@.readable(old(buf)@.len()).len() == old(buf)@.len(),
            r is Ok ==> final(buf)@ == old(self)@.readable(old(buf)@.len()) && final(self)@.position
                == old(self)@.position + old(buf)@.len(),
            r is Err ==> final(buf)@ == old(buf)@ && final(self)@.position == old(self)@.position,
    {
        let len: usize = self.bytes.len();
        let room: usize = buf.len();
        if room > 0 && (self.position > len as u64 || room > len - self.position as usize) {
            return Err(unexpected_end());
        }
        match self.read(buf) {
            Ok(_) => Ok(()),
            Err(e) => Err(e),
        }
    }

    /// The name of the source in messages.
    pub fn to_string(&self) -> (r: String)
        ensures
            r@ == self@.label(),
    {
        match &self.path {
            Some(p) => p.clone(),
            None => "stream".to_owned(),
        }
    }
}

impl<'a> Clone for DataSource<'a> {
    /// A clone is an independent handle that starts at the first byte.
    fn clone(&self) -> (r: Self)
        ensures
            r@ == (DataSourceView { position: 0, ..self@ }),
    {
        let path = match &self.path {
            Some(p) => Some(p.clone()),
            None => None,
        };
        DataSource { bytes: self.bytes, position: 0, path }
    }
}

impl<'a> Lengthed for DataSource<'a> {
    open spec fn byte_len(&self) -> nat {
        self@.bytes.len()
    }

    fn len(&self) -> (r: Result<u64, std::io::Error>)
        ensures
            r is Ok,
    {
        let n = self.bytes.len();
        Ok(n as u64)
    }

    fn is_empty(&self) -> (r: Result<bool, std::io::Error>)
        ensures
            r is Ok,
    {
        Ok(self.bytes.len() == 0)
    }
}

} // verus!
