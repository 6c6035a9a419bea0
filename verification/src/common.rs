//! The byte cursor that the section-header decoder reads from, the
//! borrowed byte-string type its name accessor returns, and the one
//! error the crate reports.

use vstd::prelude::*;
use vstd::slice::slice_subrange;

verus! {

/// The value of two bytes read as a little-endian 16-bit integer.
pub open spec fn u16_le(b: Seq<u8>) -> u16
    recommends
        b.len() == 2,
{
    (b[0] + b[1] * 0x100) as u16
}

/// The value of four bytes read as a little-endian 32-bit integer.
pub open spec fn u32_le(b: Seq<u8>) -> u32
    recommends
        b.len() == 4,
{
    (b[0] + b[1] * 0x100 + b[2] * 0x10000 + b[3] * 0x1000000) as u32
}

/// The single failure mode of this crate: a read asked for more bytes
/// than the cursor has left.
#[derive(Debug, Clone, Copy, PartialEq, Eq, Structural)]
pub enum Error {
    UnexpectedEof,
}

/// A borrowed byte string: the form in which section names come out of
/// a header. The bytes are printable ASCII by convention of the file
/// format, but nothing here depends on that.
#[derive(Debug, Clone, Copy)]
pub struct RawString<'b> {
    bytes: &'b [u8],
}

impl<'b> View for RawString<'b> {
    type V = Seq<u8>;

    closed spec fn view(&self) -> Seq<u8> {
        self.bytes@
    }
}

impl<'b> RawString<'b> {
    /// A string over exactly the given bytes.
    pub fn new(bytes: &'b [u8]) -> (r: RawString<'b>)
        ensures
            r@ == bytes@,
    {
        RawString { bytes }
    }

    /// The underlying bytes.
    pub fn as_bytes(&self) -> (r: &'b [u8])
        ensures
            r@ == self@,
    {
        self.bytes
    }

    /// The length in bytes.
    pub fn len(&self) -> (r: usize)
        ensures
            r == self@.len(),
    {
        self.bytes.len()
    }

    /// Whether the string is empty.
    pub fn is_empty(&self) -> (r: bool)
        ensures
            r == (self@.len() == 0),
    {
        self.bytes.len() == 0
    }
}

impl<'b> From<&'b [u8]> for RawString<'b> {
    fn from(bytes: &'b [u8]) -> (r: RawString<'b>) {
        RawString { bytes }
    }
}

impl<'b> vstd::std_specs::convert::FromSpecImpl<&'b [u8]> for RawString<'b> {
    open spec fn obeys_from_spec() -> bool {
        true
    }

    closed spec fn from_spec(bytes: &'b [u8]) -> RawString<'b> {
        RawString { bytes }
    }
}

impl<'b> PartialEq for RawString<'b> {
    fn eq(&self, other: &RawString<'b>) -> (r: bool) {
        bytes_equal(self.bytes, other.bytes)
    }
}

impl<'b> vstd::std_specs::cmp::PartialEqSpecImpl for RawString<'b> {
    open spec fn obeys_eq_spec() -> bool {
        true
    }

    open spec fn eq_spec(&self, other: &RawString<'b>) -> bool {
        self@ == other@
    }
}

/// Element-wise comparison of two byte slices.
fn bytes_equal(a: &[u8], b: &[u8]) -> (r: bool)
    ensures
        r == (a@ == b@),
{
    if a.len() != b.len() {
        return false;
    }
    let n = a.len();
    let mut i: usize = 0;
    while i < n
        invariant
            n == a@.len() == b@.len(),
            i <= n,
            forall|j: int| 0 <= j < i ==> a@[j] == b@[j],
        decreases n - i,
    {
        if a[i] != b[i] {
            return false;
        }
        i = i + 1;
    }
    proof {
        assert(a@ =~= b@);
    }
    true
}

/// A read cursor over a borrowed byte slice.
///
/// The cursor remembers the whole slice and a position within it; every
/// read consumes bytes from the front of the remaining suffix, and a
/// read that would run past the end fails with [`Error::UnexpectedEof`]
/// and leaves the cursor untouched.
pub struct ParseBuffer<'b> {
    buf: &'b [u8],
    pos: usize,
}

impl<'b> ParseBuffer<'b> {
    /// The underlying slice, in full.
    pub closed spec fn spec_buf(&self) -> Seq<u8> {
        self.buf@
    }

    /// How many bytes have been consumed so far.
    pub closed spec fn spec_pos(&self) -> int {
        self.pos as int
    }

    /// The position never runs past the end of the slice.
    pub closed spec fn wf(&self) -> bool {
        self.pos <= self.buf@.len()
    }

    /// The bytes not yet consumed.
    pub open spec fn remaining(&self) -> Seq<u8> {
        self.spec_buf().skip(self.spec_pos())
    }

    /// A fresh cursor positioned at the first byte of `buf`.
    pub fn new(buf: &'b [u8]) -> (r: ParseBuffer<'b>)
        ensures
            r.wf(),
            r.spec_buf() == buf@,
            r.spec_pos() == 0,
            r.remaining() == buf@,
    {
        ParseBuffer { buf, pos: 0 }
    }

    /// How many bytes have been consumed so far.
    pub fn pos(&self) -> (r: usize)
        ensures
            r == self.spec_pos(),
    {
        self.pos
    }

    /// How many bytes remain to be read.
    pub fn len(&self) -> (r: usize)
        requires
            self.wf(),
        ensures
            r == self.remaining().len(),
    {
        self.buf.len() - self.pos
    }

    /// Whether the cursor has been read to the end.
    pub fn is_empty(&self) -> (r: bool)
        requires
            self.wf(),
        ensures
            r == (self.remaining().len() == 0),
    {
        self.len() == 0
    }

    /// Borrow the next `n` bytes and advance past them; fail without
    /// moving when fewer than `n` remain.
    pub fn take(&mut self, n: usize) -> (r: Result<&'b [u8], Error>)
        requires
            old(self).wf(),
        ensures
            final(self).wf(),
            final(self).spec_buf() == old(self).spec_buf(),
            n <= old(self).remaining().len() ==> {
                &&& r is Ok
                &&& r->Ok_0@ == old(self).remaining().take(n as int)
                &&& final(self).spec_pos() == old(self).spec_pos() + n
                &&& final(self).remaining() == old(self).remaining().skip(n as int)
            },
            n > old(self).remaining().len() ==> {
                &&& r is Err
                &&& r->Err_0 == Error::UnexpectedEof
                &&& *final(self) == *old(self)
            },
    {
        if n > self.buf.len() - self.pos {
            Err(Error::UnexpectedEof)
        } else {
            let taken = slice_subrange(self.buf, self.pos, self.pos + n);
            proof {
                assert(taken@ =~= old(self).remaining().take(n as int));
                assert(self.buf@.skip(self.pos as int + n as int) =~= old(
                    self,
                ).remaining().skip(n as int));
            }
            self.pos = self.pos + n;
            Ok(taken)
        }
    }

    /// Consume two bytes and return them as a little-endian `u16`; fail
    /// without moving when fewer than two remain.
    pub fn parse_u16(&mut self) -> (r: Result<u16, Error>)
        requires
            old(self).wf(),
        ensures
            final(self).wf(),
            final(self).spec_buf() == old(self).spec_buf(),
            old(self).remaining().len() >= 2 ==> {
                &&& r is Ok
                &&& r->Ok_0 == u16_le(old(self).remaining().take(2))
                &&& final(self).spec_pos() == old(self).spec_pos() + 2
                &&& final(self).remaining() == old(self).remaining().skip(2)
            },
            old(self).remaining().len() < 2 ==> {
                &&& r is Err
                &&& r->Err_0 == Error::UnexpectedEof
                &&& *final(self) == *old(self)
            },
    {
        match self.take(2) {
            Ok(bytes) => Ok(bytes[0] as u16 + bytes[1] as u16 * 0x100),
            Err(e) => Err(e),
        }
    }

    /// Consume four bytes and return them as a little-endian `u32`; fail
    /// without moving when fewer than four remain.
    pub fn parse_u32(&mut self) -> (r: Result<u32, Error>)
        requires
            old(self).wf(),
        ensures
            final(self).wf(),
            final(self).spec_buf() == old(self).spec_buf(),
            old(self).remaining().len() >= 4 ==> {
                &&& r is Ok
                &&& r->Ok_0 == u32_le(old(self).remaining().take(4))
                &&& final(self).spec_pos() == old(self).spec_pos() + 4
                &&& final(self).remaining() == old(self).remaining().skip(4)
            },
            old(self).remaining().len() < 4 ==> {
                &&& r is Err
                &&& r->Err_0 == Error::UnexpectedEof
                &&& *final(self) == *old(self)
            },
    {
        match self.take(4) {
            Ok(bytes) => Ok(
                bytes[0] as u32 + bytes[1] as u32 * 0x100 + bytes[2] as u32 * 0x10000 + bytes[3]
                    as u32 * 0x1000000,
            ),
            Err(e) => Err(e),
        }
    }
}

impl<'b> From<&'b [u8]> for ParseBuffer<'b> {
    fn from(buf: &'b [u8]) -> (r: ParseBuffer<'b>) {
        ParseBuffer { buf, pos: 0 }
    }
}

impl<'b> vstd::std_specs::convert::FromSpecImpl<&'b [u8]> for ParseBuffer<'b> {
    open spec fn obeys_from_spec() -> bool {
        true
    }

    closed spec fn from_spec(buf: &'b [u8]) -> ParseBuffer<'b> {
        ParseBuffer { buf, pos: 0 }
    }
}

/// What `RawString::from` yields: a string over exactly the given
/// bytes, as [`RawString::new`] builds it.
pub proof fn lemma_raw_string_from<'b>(bytes: &'b [u8])
    ensures
        <RawString<'b> as vstd::std_specs::convert::FromSpec<&'b [u8]>>::from_spec(bytes)@
            == bytes@,
{
}

/// What `ParseBuffer::from` yields: a fresh cursor at position zero
/// over the given slice, as [`ParseBuffer::new`] builds it.
pub proof fn lemma_parse_buffer_from<'b>(buf: &'b [u8])
    ensures
        <ParseBuffer<'b> as vstd::std_specs::convert::FromSpec<&'b [u8]>>::from_spec(buf).wf(),
        <ParseBuffer<'b> as vstd::std_specs::convert::FromSpec<&'b [u8]>>::from_spec(buf).spec_buf()
            == buf@,
        <ParseBuffer<'b> as vstd::std_specs::convert::FromSpec<&'b [u8]>>::from_spec(buf).spec_pos()
            == 0,
{
}

} // verus!
