//! Byte sources that the decoder reads from.
use vstd::prelude::*;
use vstd::slice::slice_subrange;
use byteorder::{BigEndian, ByteOrder};
use crate::error::Error;

verus! {

/// Bytes handed out by a reader: `Current` ones live as long as the borrow of the reader,
/// `Other` ones as long as the reader's input itself.
#[derive(Debug)]
pub enum EitherLifetime<'c, 'o> {
    Current(&'c [u8]),
    Other(&'o [u8]),
}

impl<'c, 'o> EitherLifetime<'c, 'o> {
    /// The bytes, whichever lifetime they have.
    pub open spec fn bytes(&self) -> Seq<u8> {
        match self {
            EitherLifetime::Current(b) => b@,
            EitherLifetime::Other(b) => b@,
        }
    }

    /// The bytes, whichever lifetime they have.
    pub fn as_slice(&self) -> (r: &[u8])
        ensures
            r@ == self.bytes(),
    {
        match self {
            EitherLifetime::Current(b) => b,
            EitherLifetime::Other(b) => b,
        }
    }
}

/// A source of bytes whose input outlives `'r`.
pub trait Reader<'r> {
    /// Whether the spec functions below describe this reader; a reader that leaves them out
    /// promises nothing of what it hands out.
    open spec fn described(&self) -> bool {
        false
    }

    /// The bytes that are still to be read.
    open spec fn pending(&self) -> Seq<u8> {
        Seq::empty()
    }

    /// How many bytes this reader has handed out so far.
    open spec fn consumed(&self) -> nat {
        0
    }

    /// Reads of this reader fail only for want of input.
    open spec fn exact(&self) -> bool {
        false
    }

    /// The bytes that this reader hands out are borrowed from its input (`Other`).
    open spec fn borrows(&self) -> bool {
        false
    }

    /// Reads the next `size` bytes.
    fn read_bytes<'a>(&'a mut self, size: usize) -> (r: Result<EitherLifetime<'a, 'r>, Error>)
        ensures
            final(self).described() == old(self).described(),
            final(self).exact() == old(self).exact(),
            final(self).borrows() == old(self).borrows(),
            old(self).exact() ==> old(self).described(),
            r is Ok ==> r->Ok_0.bytes().len() == size,
            old(self).described() && r is Ok ==> size <= old(self).pending().len(),
            old(self).described() && r is Ok ==> r->Ok_0.bytes() == old(self).pending().take(
                size as int,
            ),
            old(self).described() && r is Ok ==> final(self).pending() == old(self).pending().skip(
                size as int,
            ),
            old(self).described() && r is Ok ==> final(self).consumed() == old(self).consumed()
                + size,
            old(self).exact() ==> (r is Ok <==> size <= old(self).pending().len()),
            old(self).exact() && r is Err ==> final(self).pending() == old(self).pending(),
            old(self).exact() && r is Err ==> final(self).consumed() == old(self).consumed(),
            old(self).borrows() && r is Ok ==> r->Ok_0 is Other,
    ;
}

/// Relies on byteorder's `BigEndian::read_u16`: the first two bytes, most significant first.
#[verifier::external_body]
fn get_u16(buf: &[u8]) -> (r: u16)
    requires
        buf@.len() >= 2,
    ensures
        r as nat == crate::cbor::be_value(buf@.take(2)),
{
    BigEndian::read_u16(buf)
}

/// Relies on byteorder's `BigEndian::read_u32`: the first four bytes, most significant first.
#[verifier::external_body]
fn get_u32(buf: &[u8]) -> (r: u32)
    requires
        buf@.len() >= 4,
    ensures
        r as nat == crate::cbor::be_value(buf@.take(4)),
{
    BigEndian::read_u32(buf)
}

/// Relies on byteorder's `BigEndian::read_u64`: the first eight bytes, most significant first.
#[verifier::external_body]
fn get_u64(buf: &[u8]) -> (r: u64)
    requires
        buf@.len() >= 8,
    ensures
        r as nat == crate::cbor::be_value(buf@.take(8)),
{
    BigEndian::read_u64(buf)
}

/// For a described reader, `r` holds the big-endian number in the next `w` bytes of `pre`, and
/// `post` has read past them.
pub open spec fn read_number<'r, R: Reader<'r>>(pre: R, post: R, r: Result<u64, Error>, w: nat) -> bool {
    &&& post.described() == pre.described()
    &&& post.exact() == pre.exact()
    &&& post.borrows() == pre.borrows()
    &&& pre.exact() ==> pre.described()
    &&& pre.described() && r is Ok ==> w <= pre.pending().len()
    &&& pre.described() && r is Ok ==> r->Ok_0 as nat == crate::cbor::be_value(
        pre.pending().take(w as int),
    )
    &&& pre.described() && r is Ok ==> post.pending() == pre.pending().skip(w as int)
    &&& pre.described() && r is Ok ==> post.consumed() == pre.consumed() + w
    &&& pre.exact() ==> (r is Ok <==> w <= pre.pending().len())
    &&& pre.exact() && r is Err ==> post.pending() == pre.pending()
    &&& pre.exact() && r is Err ==> post.consumed() == pre.consumed()
}

/// Reads a big-endian unsigned number of `w` bytes, `w` being 1, 2, 4 or 8.
pub fn read_be<'r, R: Reader<'r>>(reader: &mut R, w: usize) -> (r: Result<u64, Error>)
    requires
        w == 1 || w == 2 || w == 4 || w == 8,
    ensures
        read_number(*old(reader), *final(reader), r, w as nat),
{
    let bytes = reader.read_bytes(w)?;
    let b = bytes.as_slice();
    assert(b@.take(w as int) =~= b@);
    if w == 1 {
        proof {
            reveal_with_fuel(crate::cbor::be_value, 2);
            assert(b@.take(1).drop_last() =~= Seq::<u8>::empty());
        }
        Ok(b[0] as u64)
    } else if w == 2 {
        Ok(get_u16(b) as u64)
    } else if w == 4 {
        Ok(get_u32(b) as u64)
    } else {
        Ok(get_u64(b))
    }
}

/// How many bytes a scratch buffer of `capacity` bytes must grow by to hold `size` bytes: none
/// when it holds them already; an error when the buffer is limited to its capacity and `size`
/// exceeds it.
pub fn scratch_growth(limited: bool, capacity: usize, size: usize) -> (r: Result<usize, Error>)
    ensures
        size <= capacity ==> r == Ok::<usize, Error>(0),
        size > capacity && !limited ==> r == Ok::<usize, Error>((size - capacity) as usize),
        size > capacity && limited ==> r matches Err(Error::Message(_)),
{
    if size <= capacity {
        Ok(0)
    } else if limited {
        Err(Error::Message("Buffer limit exceeded when reading from a stream"))
    } else {
        Ok(size - capacity)
    }
}

/// A reader over a byte slice; it hands out parts of the slice itself.
pub struct SliceReader<'r> {
    slice: &'r [u8],
    index: usize,
}

impl<'r> SliceReader<'r> {
    /// The whole input.
    pub closed spec fn input(&self) -> Seq<u8> {
        self.slice@
    }

    /// How many bytes have been read.
    pub closed spec fn position(&self) -> nat {
        self.index as nat
    }

    #[verifier::type_invariant]
    closed spec fn wf(&self) -> bool {
        self.index <= self.slice@.len()
    }

    /// End of a read of `size` bytes, or the error when the input is too short.
    fn end(&self, size: usize) -> (r: Result<usize, Error>)
        ensures
            r is Ok <==> self.position() + size <= self.input().len(),
            r is Ok ==> r->Ok_0 == self.position() + size,
    {
        let len = self.slice.len();
        match self.index.checked_add(size) {
            Some(end) => {
                if end <= len {
                    Ok(end)
                } else {
                    Err(Error::Message("Try to read after the end of the slice."))
                }
            },
            None => Err(Error::Message("Try to read after the end of the slice.")),
        }
    }

    pub fn new(slice: &'r [u8]) -> (r: Self)
        ensures
            r.input() == slice@,
            r.position() == 0,
    {
        SliceReader { slice: slice, index: 0 }
    }

    /// Reads the next `size` bytes, as a part of the input.
    pub fn read_borrowed(&mut self, size: usize) -> (r: Result<&'r [u8], Error>)
        ensures
            final(self).input() == old(self).input(),
            r is Ok <==> old(self).position() + size <= old(self).input().len(),
            r is Ok ==> r->Ok_0@ == old(self).input().subrange(
                old(self).position() as int,
                old(self).position() + size,
            ),
            r is Ok ==> final(self).position() == old(self).position() + size,
            r is Err ==> final(self).position() == old(self).position(),
    {
        proof {
            use_type_invariant(&*self);
        }
        let end = self.end(size)?;
        let bytes = slice_subrange(self.slice, self.index, end);
        self.index = end;
        Ok(bytes)
    }
}

impl<'r> Reader<'r> for SliceReader<'r> {
    open spec fn described(&self) -> bool {
        true
    }

    open spec fn pending(&self) -> Seq<u8> {
        self.input().skip(self.position() as int)
    }

    open spec fn consumed(&self) -> nat {
        self.position()
    }

    open spec fn exact(&self) -> bool {
        true
    }

    open spec fn borrows(&self) -> bool {
        true
    }

    fn read_bytes<'a>(&'a mut self, size: usize) -> (r: Result<EitherLifetime<'a, 'r>, Error>) {
        proof {
            use_type_invariant(&*self);
        }
        let bytes = self.read_borrowed(size)?;
        proof {
            use_type_invariant(&*self);
            assert(bytes@ =~= old(self).pending().take(size as int));
            assert(self.pending() =~= old(self).pending().skip(size as int));
        }
        Ok(EitherLifetime::Other(bytes))
    }
}

} // verus!
