//! The encoder: header ladder and the emission of every primitive and composite head.
use vstd::prelude::*;
use vstd::slice::slice_subrange;
use vstd::string::StringSliceAdditionalSpecFns;
use byteorder::{BigEndian, ByteOrder};
use crate::cbor::{
    HEADER_FALSE, HEADER_FLOAT_32, HEADER_FLOAT_64, HEADER_MAP_ONE, HEADER_NULL, HEADER_TRUE,
    HEADER_UNDEFINED, MAJOR_ARRAY, MAJOR_BYTE, MAJOR_MAP, MAJOR_NEGATIVE, MAJOR_POSITIVE,
    MAJOR_TEXT, SIZE_16, SIZE_32, SIZE_64, SIZE_8,
};
use crate::error::Error;
use crate::write::Writer;

verus! {

/// The head of a signed integer: major type 1 with argument `-1 - v` when `v` is negative,
/// major type 0 with argument `v` otherwise.
pub open spec fn encode_int(v: int) -> Seq<u8> {
    if v < 0 {
        crate::cbor::encode_head(1, (-1 - v) as nat)
    } else {
        crate::cbor::encode_head(0, v as nat)
    }
}

/// A text or byte string: its head, then its bytes.
pub open spec fn encode_string(major: nat, bytes: Seq<u8>) -> Seq<u8> {
    crate::cbor::encode_head(major, bytes.len()) + bytes
}

/// The frame of an enum variant that carries data: a map of one pair, then the variant's name.
pub open spec fn encode_variant_key(name: Seq<u8>) -> Seq<u8> {
    seq![0xa1u8] + encode_string(3, name)
}

/// `r` reports that `out` went to the writer of `pre`, and `post` is what followed: for a
/// described writer, `out` follows what it held, and when the writer knows its room, the write
/// succeeds exactly when `out` fits in it.
pub open spec fn emitted<W: Writer>(
    pre: Serializer<W>,
    post: Serializer<W>,
    r: Result<usize, Error>,
    out: Seq<u8>,
) -> bool {
    &&& post.sink().described() == pre.sink().described()
    &&& r is Ok ==> r->Ok_0 == out.len()
    &&& pre.sink().described() && r is Ok ==> post.sink().written() == pre.sink().written() + out
    &&& pre.sink().described() && r is Ok ==> post.sink().room() == crate::write::room_after(
        pre.sink().room(),
        out.len(),
    )
    &&& pre.sink().described() ==> (pre.sink().room() matches Some(c) ==> (r is Ok <==> out.len()
        <= c))
}

/// A head takes one byte and then the argument bytes of its size class.
pub proof fn lemma_head_len(major: nat, v: nat)
    requires
        v <= u64::MAX,
    ensures
        crate::cbor::encode_head(major, v).len() == 1 + crate::cbor::arg_width(v),
{
    if v >= 24 {
        let w = crate::cbor::arg_width(v);
        assert(v < crate::cbor::pow256(w)) by {
            reveal_with_fuel(crate::cbor::pow256, 9);
        }
        crate::cbor::lemma_be_round_trip(v, w);
    }
}

/// Relies on byteorder's `BigEndian::write_u16`: the two bytes of `v`, most significant first,
/// at the front of the slice it is given.
#[verifier::external_body]
fn put_u16(buf: &mut [u8; 9], v: u16)
    ensures
        final(buf)@.subrange(1, 3) == crate::cbor::be_bytes(v as nat, 2),
        final(buf)@[0] == old(buf)@[0],
{
    BigEndian::write_u16(&mut buf[1..], v);
}

/// Relies on byteorder's `BigEndian::write_u32`: the four bytes of `v`, most significant first,
/// at the front of the slice it is given.
#[verifier::external_body]
fn put_u32(buf: &mut [u8; 9], v: u32)
    ensures
        final(buf)@.subrange(1, 5) == crate::cbor::be_bytes(v as nat, 4),
        final(buf)@[0] == old(buf)@[0],
{
    BigEndian::write_u32(&mut buf[1..], v);
}

/// Relies on byteorder's `BigEndian::write_u64`: the eight bytes of `v`, most significant first,
/// at the front of the slice it is given.
#[verifier::external_body]
fn put_u64(buf: &mut [u8; 9], v: u64)
    ensures
        final(buf)@.subrange(1, 9) == crate::cbor::be_bytes(v as nat, 8),
        final(buf)@[0] == old(buf)@[0],
{
    BigEndian::write_u64(&mut buf[1..], v);
}

/// Relies on std's `char::encode_utf8`: the UTF-8 form of `c`, one to four bytes, written from
/// the second byte of the buffer on; returns its length.
#[verifier::external_body]
fn put_char(buf: &mut [u8; 9], c: char) -> (n: usize)
    ensures
        1 <= n <= 4,
        n == vstd::utf8::encode_utf8(seq![c]).len(),
        final(buf)@.subrange(1, 1 + n as int) == vstd::utf8::encode_utf8(seq![c]),
        final(buf)@[0] == old(buf)@[0],
{
    c.encode_utf8(&mut buf[1..5]).len()
}

/// Encoder that writes each item it is given to a writer.
pub struct Serializer<W: Writer> {
    writer: W,
    buffer: [u8; 9],
    len_buffer: usize,
}

impl<W: Writer> Serializer<W> {
    /// The writer, as it stands.
    pub closed spec fn sink(self) -> W {
        self.writer
    }

    pub fn new(writer: W) -> (r: Self)
        ensures
            r.sink() == writer,
    {
        Serializer { writer: writer, buffer: [0u8; 9], len_buffer: 0 }
    }

    /// Gives the writer back.
    pub fn into_inner(self) -> (r: W)
        ensures
            r == self.sink(),
    {
        self.writer
    }

    /// `true` or `false`: a single byte.
    pub fn serialize_bool(&mut self, value: bool) -> (r: Result<usize, Error>)
        ensures
            emitted(*old(self), *final(self), r, seq![if value { 0xf5u8 } else { 0xf4u8 }]),
    {
        self.buffer[0] = if value { HEADER_TRUE } else { HEADER_FALSE };
        let r = self.flush(1);
        assert(self.buffer@.subrange(0, 1) =~= seq![self.buffer@[0]]);
        r
    }

    pub fn serialize_i8(&mut self, value: i8) -> (r: Result<usize, Error>)
        ensures
            emitted(*old(self), *final(self), r, encode_int(value as int)),
    {
        if value < 0 {
            self.write_header_u8(MAJOR_NEGATIVE, (-(value + 1)) as u8)
        } else {
            self.write_header_u8(MAJOR_POSITIVE, value as u8)
        }
    }

    pub fn serialize_i16(&mut self, value: i16) -> (r: Result<usize, Error>)
        ensures
            emitted(*old(self), *final(self), r, encode_int(value as int)),
    {
        if value < 0 {
            self.write_header_u16(MAJOR_NEGATIVE, (-(value + 1)) as u16)
        } else {
            self.write_header_u16(MAJOR_POSITIVE, value as u16)
        }
    }

    pub fn serialize_i32(&mut self, value: i32) -> (r: Result<usize, Error>)
        ensures
            emitted(*old(self), *final(self), r, encode_int(value as int)),
    {
        if value < 0 {
            self.write_header_u32(MAJOR_NEGATIVE, (-(value + 1)) as u32)
        } else {
            self.write_header_u32(MAJOR_POSITIVE, value as u32)
        }
    }

    pub fn serialize_i64(&mut self, value: i64) -> (r: Result<usize, Error>)
        ensures
            emitted(*old(self), *final(self), r, encode_int(value as int)),
    {
        if value < 0 {
            self.write_header_u64(MAJOR_NEGATIVE, (-(value + 1)) as u64)
        } else {
            self.write_header_u64(MAJOR_POSITIVE, value as u64)
        }
    }

    pub fn serialize_u8(&mut self, value: u8) -> (r: Result<usize, Error>)
        ensures
            emitted(*old(self), *final(self), r, crate::cbor::encode_head(0, value as nat)),
    {
        self.write_header_u8(MAJOR_POSITIVE, value)
    }

    pub fn serialize_u16(&mut self, value: u16) -> (r: Result<usize, Error>)
        ensures
            emitted(*old(self), *final(self), r, crate::cbor::encode_head(0, value as nat)),
    {
        self.write_header_u16(MAJOR_POSITIVE, value)
    }

    pub fn serialize_u32(&mut self, value: u32) -> (r: Result<usize, Error>)
        ensures
            emitted(*old(self), *final(self), r, crate::cbor::encode_head(0, value as nat)),
    {
        self.write_header_u32(MAJOR_POSITIVE, value)
    }

    pub fn serialize_u64(&mut self, value: u64) -> (r: Result<usize, Error>)
        ensures
            emitted(*old(self), *final(self), r, crate::cbor::encode_head(0, value as nat)),
    {
        self.write_header_u64(MAJOR_POSITIVE, value)
    }

    /// A single-precision float, given by its IEEE-754 bits: `0xFA`, then the bits big-endian.
    pub fn serialize_f32_bits(&mut self, bits: u32) -> (r: Result<usize, Error>)
        ensures
            emitted(*old(self), *final(self), r, seq![0xfau8] + crate::cbor::be_bytes(bits as nat, 4)),
    {
        self.buffer[0] = HEADER_FLOAT_32;
        put_u32(&mut self.buffer, bits);
        let r = self.flush(5);
        assert(self.buffer@.subrange(0, 5) =~= seq![self.buffer@[0]] + self.buffer@.subrange(1, 5));
        r
    }

    /// A double-precision float, given by its IEEE-754 bits: `0xFB`, then the bits big-endian.
    pub fn serialize_f64_bits(&mut self, bits: u64) -> (r: Result<usize, Error>)
        ensures
            emitted(*old(self), *final(self), r, seq![0xfbu8] + crate::cbor::be_bytes(bits as nat, 8)),
    {
        self.buffer[0] = HEADER_FLOAT_64;
        put_u64(&mut self.buffer, bits);
        let r = self.flush(9);
        assert(self.buffer@.subrange(0, 9) =~= seq![self.buffer@[0]] + self.buffer@.subrange(1, 9));
        r
    }

    /// A character, as a text string of its UTF-8 form.
    pub fn serialize_char(&mut self, value: char) -> (r: Result<usize, Error>)
        ensures
            emitted(*old(self), *final(self), r, encode_string(3, vstd::utf8::encode_utf8(seq![value]))),
    {
        let n = put_char(&mut self.buffer, value);
        let ghost filled = self.buffer@;
        self.len_buffer = n;
        self.buffer[0] = 0x60 + n as u8;
        assert(self.buffer@.subrange(1, n + 1) =~= filled.subrange(1, n + 1));
        let r = self.flush(n + 1);
        assert(self.buffer@.subrange(0, n + 1) =~= seq![self.buffer@[0]] + self.buffer@.subrange(1, n + 1));
        assert(crate::cbor::encode_head(3, n as nat) =~= seq![self.buffer@[0]]);
        r
    }

    /// Writes the head for a payload of `len` bytes, then the payload.
    fn write_string(&mut self, major: u8, bytes: &[u8]) -> (r: Result<usize, Error>)
        requires
            major < 8,
            bytes@.len() + 9 <= usize::MAX,
        ensures
            emitted(*old(self), *final(self), r, encode_string(major as nat, bytes@)),
    {
        let ghost head = crate::cbor::encode_head(major as nat, bytes@.len());
        let h = self.write_header_u64(major, bytes.len() as u64)?;
        assert(h <= 9) by {
            reveal_with_fuel(crate::cbor::be_bytes, 9);
            lemma_head_len(major as nat, bytes@.len());
        }
        let p = self.writer.write(bytes)?;
        self.len_buffer = h + p;
        proof {
            if old(self).sink().described() {
                assert(self.sink().written() =~= old(self).sink().written() + (head + bytes@));
            }
        }
        Ok(self.len_buffer)
    }

    /// A text string: major type 3, its length in bytes, then its UTF-8 bytes.
    pub fn serialize_str(&mut self, value: &str) -> (r: Result<usize, Error>)
        requires
            value.spec_bytes().len() + 9 <= usize::MAX,
        ensures
            emitted(*old(self), *final(self), r, encode_string(3, value.spec_bytes())),
    {
        self.write_string(MAJOR_TEXT, value.as_bytes())
    }

    /// A byte string: major type 2, its length, then the bytes.
    pub fn serialize_bytes(&mut self, value: &[u8]) -> (r: Result<usize, Error>)
        requires
            value@.len() + 9 <= usize::MAX,
        ensures
            emitted(*old(self), *final(self), r, encode_string(2, value@)),
    {
        self.write_string(MAJOR_BYTE, value)
    }

    /// An absent option: `0xF6`.
    pub fn serialize_none(&mut self) -> (r: Result<usize, Error>)
        ensures
            emitted(*old(self), *final(self), r, seq![0xf6u8]),
    {
        self.buffer[0] = HEADER_NULL;
        let r = self.flush(1);
        assert(self.buffer@.subrange(0, 1) =~= seq![self.buffer@[0]]);
        r
    }

    /// The unit value: `0xF7`.
    pub fn serialize_unit(&mut self) -> (r: Result<usize, Error>)
        ensures
            emitted(*old(self), *final(self), r, seq![0xf7u8]),
    {
        self.buffer[0] = HEADER_UNDEFINED;
        let r = self.flush(1);
        assert(self.buffer@.subrange(0, 1) =~= seq![self.buffer@[0]]);
        r
    }

    /// A unit struct, written as the unit value.
    pub fn serialize_unit_struct(&mut self) -> (r: Result<usize, Error>)
        ensures
            emitted(*old(self), *final(self), r, seq![0xf7u8]),
    {
        self.serialize_unit()
    }

    /// A unit variant, written as its name.
    pub fn serialize_unit_variant(&mut self, variant: &str) -> (r: Result<usize, Error>)
        requires
            variant.spec_bytes().len() + 9 <= usize::MAX,
        ensures
            emitted(*old(self), *final(self), r, encode_string(3, variant.spec_bytes())),
    {
        self.serialize_str(variant)
    }

    /// Head of a variant that carries data: a map of one pair, then the variant's name.
    /// The payload follows, written by the caller.
    pub fn serialize_newtype_variant(&mut self, variant: &str) -> (r: Result<usize, Error>)
        requires
            variant.spec_bytes().len() + 19 <= usize::MAX,
        ensures
            emitted(*old(self), *final(self), r, encode_variant_key(variant.spec_bytes())),
    {
        self.buffer[0] = HEADER_MAP_ONE;
        let a = self.flush(1)?;
        assert(self.buffer@.subrange(0, 1) =~= seq![0xa1u8]);
        let b = self.serialize_str(variant)?;
        proof {
            lemma_head_len(3, variant.spec_bytes().len());
        }
        assert(old(self).sink().described() ==> self.sink().written() =~= old(self).sink().written()
            + encode_variant_key(variant.spec_bytes()));
        Ok(a + b)
    }

    /// Head of an array of `len` elements; the length must be known.
    pub fn serialize_seq(&mut self, len: Option<usize>) -> (r: Result<SerializeSeq, Error>)
        ensures
            len is None ==> r is Err && *final(self) == *old(self),
            len matches Some(n) ==> emitted(*old(self), *final(self), match r { Ok(s) => Ok(s.count() as usize), Err(e) => Err(e) }, crate::cbor::encode_head(4, n as nat)),
    {
        let size = self.composite_head(MAJOR_ARRAY, len)?;
        Ok(SerializeSeq { size })
    }

    /// Head of a tuple of `len` elements, written as an array.
    pub fn serialize_tuple(&mut self, len: usize) -> (r: Result<SerializeTuple, Error>)
        ensures
            emitted(*old(self), *final(self), match r { Ok(s) => Ok(s.count() as usize), Err(e) => Err(e) }, crate::cbor::encode_head(4, len as nat)),
    {
        let size = self.write_header_u64(MAJOR_ARRAY, len as u64)?;
        Ok(SerializeTuple { size })
    }

    /// Head of a tuple struct of `len` fields, written as an array.
    pub fn serialize_tuple_struct(&mut self, len: usize) -> (r: Result<SerializeTupleStruct, Error>)
        ensures
            emitted(*old(self), *final(self), match r { Ok(s) => Ok(s.count() as usize), Err(e) => Err(e) }, crate::cbor::encode_head(4, len as nat)),
    {
        let size = self.write_header_u64(MAJOR_ARRAY, len as u64)?;
        Ok(SerializeTupleStruct { size })
    }

    /// Head of a map of `len` pairs; the length must be known.
    pub fn serialize_map(&mut self, len: Option<usize>) -> (r: Result<SerializeMap, Error>)
        ensures
            len is None ==> r is Err && *final(self) == *old(self),
            len matches Some(n) ==> emitted(*old(self), *final(self), match r { Ok(s) => Ok(s.count() as usize), Err(e) => Err(e) }, crate::cbor::encode_head(5, n as nat)),
    {
        let size = self.composite_head(MAJOR_MAP, len)?;
        Ok(SerializeMap { size })
    }

    /// Head of a struct of `len` fields, written as a map from field names to values.
    pub fn serialize_struct(&mut self, len: usize) -> (r: Result<SerializeStruct, Error>)
        ensures
            emitted(*old(self), *final(self), match r { Ok(s) => Ok(s.count() as usize), Err(e) => Err(e) }, crate::cbor::encode_head(5, len as nat)),
    {
        let size = self.write_header_u64(MAJOR_MAP, len as u64)?;
        Ok(SerializeStruct { size })
    }

    /// Head of a tuple variant: a map of one pair, the variant's name, then an array head of `len`.
    pub fn serialize_tuple_variant(&mut self, variant: &str, len: usize) -> (r: Result<SerializeTupleVariant, Error>)
        requires
            variant.spec_bytes().len() + 40 <= usize::MAX,
        ensures
            emitted(*old(self), *final(self), match r { Ok(s) => Ok(s.count() as usize), Err(e) => Err(e) },
                encode_variant_key(variant.spec_bytes()) + crate::cbor::encode_head(4, len as nat)),
    {
        let a = self.serialize_newtype_variant(variant)?;
        let b = self.write_header_u64(MAJOR_ARRAY, len as u64)?;
        proof {
            lemma_head_len(3, variant.spec_bytes().len());
            lemma_head_len(4, len as nat);
        }
        assert(old(self).sink().described() ==> self.sink().written() =~= old(self).sink().written()
            + (encode_variant_key(variant.spec_bytes()) + crate::cbor::encode_head(4, len as nat)));
        Ok(SerializeTupleVariant { size: a + b })
    }

    /// Head of a struct variant: a map of one pair, the variant's name, then a map head of `len`.
    pub fn serialize_struct_variant(&mut self, variant: &str, len: usize) -> (r: Result<SerializeStructVariant, Error>)
        requires
            variant.spec_bytes().len() + 40 <= usize::MAX,
        ensures
            emitted(*old(self), *final(self), match r { Ok(s) => Ok(s.count() as usize), Err(e) => Err(e) },
                encode_variant_key(variant.spec_bytes()) + crate::cbor::encode_head(5, len as nat)),
    {
        let a = self.serialize_newtype_variant(variant)?;
        let b = self.write_header_u64(MAJOR_MAP, len as u64)?;
        proof {
            lemma_head_len(3, variant.spec_bytes().len());
            lemma_head_len(5, len as nat);
        }
        assert(old(self).sink().described() ==> self.sink().written() =~= old(self).sink().written()
            + (encode_variant_key(variant.spec_bytes()) + crate::cbor::encode_head(5, len as nat)));
        Ok(SerializeStructVariant { size: a + b })
    }

    /// The encoder writes the compact binary forms, not the human-readable ones.
    pub fn is_human_readable(&self) -> (r: bool)
        ensures
            !r,
    {
        false
    }

    /// Head of a composite: `major` with argument `len`, or an error when the length is unknown.
    fn composite_head(&mut self, major: u8, len: Option<usize>) -> (r: Result<usize, Error>)
        requires
            major < 8,
        ensures
            len is None ==> r is Err && *final(self) == *old(self),
            len matches Some(n) ==> emitted(*old(self), *final(self), r, crate::cbor::encode_head(major as nat, n as nat)),
    {
        match len {
            Some(n) => self.write_header_u64(major, n as u64),
            None => Err(Error::Message("Sequences and maps of unknown length are not supported")),
        }
    }

    /// Writes the first `n` bytes of the scratch buffer.
    fn flush(&mut self, n: usize) -> (r: Result<usize, Error>)
        requires
            1 <= n <= 9,
        ensures
            final(self).buffer == old(self).buffer,
            emitted(*old(self), *final(self), r, old(self).buffer@.subrange(0, n as int)),
    {
        self.writer.write(slice_subrange(self.buffer.as_slice(), 0, n))
    }

    /// Header of major type `major` for an argument that fits a byte.
    fn write_header_u8(&mut self, major: u8, header_value: u8) -> (r: Result<usize, Error>)
        requires
            major < 8,
        ensures
            emitted(*old(self), *final(self), r, crate::cbor::encode_head(major as nat, header_value as nat)),
    {
        let ghost v = header_value as nat;
        if header_value < SIZE_8 {
            self.buffer[0] = major * 32 + header_value;
            let r = self.flush(1);
            assert(self.buffer@.subrange(0, 1) =~= crate::cbor::encode_head(major as nat, v));
            r
        } else {
            self.buffer[0] = major * 32 + SIZE_8;
            self.buffer[1] = header_value;
            let r = self.flush(2);
            proof {
                reveal_with_fuel(crate::cbor::be_bytes, 2);
                assert(crate::cbor::be_bytes(v, 1) =~= seq![header_value]);
                assert(self.buffer@.subrange(0, 2) =~= crate::cbor::encode_head(major as nat, v));
            }
            r
        }
    }

    /// Header of major type `major` for an argument that fits two bytes.
    fn write_header_u16(&mut self, major: u8, header_value: u16) -> (r: Result<usize, Error>)
        requires
            major < 8,
        ensures
            emitted(*old(self), *final(self), r, crate::cbor::encode_head(major as nat, header_value as nat)),
    {
        if header_value <= 0xff {
            self.write_header_u8(major, header_value as u8)
        } else {
            self.buffer[0] = major * 32 + SIZE_16;
            put_u16(&mut self.buffer, header_value);
            let r = self.flush(3);
            assert(self.buffer@.subrange(0, 3) =~= seq![self.buffer@[0]] + self.buffer@.subrange(1, 3));
            r
        }
    }

    /// Header of major type `major` for an argument that fits four bytes.
    fn write_header_u32(&mut self, major: u8, header_value: u32) -> (r: Result<usize, Error>)
        requires
            major < 8,
        ensures
            emitted(*old(self), *final(self), r, crate::cbor::encode_head(major as nat, header_value as nat)),
    {
        if header_value <= 0xffff {
            self.write_header_u16(major, header_value as u16)
        } else {
            self.buffer[0] = major * 32 + SIZE_32;
            put_u32(&mut self.buffer, header_value);
            let r = self.flush(5);
            assert(self.buffer@.subrange(0, 5) =~= seq![self.buffer@[0]] + self.buffer@.subrange(1, 5));
            r
        }
    }

    /// Header of major type `major` for any 64-bit argument, in its smallest size class.
    fn write_header_u64(&mut self, major: u8, header_value: u64) -> (r: Result<usize, Error>)
        requires
            major < 8,
        ensures
            emitted(*old(self), *final(self), r, crate::cbor::encode_head(major as nat, header_value as nat)),
    {
        if header_value <= 0xffff_ffff {
            self.write_header_u32(major, header_value as u32)
        } else {
            self.buffer[0] = major * 32 + SIZE_64;
            put_u64(&mut self.buffer, header_value);
            let r = self.flush(9);
            assert(self.buffer@.subrange(0, 9) =~= seq![self.buffer@[0]] + self.buffer@.subrange(1, 9));
            r
        }
    }
}

/// Running state of an array being written: the number of bytes written for it so far.
pub struct SerializeSeq {
    size: usize,
}

impl SerializeSeq {
    pub closed spec fn count(self) -> nat {
        self.size as nat
    }

    /// Counts `n` more bytes, written for one of its parts; fails if the total would not fit a `usize`.
    pub fn add(&mut self, n: usize) -> (r: Result<(), Error>)
        ensures
            r is Ok <==> old(self).count() + n <= usize::MAX,
            r is Ok ==> final(self).count() == old(self).count() + n,
            r is Err ==> final(self).count() == old(self).count(),
    {
        match self.size.checked_add(n) {
            Some(total) => {
                self.size = total;
                Ok(())
            },
            None => Err(Error::Message("Byte count exceeds usize::MAX")),
        }
    }

    /// The number of bytes written for the whole item.
    pub fn end(self) -> (r: usize)
        ensures
            r == self.count(),
    {
        self.size
    }
}

/// Running state of a tuple being written: the number of bytes written for it so far.
pub struct SerializeTuple {
    size: usize,
}

impl SerializeTuple {
    pub closed spec fn count(self) -> nat {
        self.size as nat
    }

    /// Counts `n` more bytes, written for one of its parts; fails if the total would not fit a `usize`.
    pub fn add(&mut self, n: usize) -> (r: Result<(), Error>)
        ensures
            r is Ok <==> old(self).count() + n <= usize::MAX,
            r is Ok ==> final(self).count() == old(self).count() + n,
            r is Err ==> final(self).count() == old(self).count(),
    {
        match self.size.checked_add(n) {
            Some(total) => {
                self.size = total;
                Ok(())
            },
            None => Err(Error::Message("Byte count exceeds usize::MAX")),
        }
    }

    /// The number of bytes written for the whole item.
    pub fn end(self) -> (r: usize)
        ensures
            r == self.count(),
    {
        self.size
    }
}

/// Running state of a tuple struct being written: the number of bytes written for it so far.
pub struct SerializeTupleStruct {
    size: usize,
}

impl SerializeTupleStruct {
    pub closed spec fn count(self) -> nat {
        self.size as nat
    }

    /// Counts `n` more bytes, written for one of its parts; fails if the total would not fit a `usize`.
    pub fn add(&mut self, n: usize) -> (r: Result<(), Error>)
        ensures
            r is Ok <==> old(self).count() + n <= usize::MAX,
            r is Ok ==> final(self).count() == old(self).count() + n,
            r is Err ==> final(self).count() == old(self).count(),
    {
        match self.size.checked_add(n) {
            Some(total) => {
                self.size = total;
                Ok(())
            },
            None => Err(Error::Message("Byte count exceeds usize::MAX")),
        }
    }

    /// The number of bytes written for the whole item.
    pub fn end(self) -> (r: usize)
        ensures
            r == self.count(),
    {
        self.size
    }
}

/// Running state of a tuple variant being written: the number of bytes written for it so far.
pub struct SerializeTupleVariant {
    size: usize,
}

impl SerializeTupleVariant {
    pub closed spec fn count(self) -> nat {
        self.size as nat
    }

    /// Counts `n` more bytes, written for one of its parts; fails if the total would not fit a `usize`.
    pub fn add(&mut self, n: usize) -> (r: Result<(), Error>)
        ensures
            r is Ok <==> old(self).count() + n <= usize::MAX,
            r is Ok ==> final(self).count() == old(self).count() + n,
            r is Err ==> final(self).count() == old(self).count(),
    {
        match self.size.checked_add(n) {
            Some(total) => {
                self.size = total;
                Ok(())
            },
            None => Err(Error::Message("Byte count exceeds usize::MAX")),
        }
    }

    /// The number of bytes written for the whole item.
    pub fn end(self) -> (r: usize)
        ensures
            r == self.count(),
    {
        self.size
    }
}

/// Running state of a map being written: the number of bytes written for it so far.
pub struct SerializeMap {
    size: usize,
}

impl SerializeMap {
    pub closed spec fn count(self) -> nat {
        self.size as nat
    }

    /// Counts `n` more bytes, written for one of its parts; fails if the total would not fit a `usize`.
    pub fn add(&mut self, n: usize) -> (r: Result<(), Error>)
        ensures
            r is Ok <==> old(self).count() + n <= usize::MAX,
            r is Ok ==> final(self).count() == old(self).count() + n,
            r is Err ==> final(self).count() == old(self).count(),
    {
        match self.size.checked_add(n) {
            Some(total) => {
                self.size = total;
                Ok(())
            },
            None => Err(Error::Message("Byte count exceeds usize::MAX")),
        }
    }

    /// The number of bytes written for the whole item.
    pub fn end(self) -> (r: usize)
        ensures
            r == self.count(),
    {
        self.size
    }
}

/// Running state of a struct being written: the number of bytes written for it so far.
pub struct SerializeStruct {
    size: usize,
}

impl SerializeStruct {
    pub closed spec fn count(self) -> nat {
        self.size as nat
    }

    /// Counts `n` more bytes, written for one of its parts; fails if the total would not fit a `usize`.
    pub fn add(&mut self, n: usize) -> (r: Result<(), Error>)
        ensures
            r is Ok <==> old(self).count() + n <= usize::MAX,
            r is Ok ==> final(self).count() == old(self).count() + n,
            r is Err ==> final(self).count() == old(self).count(),
    {
        match self.size.checked_add(n) {
            Some(total) => {
                self.size = total;
                Ok(())
            },
            None => Err(Error::Message("Byte count exceeds usize::MAX")),
        }
    }

    /// The number of bytes written for the whole item.
    pub fn end(self) -> (r: usize)
        ensures
            r == self.count(),
    {
        self.size
    }
}

/// Running state of a struct variant being written: the number of bytes written for it so far.
pub struct SerializeStructVariant {
    size: usize,
}

impl SerializeStructVariant {
    pub closed spec fn count(self) -> nat {
        self.size as nat
    }

    /// Counts `n` more bytes, written for one of its parts; fails if the total would not fit a `usize`.
    pub fn add(&mut self, n: usize) -> (r: Result<(), Error>)
        ensures
            r is Ok <==> old(self).count() + n <= usize::MAX,
            r is Ok ==> final(self).count() == old(self).count() + n,
            r is Err ==> final(self).count() == old(self).count(),
    {
        match self.size.checked_add(n) {
            Some(total) => {
                self.size = total;
                Ok(())
            },
            None => Err(Error::Message("Byte count exceeds usize::MAX")),
        }
    }

    /// The number of bytes written for the whole item.
    pub fn end(self) -> (r: usize)
        ensures
            r == self.count(),
    {
        self.size
    }
}

} // verus!
