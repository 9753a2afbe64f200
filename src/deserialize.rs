//! The decoder: one byte of look-ahead, header classification and typed dispatch.
use vstd::prelude::*;
use crate::cbor::{
    HEADER_BREAK, HEADER_FALSE, HEADER_FLOAT_16, HEADER_FLOAT_32, HEADER_FLOAT_64, HEADER_MAP_ONE,
    HEADER_NULL, HEADER_TRUE, HEADER_UNDEFINED, MAJOR_ARRAY, MAJOR_BYTE, MAJOR_MAP, MAJOR_NEGATIVE,
    MAJOR_POSITIVE, MAJOR_PRIMITIVE, MAJOR_TAG, SIZE_64, SIZE_INFINITE,
};
use crate::error::{Error, OtherKind};
use crate::read::{read_be, EitherLifetime, Reader};

verus! {

/// What one data item says, as plain values: the model of [`Item`].
pub enum Token {
    Bool(bool),
    Null,
    Undefined,
    F16(u16),
    F32(u32),
    F64(u64),
    U8(u8),
    U16(u16),
    U32(u32),
    U64(u64),
    I8(i8),
    I16(i16),
    I32(i32),
    I64(i64),
    Bytes(Seq<u8>),
    Text(Seq<u8>),
    Array(usize),
    Pairs(usize),
}

/// Why a data item cannot be decoded, whatever follows its head.
pub enum Fault {
    Unsupported(u8),
    Unassigned(u8),
    Unexpected(u8),
    Utf8,
    Numerical,
}

/// The outcome of decoding the data item at the front of some bytes: the item and the number
/// of bytes it takes, a fault, or input that ends too early.
pub enum Decoded {
    Item(Token, nat),
    Fault(Fault),
    Short,
}

/// The token of a non-negative integer whose argument took `w` bytes.
pub open spec fn unsigned_token(arg: nat, w: nat) -> Token {
    if w <= 1 {
        Token::U8(arg as u8)
    } else if w == 2 {
        Token::U16(arg as u16)
    } else if w == 4 {
        Token::U32(arg as u32)
    } else {
        Token::U64(arg as u64)
    }
}

/// The token of the negative integer `-1 - arg` whose argument took `w` bytes: the narrowest
/// signed type, no narrower than the argument's size class, that holds it.
pub open spec fn negative_token(arg: nat, w: nat) -> Option<Token> {
    let v = -1 - arg;
    if w <= 1 && arg <= 0x7f {
        Some(Token::I8(v as i8))
    } else if w <= 2 && arg <= 0x7fff {
        Some(Token::I16(v as i16))
    } else if w <= 4 && arg <= 0x7fff_ffff {
        Some(Token::I32(v as i32))
    } else if arg <= 0x7fff_ffff_ffff_ffff {
        Some(Token::I64(v as i64))
    } else {
        None
    }
}

/// The argument of the header at the front of `s`, inline or in the bytes that follow it.
pub open spec fn head_arg(s: Seq<u8>) -> nat {
    let i = crate::cbor::info_of(s[0]);
    if i < 24 {
        i
    } else {
        crate::cbor::be_value(s.subrange(1, 1 + crate::cbor::extra_width(i) as int))
    }
}

/// Decoding of the data item at the front of `s`: its head, and for a string its payload.
/// Arrays and maps are items of their head alone: their elements follow as items of their own.
pub open spec fn decode_any(s: Seq<u8>) -> Decoded {
    if s.len() == 0 {
        Decoded::Short
    } else {
        let h = s[0];
        let m = crate::cbor::major_of(h);
        let i = crate::cbor::info_of(h);
        if h == 0xf4 {
            Decoded::Item(Token::Bool(false), 1)
        } else if h == 0xf5 {
            Decoded::Item(Token::Bool(true), 1)
        } else if h == 0xf6 {
            Decoded::Item(Token::Null, 1)
        } else if h == 0xf7 {
            Decoded::Item(Token::Undefined, 1)
        } else if h == 0xf9 {
            if s.len() < 3 {
                Decoded::Short
            } else {
                Decoded::Item(Token::F16(crate::cbor::be_value(s.subrange(1, 3)) as u16), 3)
            }
        } else if h == 0xfa {
            if s.len() < 5 {
                Decoded::Short
            } else {
                Decoded::Item(Token::F32(crate::cbor::be_value(s.subrange(1, 5)) as u32), 5)
            }
        } else if h == 0xfb {
            if s.len() < 9 {
                Decoded::Short
            } else {
                Decoded::Item(Token::F64(crate::cbor::be_value(s.subrange(1, 9)) as u64), 9)
            }
        } else if h == 0xff {
            Decoded::Fault(Fault::Unexpected(h))
        } else if m == 7 {
            Decoded::Fault(Fault::Unassigned(h))
        } else if m == 6 {
            if i <= 27 {
                Decoded::Fault(Fault::Unsupported(h))
            } else {
                Decoded::Fault(Fault::Unassigned(h))
            }
        } else if i == 31 && m >= 2 {
            Decoded::Fault(Fault::Unsupported(h))
        } else if i >= 28 {
            Decoded::Fault(Fault::Unassigned(h))
        } else {
            let w = crate::cbor::extra_width(i);
            if s.len() < 1 + w {
                Decoded::Short
            } else {
                let arg = head_arg(s);
                if m == 0 {
                    Decoded::Item(unsigned_token(arg, w), 1 + w)
                } else if m == 1 {
                    match negative_token(arg, w) {
                        Some(t) => Decoded::Item(t, 1 + w),
                        None => Decoded::Fault(Fault::Numerical),
                    }
                } else if arg > usize::MAX {
                    Decoded::Fault(Fault::Numerical)
                } else if m == 4 {
                    Decoded::Item(Token::Array(arg as usize), 1 + w)
                } else if m == 5 {
                    Decoded::Item(Token::Pairs(arg as usize), 1 + w)
                } else if s.len() < 1 + w + arg {
                    Decoded::Short
                } else {
                    let p = s.subrange(1 + w as int, 1 + w + arg as int);
                    if m == 2 {
                        Decoded::Item(Token::Bytes(p), 1 + w + arg)
                    } else if vstd::utf8::valid_utf8(p) {
                        Decoded::Item(Token::Text(p), 1 + w + arg)
                    } else {
                        Decoded::Fault(Fault::Utf8)
                    }
                }
            }
        }
    }
}

/// `e` is the error that reports fault `f`.
pub open spec fn raises(e: Error, f: Fault) -> bool {
    match f {
        Fault::Unsupported(b) => e == Error::Unsupported(b),
        Fault::Unassigned(b) => e == Error::Unassigned(b),
        Fault::Unexpected(b) => e matches Error::Unexpected(x, _) && x == b,
        Fault::Utf8 => e matches Error::Other(OtherKind::Utf8, _),
        Fault::Numerical => e matches Error::Other(OtherKind::Numerical, _),
    }
}

/// A fault that the header byte alone decides.
pub open spec fn header_fault(f: Fault) -> bool {
    f is Unsupported || f is Unassigned || f is Unexpected
}

/// One decoded data item. Strings come as bytes of the reader's input or of its scratch space;
/// the bytes of a text string are valid UTF-8.
#[derive(Debug)]
pub enum Item<'a, 'r> {
    Bool(bool),
    Null,
    Undefined,
    F16(u16),
    F32(u32),
    F64(u64),
    U8(u8),
    U16(u16),
    U32(u32),
    U64(u64),
    I8(i8),
    I16(i16),
    I32(i32),
    I64(i64),
    Bytes(EitherLifetime<'a, 'r>),
    Text(EitherLifetime<'a, 'r>),
    Array(usize),
    Pairs(usize),
}

impl<'a, 'r> Item<'a, 'r> {
    pub open spec fn token(&self) -> Token {
        match self {
            Item::Bool(b) => Token::Bool(*b),
            Item::Null => Token::Null,
            Item::Undefined => Token::Undefined,
            Item::F16(v) => Token::F16(*v),
            Item::F32(v) => Token::F32(*v),
            Item::F64(v) => Token::F64(*v),
            Item::U8(v) => Token::U8(*v),
            Item::U16(v) => Token::U16(*v),
            Item::U32(v) => Token::U32(*v),
            Item::U64(v) => Token::U64(*v),
            Item::I8(v) => Token::I8(*v),
            Item::I16(v) => Token::I16(*v),
            Item::I32(v) => Token::I32(*v),
            Item::I64(v) => Token::I64(*v),
            Item::Bytes(b) => Token::Bytes(b.bytes()),
            Item::Text(b) => Token::Text(b.bytes()),
            Item::Array(n) => Token::Array(*n),
            Item::Pairs(n) => Token::Pairs(*n),
        }
    }

    /// A string item's bytes are borrowed from the reader's input.
    pub open spec fn borrowed(&self) -> bool {
        match self {
            Item::Bytes(b) => b is Other,
            Item::Text(b) => b is Other,
            _ => true,
        }
    }
}

/// Decoder that reads data items from a reader, one header byte of look-ahead at a time.
pub struct Deserializer<R> {
    reader: R,
    peek: Option<u8>,
    depth_left: usize,
}

/// How deep arrays and maps may nest unless the decoder is told otherwise.
pub const DEFAULT_MAX_DEPTH: usize = 256;

/// `r` is what a look at the next header byte of `pre` gives, and `post` the decoder after it.
pub open spec fn peeked<'r, R: Reader<'r>>(
    pre: Deserializer<R>,
    post: Deserializer<R>,
    r: Result<u8, Error>,
) -> bool {
    &&& post.source().described() == pre.source().described()
    &&& post.depth_left() == pre.depth_left()
    &&& post.source().exact() == pre.source().exact()
    &&& post.source().borrows() == pre.source().borrows()
    &&& pre.slot() matches Some(b) ==> r == Ok::<u8, Error>(b) && post == pre
    &&& r is Ok ==> post.slot() == Some(r->Ok_0)
    &&& pre.described() && r is Ok ==> pre.input().len() > 0 && r->Ok_0 == pre.input()[0]
    &&& pre.described() && r is Ok ==> post.input() == pre.input() && post.position()
        == pre.position()
    &&& pre.described() && pre.slot() is None && r is Ok ==> post.source().pending()
        == pre.source().pending().skip(1)
    &&& pre.exact() ==> (r is Ok <==> pre.input().len() > 0)
    &&& r is Err ==> post.slot() is None
    &&& pre.exact() && r is Err ==> post.input() == pre.input() && post.position()
        == pre.position()
}

/// `r` is what decoding one data item from `pre` gives, and `post` the decoder after it:
/// the item and the bytes it takes are those of [`decode_any`] on the input.
pub open spec fn any_result<'a, 'r, R: Reader<'r>>(
    pre: Deserializer<R>,
    post: Deserializer<R>,
    r: Result<Item<'a, 'r>, Error>,
) -> bool {
    let s = pre.input();
    &&& post.source().described() == pre.source().described()
    &&& post.depth_left() == pre.depth_left()
    &&& post.source().exact() == pre.source().exact()
    &&& post.source().borrows() == pre.source().borrows()
    &&& post.slot() is None
    &&& pre.described() && r is Ok ==> (decode_any(s) matches Decoded::Item(t, n)
        && r->Ok_0.token() == t && post.input() == s.skip(n as int) && post.position()
        == pre.position() + n)
    &&& pre.source().borrows() && r is Ok ==> r->Ok_0.borrowed()
    &&& pre.exact() ==> match decode_any(s) {
        Decoded::Item(_, _) => r is Ok,
        Decoded::Fault(f) => r is Err && raises(r->Err_0, f) && (header_fault(f) ==> post.input()
            == s.skip(1) && post.position() == pre.position() + 1),
        Decoded::Short => r is Err,
    }
}

/// `r` is what a request for one type gives: the item that [`decode_any`] finds when the header
/// byte is one that `accepts` admits, and otherwise an `Unexpected` error that consumes it.
pub open spec fn typed_result<'a, 'r, R: Reader<'r>>(
    pre: Deserializer<R>,
    post: Deserializer<R>,
    r: Result<Item<'a, 'r>, Error>,
    accepts: spec_fn(u8) -> bool,
) -> bool {
    let s = pre.input();
    &&& post.source().described() == pre.source().described()
    &&& post.depth_left() == pre.depth_left()
    &&& post.source().exact() == pre.source().exact()
    &&& post.source().borrows() == pre.source().borrows()
    &&& post.slot() is None
    &&& pre.described() && r is Ok ==> s.len() > 0 && accepts(s[0])
    &&& s.len() > 0 && accepts(s[0]) ==> any_result(pre, post, r)
    &&& pre.exact() && s.len() > 0 && !accepts(s[0]) ==> (r matches Err(
        Error::Unexpected(b, _),
    ) && b == s[0] && post.input() == s.skip(1) && post.position() == pre.position() + 1)
    &&& pre.exact() && s.len() == 0 ==> r is Err
}

/// Taking `w` bytes after the first `a` of `s`, and skipping them.
pub proof fn lemma_skip_take(s: Seq<u8>, a: int, w: int)
    requires
        0 <= a,
        0 <= w,
        a + w <= s.len(),
    ensures
        s.skip(a).take(w) == s.subrange(a, a + w),
        s.skip(a).skip(w) == s.skip(a + w),
{
    assert(s.skip(a).take(w) =~= s.subrange(a, a + w));
    assert(s.skip(a).skip(w) =~= s.skip(a + w));
}

/// Relies on std's `str::from_utf8`: it accepts exactly the byte sequences that are valid UTF-8.
#[verifier::external_body]
fn is_utf8(bytes: &[u8]) -> (r: bool)
    ensures
        r == vstd::utf8::valid_utf8(bytes@),
{
    std::str::from_utf8(bytes).is_ok()
}

/// The error of a number that does not fit the type that must hold it.
fn numerical() -> (e: Error)
    ensures
        e matches Error::Other(OtherKind::Numerical, _),
{
    Error::Other(OtherKind::Numerical, "number out of range".to_string())
}

/// The error of a text string that is not valid UTF-8.
fn invalid_utf8() -> (e: Error)
    ensures
        e matches Error::Other(OtherKind::Utf8, _),
{
    Error::Other(OtherKind::Utf8, "invalid UTF-8 in a text string".to_string())
}

impl<'r, R: Reader<'r>> Deserializer<R> {
    /// The reader, as it stands.
    pub closed spec fn source(self) -> R {
        self.reader
    }

    /// The header byte read ahead and not consumed yet, if any.
    pub closed spec fn slot(self) -> Option<u8> {
        self.peek
    }

    /// The reader is described by its spec functions.
    pub open spec fn described(self) -> bool {
        self.source().described()
    }

    /// The reader is described, and its reads fail only for want of input.
    pub open spec fn exact(self) -> bool {
        self.source().exact() && self.source().described()
    }

    /// How many bytes of the input have been decoded: those the reader handed out, but for a
    /// byte read ahead and not consumed.
    pub open spec fn position(self) -> int {
        match self.slot() {
            Some(_) => self.source().consumed() - 1,
            None => self.source().consumed() as int,
        }
    }

    /// The bytes still to decode: the byte read ahead, if any, then what the reader holds.
    pub open spec fn input(self) -> Seq<u8> {
        match self.slot() {
            Some(b) => seq![b] + self.source().pending(),
            None => self.source().pending(),
        }
    }

    /// How many more levels of arrays and maps may be entered.
    pub closed spec fn depth_left(self) -> nat {
        self.depth_left as nat
    }

    pub fn new(reader: R) -> (r: Self)
        ensures
            r.source() == reader,
            r.slot() is None,
            r.depth_left() == DEFAULT_MAX_DEPTH,
    {
        Deserializer { reader: reader, peek: None, depth_left: DEFAULT_MAX_DEPTH }
    }

    /// A decoder that lets arrays and maps nest at most `max_depth` deep.
    pub fn with_max_depth(reader: R, max_depth: usize) -> (r: Self)
        ensures
            r.source() == reader,
            r.slot() is None,
            r.depth_left() == max_depth,
    {
        Deserializer { reader: reader, peek: None, depth_left: max_depth }
    }

    /// Enters an array or a map: fails when the nesting limit is reached.
    pub fn enter(&mut self) -> (r: Result<(), Error>)
        ensures
            final(self).source() == old(self).source(),
            final(self).slot() == old(self).slot(),
            r is Ok <==> old(self).depth_left() > 0,
            r is Ok ==> final(self).depth_left() == old(self).depth_left() - 1,
            r is Err ==> final(self).depth_left() == old(self).depth_left() && r matches Err(Error::Message(_)),
    {
        if self.depth_left == 0 {
            Err(Error::Message("Arrays and maps nest deeper than the limit"))
        } else {
            self.depth_left = self.depth_left - 1;
            Ok(())
        }
    }

    /// Leaves an array or a map entered before.
    pub fn leave(&mut self)
        ensures
            final(self).source() == old(self).source(),
            final(self).slot() == old(self).slot(),
            final(self).depth_left() == if old(self).depth_left() < usize::MAX {
                old(self).depth_left() + 1
            } else {
                old(self).depth_left()
            },
    {
        self.depth_left = self.depth_left.saturating_add(1);
    }

    /// The next header byte, read from the reader only if none is held already.
    pub fn peek(&mut self) -> (r: Result<u8, Error>)
        ensures
            peeked(*old(self), *final(self), r),
    {
        match self.peek {
            Some(val) => Ok(val),
            None => {
                let v = read_be(&mut self.reader, 1)?;
                proof {
                    if old(self).described() {
                        reveal_with_fuel(crate::cbor::be_value, 2);
                        assert(old(self).source().pending().take(1).drop_last() =~= Seq::<u8>::empty());
                    }
                }
                self.peek = Some(v as u8);
                assert(old(self).described() ==> self.input() =~= old(self).input());
                Ok(v as u8)
            },
        }
    }

    /// The argument of a header whose argument code is `info`: `info` itself, or the number in
    /// the 1, 2, 4 or 8 bytes that follow.
    fn read_arg(&mut self, info: u8) -> (r: Result<u64, Error>)
        requires
            old(self).slot() is None,
            info <= 27,
        ensures
            final(self).slot() is None,
            final(self).source().described() == old(self).source().described(),
            final(self).depth_left() == old(self).depth_left(),
            final(self).source().exact() == old(self).source().exact(),
            final(self).source().borrows() == old(self).source().borrows(),
            old(self).described() && r is Ok ==> crate::cbor::extra_width(info as nat) <= old(
                self,
            ).input().len(),
            r is Ok && info < 24 ==> r->Ok_0 == info,
            old(self).described() && r is Ok && info >= 24 ==> r->Ok_0 as nat == crate::cbor::be_value(
                old(self).input().take(crate::cbor::extra_width(info as nat) as int),
            ),
            old(self).described() && r is Ok ==> (r->Ok_0 as nat) < crate::cbor::pow256(crate::cbor::extra_width(info as nat)) || info < 24,
            old(self).described() && r is Ok ==> final(self).input() == old(self).input().skip(
                crate::cbor::extra_width(info as nat) as int,
            ),
            old(self).described() && r is Ok ==> final(self).position() == old(self).position() + crate::cbor::extra_width(
                info as nat,
            ),
            old(self).exact() ==> (r is Ok <==> crate::cbor::extra_width(info as nat)
                <= old(self).input().len()),
    {
        if info < 24 {
            assert(old(self).described() ==> self.input().skip(0) =~= self.input());
            Ok(info as u64)
        } else {
            let w: usize = if info == 24 {
                1
            } else if info == 25 {
                2
            } else if info == 26 {
                4
            } else {
                8
            };
            let r = read_be(&mut self.reader, w);
            proof {
                if r is Ok && old(self).described() {
                    crate::cbor::lemma_be_value_bound(old(self).input().take(w as int));
                }
            }
            r
        }
    }

    /// Decodes the next data item, whatever its type: a scalar, a string, or the head of an
    /// array or a map.
    pub fn deserialize_any<'a>(&'a mut self) -> (r: Result<Item<'a, 'r>, Error>)
        ensures
            any_result(*old(self), *final(self), r),
    {
        let ghost s = old(self).input();
        let h = self.peek_and_consume()?;
        proof {
            reveal_with_fuel(crate::cbor::pow256, 9);
        }
        if h == HEADER_FALSE {
            return Ok(Item::Bool(false));
        } else if h == HEADER_TRUE {
            return Ok(Item::Bool(true));
        } else if h == HEADER_NULL {
            return Ok(Item::Null);
        } else if h == HEADER_UNDEFINED {
            return Ok(Item::Undefined);
        } else if h == HEADER_FLOAT_16 {
            let v = read_be(&mut self.reader, 2)?;
            proof {
                if old(self).described() {
                    lemma_skip_take(s, 1, 2);
                    crate::cbor::lemma_be_value_bound(s.subrange(1, 3));
                }
            }
            return Ok(Item::F16(v as u16));
        } else if h == HEADER_FLOAT_32 {
            let v = read_be(&mut self.reader, 4)?;
            proof {
                if old(self).described() {
                    lemma_skip_take(s, 1, 4);
                    crate::cbor::lemma_be_value_bound(s.subrange(1, 5));
                }
            }
            return Ok(Item::F32(v as u32));
        } else if h == HEADER_FLOAT_64 {
            let v = read_be(&mut self.reader, 8)?;
            proof {
                if old(self).described() {
                    lemma_skip_take(s, 1, 8);
                }
            }
            return Ok(Item::F64(v));
        } else if h == HEADER_BREAK {
            return Err(Error::Unexpected(h, "any other header"));
        }
        let major = h / 32;
        let info = h % 32;
        if major == MAJOR_PRIMITIVE {
            return Err(Error::Unassigned(h));
        } else if major == MAJOR_TAG {
            if info <= SIZE_64 {
                return Err(Error::Unsupported(h));
            } else {
                return Err(Error::Unassigned(h));
            }
        } else if info == SIZE_INFINITE && major >= MAJOR_BYTE {
            return Err(Error::Unsupported(h));
        } else if info > SIZE_64 {
            return Err(Error::Unassigned(h));
        }
        let ghost w = crate::cbor::extra_width(info as nat);
        let arg = self.read_arg(info)?;
        proof {
            if old(self).described() {
                lemma_skip_take(s, 1, w as int);
                assert(arg as nat == head_arg(s));
            }
        }
        if major == MAJOR_POSITIVE {
            if info <= 24 {
                return Ok(Item::U8(arg as u8));
            } else if info == 25 {
                return Ok(Item::U16(arg as u16));
            } else if info == 26 {
                return Ok(Item::U32(arg as u32));
            } else {
                return Ok(Item::U64(arg));
            }
        } else if major == MAJOR_NEGATIVE {
            if info <= 24 && arg <= 0x7f {
                return Ok(Item::I8(-1 - arg as i8));
            } else if info <= 25 && arg <= 0x7fff {
                return Ok(Item::I16(-1 - arg as i16));
            } else if info <= 26 && arg <= 0x7fff_ffff {
                return Ok(Item::I32(-1 - arg as i32));
            } else if arg <= 0x7fff_ffff_ffff_ffff {
                return Ok(Item::I64(-1 - arg as i64));
            } else {
                return Err(numerical());
            }
        }
        if arg > usize::MAX as u64 {
            return Err(numerical());
        }
        let n = arg as usize;
        if major == MAJOR_ARRAY {
            return Ok(Item::Array(n));
        } else if major == MAJOR_MAP {
            return Ok(Item::Pairs(n));
        }
        let bytes = self.reader.read_bytes(n)?;
        proof {
            if old(self).described() {
                lemma_skip_take(s, 1 + w as int, n as int);
            }
        }
        if major == MAJOR_BYTE {
            Ok(Item::Bytes(bytes))
        } else if is_utf8(bytes.as_slice()) {
            Ok(Item::Text(bytes))
        } else {
            Err(invalid_utf8())
        }
    }

    /// Decodes an unsigned integer of at most one argument byte.
    pub fn deserialize_u8<'a>(&'a mut self) -> (r: Result<Item<'a, 'r>, Error>)
        ensures
            typed_result(*old(self), *final(self), r, |h: u8| h <= 0x18u8),
    {
        let h = self.peek()?;
        if h <= 0x18 {
            self.deserialize_any()
        } else {
            self.consume();
            proof {
                if old(self).described() {
                    assert(final(self).input() =~= old(self).input().skip(1));
                }
            }
            Err(Error::Unexpected(h, "unsigned integer"))
        }
    }

    /// Decodes an unsigned integer of at most two argument bytes.
    pub fn deserialize_u16<'a>(&'a mut self) -> (r: Result<Item<'a, 'r>, Error>)
        ensures
            typed_result(*old(self), *final(self), r, |h: u8| h <= 0x19u8),
    {
        let h = self.peek()?;
        if h <= 0x19 {
            self.deserialize_any()
        } else {
            self.consume();
            proof {
                if old(self).described() {
                    assert(final(self).input() =~= old(self).input().skip(1));
                }
            }
            Err(Error::Unexpected(h, "unsigned integer"))
        }
    }

    /// Decodes an unsigned integer of at most four argument bytes.
    pub fn deserialize_u32<'a>(&'a mut self) -> (r: Result<Item<'a, 'r>, Error>)
        ensures
            typed_result(*old(self), *final(self), r, |h: u8| h <= 0x1au8),
    {
        let h = self.peek()?;
        if h <= 0x1a {
            self.deserialize_any()
        } else {
            self.consume();
            proof {
                if old(self).described() {
                    assert(final(self).input() =~= old(self).input().skip(1));
                }
            }
            Err(Error::Unexpected(h, "unsigned integer"))
        }
    }

    /// Decodes an unsigned integer of any size class.
    pub fn deserialize_u64<'a>(&'a mut self) -> (r: Result<Item<'a, 'r>, Error>)
        ensures
            typed_result(*old(self), *final(self), r, |h: u8| h <= 0x1bu8),
    {
        let h = self.peek()?;
        if h <= 0x1b {
            self.deserialize_any()
        } else {
            self.consume();
            proof {
                if old(self).described() {
                    assert(final(self).input() =~= old(self).input().skip(1));
                }
            }
            Err(Error::Unexpected(h, "unsigned integer"))
        }
    }

    /// Decodes an integer of either sign, of at most one argument byte.
    pub fn deserialize_i8<'a>(&'a mut self) -> (r: Result<Item<'a, 'r>, Error>)
        ensures
            typed_result(*old(self), *final(self), r, |h: u8| h <= 0x18u8 || (0x20u8 <= h && h <= 0x38u8)),
    {
        let h = self.peek()?;
        if h <= 0x18 || (0x20 <= h && h <= 0x38) {
            self.deserialize_any()
        } else {
            self.consume();
            proof {
                if old(self).described() {
                    assert(final(self).input() =~= old(self).input().skip(1));
                }
            }
            Err(Error::Unexpected(h, "signed integer"))
        }
    }

    /// Decodes an integer of either sign, of at most two argument bytes.
    pub fn deserialize_i16<'a>(&'a mut self) -> (r: Result<Item<'a, 'r>, Error>)
        ensures
            typed_result(*old(self), *final(self), r, |h: u8| h <= 0x19u8 || (0x20u8 <= h && h <= 0x39u8)),
    {
        let h = self.peek()?;
        if h <= 0x19 || (0x20 <= h && h <= 0x39) {
            self.deserialize_any()
        } else {
            self.consume();
            proof {
                if old(self).described() {
                    assert(final(self).input() =~= old(self).input().skip(1));
                }
            }
            Err(Error::Unexpected(h, "signed integer"))
        }
    }

    /// Decodes an integer of either sign, of at most four argument bytes.
    pub fn deserialize_i32<'a>(&'a mut self) -> (r: Result<Item<'a, 'r>, Error>)
        ensures
            typed_result(*old(self), *final(self), r, |h: u8| h <= 0x1au8 || (0x20u8 <= h && h <= 0x3au8)),
    {
        let h = self.peek()?;
        if h <= 0x1a || (0x20 <= h && h <= 0x3a) {
            self.deserialize_any()
        } else {
            self.consume();
            proof {
                if old(self).described() {
                    assert(final(self).input() =~= old(self).input().skip(1));
                }
            }
            Err(Error::Unexpected(h, "signed integer"))
        }
    }

    /// Decodes an integer of either sign, of any size class.
    pub fn deserialize_i64<'a>(&'a mut self) -> (r: Result<Item<'a, 'r>, Error>)
        ensures
            typed_result(*old(self), *final(self), r, |h: u8| h <= 0x1bu8 || (0x20u8 <= h && h <= 0x3bu8)),
    {
        let h = self.peek()?;
        if h <= 0x1b || (0x20 <= h && h <= 0x3b) {
            self.deserialize_any()
        } else {
            self.consume();
            proof {
                if old(self).described() {
                    assert(final(self).input() =~= old(self).input().skip(1));
                }
            }
            Err(Error::Unexpected(h, "signed integer"))
        }
    }

    /// Decodes a boolean.
    pub fn deserialize_bool<'a>(&'a mut self) -> (r: Result<Item<'a, 'r>, Error>)
        ensures
            typed_result(*old(self), *final(self), r, |h: u8| h == 0xf4u8 || h == 0xf5u8),
    {
        let h = self.peek()?;
        if h == HEADER_FALSE || h == HEADER_TRUE {
            self.deserialize_any()
        } else {
            self.consume();
            proof {
                if old(self).described() {
                    assert(final(self).input() =~= old(self).input().skip(1));
                }
            }
            Err(Error::Unexpected(h, "boolean"))
        }
    }

    /// Decodes the unit value.
    pub fn deserialize_unit<'a>(&'a mut self) -> (r: Result<Item<'a, 'r>, Error>)
        ensures
            typed_result(*old(self), *final(self), r, |h: u8| h == 0xf7u8),
    {
        let h = self.peek()?;
        if h == HEADER_UNDEFINED {
            self.deserialize_any()
        } else {
            self.consume();
            proof {
                if old(self).described() {
                    assert(final(self).input() =~= old(self).input().skip(1));
                }
            }
            Err(Error::Unexpected(h, "unit"))
        }
    }

    /// Decodes a unit struct, written as the unit value.
    pub fn deserialize_unit_struct<'a>(&'a mut self) -> (r: Result<Item<'a, 'r>, Error>)
        ensures
            typed_result(*old(self), *final(self), r, |h: u8| h == 0xf7u8),
    {
        let h = self.peek()?;
        if h == HEADER_UNDEFINED {
            self.deserialize_any()
        } else {
            self.consume();
            proof {
                if old(self).described() {
                    assert(final(self).input() =~= old(self).input().skip(1));
                }
            }
            Err(Error::Unexpected(h, "unit (struct like)"))
        }
    }

    /// Decodes a half-precision float.
    pub fn deserialize_f16<'a>(&'a mut self) -> (r: Result<Item<'a, 'r>, Error>)
        ensures
            typed_result(*old(self), *final(self), r, |h: u8| h == 0xf9u8),
    {
        let h = self.peek()?;
        if h == HEADER_FLOAT_16 {
            self.deserialize_any()
        } else {
            self.consume();
            proof {
                if old(self).described() {
                    assert(final(self).input() =~= old(self).input().skip(1));
                }
            }
            Err(Error::Unexpected(h, "floating point"))
        }
    }

    /// Decodes a float of at most single precision.
    pub fn deserialize_f32<'a>(&'a mut self) -> (r: Result<Item<'a, 'r>, Error>)
        ensures
            typed_result(*old(self), *final(self), r, |h: u8| h == 0xfau8 || h == 0xf9u8),
    {
        let h = self.peek()?;
        if h == HEADER_FLOAT_32 || h == HEADER_FLOAT_16 {
            self.deserialize_any()
        } else {
            self.consume();
            proof {
                if old(self).described() {
                    assert(final(self).input() =~= old(self).input().skip(1));
                }
            }
            Err(Error::Unexpected(h, "floating point"))
        }
    }

    /// Decodes a float of any precision.
    pub fn deserialize_f64<'a>(&'a mut self) -> (r: Result<Item<'a, 'r>, Error>)
        ensures
            typed_result(*old(self), *final(self), r, |h: u8| h == 0xfbu8 || h == 0xfau8 || h == 0xf9u8),
    {
        let h = self.peek()?;
        if h == HEADER_FLOAT_64 || h == HEADER_FLOAT_32 || h == HEADER_FLOAT_16 {
            self.deserialize_any()
        } else {
            self.consume();
            proof {
                if old(self).described() {
                    assert(final(self).input() =~= old(self).input().skip(1));
                }
            }
            Err(Error::Unexpected(h, "floating point"))
        }
    }

    /// Decodes a text string; an indefinite-length one is unsupported.
    pub fn deserialize_str<'a>(&'a mut self) -> (r: Result<Item<'a, 'r>, Error>)
        ensures
            typed_result(*old(self), *final(self), r, |h: u8| (0x60u8 <= h && h <= 0x7bu8) || h == 0x7fu8),
    {
        let h = self.peek()?;
        if (0x60 <= h && h <= 0x7b) || h == 0x7f {
            self.deserialize_any()
        } else {
            self.consume();
            proof {
                if old(self).described() {
                    assert(final(self).input() =~= old(self).input().skip(1));
                }
            }
            Err(Error::Unexpected(h, "string"))
        }
    }

    /// Decodes a byte string; an indefinite-length one is unsupported.
    pub fn deserialize_bytes<'a>(&'a mut self) -> (r: Result<Item<'a, 'r>, Error>)
        ensures
            typed_result(*old(self), *final(self), r, |h: u8| (0x40u8 <= h && h <= 0x5bu8) || h == 0x5fu8),
    {
        let h = self.peek()?;
        if (0x40 <= h && h <= 0x5b) || h == 0x5f {
            self.deserialize_any()
        } else {
            self.consume();
            proof {
                if old(self).described() {
                    assert(final(self).input() =~= old(self).input().skip(1));
                }
            }
            Err(Error::Unexpected(h, "byte"))
        }
    }

    /// Decodes the head of an array; an indefinite-length one is unsupported.
    pub fn deserialize_seq<'a>(&'a mut self) -> (r: Result<Item<'a, 'r>, Error>)
        ensures
            typed_result(*old(self), *final(self), r, |h: u8| (0x80u8 <= h && h <= 0x9bu8) || h == 0x9fu8),
    {
        let h = self.peek()?;
        if (0x80 <= h && h <= 0x9b) || h == 0x9f {
            self.deserialize_any()
        } else {
            self.consume();
            proof {
                if old(self).described() {
                    assert(final(self).input() =~= old(self).input().skip(1));
                }
            }
            Err(Error::Unexpected(h, "array"))
        }
    }

    /// Decodes the head of a map; an indefinite-length one is unsupported.
    pub fn deserialize_map<'a>(&'a mut self) -> (r: Result<Item<'a, 'r>, Error>)
        ensures
            typed_result(*old(self), *final(self), r, |h: u8| (0xa0u8 <= h && h <= 0xbbu8) || h == 0xbfu8),
    {
        let h = self.peek()?;
        if (0xa0 <= h && h <= 0xbb) || h == 0xbf {
            self.deserialize_any()
        } else {
            self.consume();
            proof {
                if old(self).described() {
                    assert(final(self).input() =~= old(self).input().skip(1));
                }
            }
            Err(Error::Unexpected(h, "map"))
        }
    }

    /// Looks at an optional value: `true` when it is absent (`null`, which is consumed), `false`
    /// when a value follows (its header byte is kept for the request that reads it).
    pub fn deserialize_option(&mut self) -> (r: Result<bool, Error>)
        ensures
            final(self).source().described() == old(self).source().described(),
            final(self).depth_left() == old(self).depth_left(),
            final(self).source().exact() == old(self).source().exact(),
            final(self).source().borrows() == old(self).source().borrows(),
            old(self).described() && r is Ok ==> old(self).input().len() > 0 && r->Ok_0 == (old(
                self,
            ).input()[0] == 0xf6),
            r matches Ok(true) ==> final(self).slot() is None,
            old(self).described() && r == Ok::<bool, Error>(true) ==> final(self).input() == old(self).input().skip(1)
                && final(self).position() == old(self).position() + 1,
            old(self).described() && r == Ok::<bool, Error>(false) ==> final(self).input() == old(self).input()
                && final(self).position() == old(self).position(),
            old(self).exact() ==> (r is Ok <==> old(self).input().len() > 0),
    {
        if self.peek()? == HEADER_NULL {
            self.consume();
            proof {
                if old(self).described() {
                    assert(final(self).input() =~= old(self).input().skip(1));
                }
            }
            Ok(true)
        } else {
            Ok(false)
        }
    }

    /// Looks at an enum value: `Ok(false)` for a unit variant, written as its name, which stays
    /// to be read; `Ok(true)` for a variant with data, framed as a map of one pair whose head is
    /// consumed, so that the name and then the payload follow. Any other header is unexpected
    /// and is consumed.
    pub fn deserialize_enum(&mut self) -> (r: Result<bool, Error>)
        ensures
            final(self).source().described() == old(self).source().described(),
            final(self).depth_left() == old(self).depth_left(),
            final(self).source().exact() == old(self).source().exact(),
            final(self).source().borrows() == old(self).source().borrows(),
            old(self).described() && r is Ok ==> old(self).input().len() > 0,
            old(self).described() && r == Ok::<bool, Error>(false) ==> 0x60 <= old(self).input()[0] <= 0x7b && final(self).input() == old(self).input()
                && final(self).position() == old(self).position(),
            r matches Ok(true) ==> final(self).slot() is None,
            old(self).described() && r == Ok::<bool, Error>(true) ==> old(self).input()[0] == 0xa1
                && final(self).input() == old(self).input().skip(1) && final(self).position() == old(self).position() + 1,
            old(self).exact() && old(self).input().len() > 0 ==> {
                let h = old(self).input()[0];
                if 0x60 <= h <= 0x7b || h == 0xa1 {
                    r is Ok
                } else {
                    (r matches Err(Error::Unexpected(b, _)) && b == h) && final(self).input() == old(self).input().skip(1)
                        && final(self).position() == old(self).position() + 1
                }
            },
            old(self).exact() && old(self).input().len() == 0 ==> r is Err,
    {
        let h = self.peek()?;
        if 0x60 <= h && h <= 0x7b {
            Ok(false)
        } else if h == HEADER_MAP_ONE {
            self.consume();
            proof {
                if old(self).described() {
                    assert(final(self).input() =~= old(self).input().skip(1));
                }
            }
            Ok(true)
        } else {
            self.consume();
            proof {
                if old(self).described() {
                    assert(final(self).input() =~= old(self).input().skip(1));
                }
            }
            Err(Error::Unexpected(h, "enum (text or map(1))"))
        }
    }

    /// The decoder reads the compact binary forms, not the human-readable ones.
    pub fn is_human_readable(&self) -> (r: bool)
        ensures
            !r,
    {
        false
    }

    /// Drops the header byte held, if any.
    pub fn consume(&mut self)
        ensures
            final(self).slot() is None,
            final(self).source() == old(self).source(),
            final(self).depth_left() == old(self).depth_left(),
    {
        self.peek = None;
    }

    /// The next header byte, consumed.
    pub fn peek_and_consume(&mut self) -> (r: Result<u8, Error>)
        ensures
            final(self).slot() is None,
            final(self).source().described() == old(self).source().described(),
            final(self).depth_left() == old(self).depth_left(),
            final(self).source().exact() == old(self).source().exact(),
            final(self).source().borrows() == old(self).source().borrows(),
            old(self).described() && r is Ok ==> old(self).input().len() > 0 && r->Ok_0 == old(
                self,
            ).input()[0],
            old(self).described() && r is Ok ==> final(self).input() == old(self).input().skip(1),
            old(self).described() && r is Ok ==> final(self).position() == old(self).position() + 1,
            old(self).exact() ==> (r is Ok <==> old(self).input().len() > 0),
    {
        let peek = self.peek();
        self.consume();
        proof {
            if peek is Ok && old(self).described() {
                assert(final(self).input() =~= old(self).input().skip(1));
            }
        }
        peek
    }
}

} // verus!
