//! Properties that relate the encoder's output to the decoder's reading of it.
use vstd::prelude::*;
use crate::deserialize::{Decoded, Deserializer, Token};
use crate::error::Error;
use crate::deserialize::Item;
use crate::read::{Reader, SliceReader};

verus! {

/// The integer that an integer token stands for.
pub open spec fn token_int(t: Token) -> int {
    match t {
        Token::U8(v) => v as int,
        Token::U16(v) => v as int,
        Token::U32(v) => v as int,
        Token::U64(v) => v as int,
        Token::I8(v) => v as int,
        Token::I16(v) => v as int,
        Token::I32(v) => v as int,
        Token::I64(v) => v as int,
        _ => 0,
    }
}

/// An integer token of either sign.
pub open spec fn is_int_token(t: Token) -> bool {
    t is U8 || t is U16 || t is U32 || t is U64 || t is I8 || t is I16 || t is I32 || t is I64
}

/// The head that the encoder writes for `v` under major type 0 or 1 decodes, whatever follows
/// it, to `v` itself: an integer of that major type, taking exactly the head's bytes.
proof fn lemma_head_decodes(major: nat, v: nat, rest: Seq<u8>)
    requires
        major <= 1,
        v <= u64::MAX,
        major == 1 ==> v <= i64::MAX,
    ensures
        crate::deserialize::decode_any(crate::cbor::encode_head(major, v) + rest) matches Decoded::Item(
            t,
            n,
        ) && n == crate::cbor::encode_head(major, v).len() && is_int_token(t) && token_int(t) == (
        if major == 0 {
            v as int
        } else {
            -1 - v
        }),
{
    let e = crate::cbor::encode_head(major, v);
    let s = e + rest;
    let w = crate::cbor::arg_width(v);
    reveal_with_fuel(crate::cbor::pow256, 9);
    crate::serialize::lemma_head_len(major, v);
    if v >= 24 {
        crate::cbor::lemma_be_round_trip(v, w);
        assert(s.subrange(1, 1 + w as int) =~= crate::cbor::be_bytes(v, w));
    }
    assert(s[0] == e[0]);
}

/// Round trip of integers: what the encoder writes for any `i64` decodes back to it, and the
/// decoder takes exactly the bytes written.
pub proof fn lemma_round_trip_int(v: i64, rest: Seq<u8>)
    ensures
        crate::deserialize::decode_any(crate::serialize::encode_int(v as int) + rest) matches Decoded::Item(
            t,
            n,
        ) && n == crate::serialize::encode_int(v as int).len() && is_int_token(t) && token_int(t)
            == v,
{
    if v < 0 {
        lemma_head_decodes(1, (-1 - v) as nat, rest);
    } else {
        lemma_head_decodes(0, v as nat, rest);
    }
}

/// Round trip of unsigned integers: what the encoder writes for any `u64` decodes back to it,
/// and the decoder takes exactly the bytes written.
pub proof fn lemma_round_trip_uint(v: u64, rest: Seq<u8>)
    ensures
        crate::deserialize::decode_any(crate::cbor::encode_head(0, v as nat) + rest) matches Decoded::Item(
            t,
            n,
        ) && n == crate::cbor::encode_head(0, v as nat).len() && is_int_token(t) && token_int(t)
            == v,
{
    lemma_head_decodes(0, v as nat, rest);
}

/// Round trip of strings: a byte string, or a text string of valid UTF-8, decodes back to its
/// bytes, and the decoder takes exactly the bytes written.
pub proof fn lemma_round_trip_string(major: nat, b: Seq<u8>, rest: Seq<u8>)
    requires
        major == 2 || major == 3,
        b.len() <= usize::MAX,
        major == 3 ==> vstd::utf8::valid_utf8(b),
    ensures
        crate::deserialize::decode_any(crate::serialize::encode_string(major, b) + rest)
            == Decoded::Item(
            if major == 2 {
                Token::Bytes(b)
            } else {
                Token::Text(b)
            },
            crate::serialize::encode_string(major, b).len(),
        ),
{
    let e = crate::cbor::encode_head(major, b.len());
    let s = crate::serialize::encode_string(major, b) + rest;
    let w = crate::cbor::arg_width(b.len());
    reveal_with_fuel(crate::cbor::pow256, 9);
    crate::serialize::lemma_head_len(major, b.len());
    if b.len() >= 24 {
        crate::cbor::lemma_be_round_trip(b.len(), w);
        assert(s.subrange(1, 1 + w as int) =~= crate::cbor::be_bytes(b.len(), w));
    }
    assert(s[0] == e[0]);
    assert(s.subrange(1 + w as int, 1 + w + b.len() as int) =~= b);
}

/// Round trip of text: the UTF-8 form of any characters, written as a text string (as the
/// encoder writes a `str` or a `char`), decodes to bytes whose characters are the same ones.
pub proof fn lemma_round_trip_text(chars: Seq<char>, rest: Seq<u8>)
    requires
        vstd::utf8::encode_utf8(chars).len() <= usize::MAX,
    ensures
        ({
            let b = vstd::utf8::encode_utf8(chars);
            &&& crate::deserialize::decode_any(crate::serialize::encode_string(3, b) + rest)
                == Decoded::Item(Token::Text(b), crate::serialize::encode_string(3, b).len())
            &&& vstd::utf8::decode_utf8(b) == chars
        }),
{
    let b = vstd::utf8::encode_utf8(chars);
    vstd::utf8::encode_utf8_valid_utf8(chars);
    vstd::utf8::encode_utf8_decode_utf8(chars);
    lemma_round_trip_string(3, b, rest);
}

/// Round trip of the one-byte values and of floats given by their bits: each decodes back to
/// itself and takes exactly the bytes written.
pub proof fn lemma_round_trip_simple(b: bool, f32_bits: u32, f64_bits: u64, rest: Seq<u8>)
    ensures
        crate::deserialize::decode_any(seq![if b { 0xf5u8 } else { 0xf4u8 }] + rest) == Decoded::Item(
            Token::Bool(b),
            1,
        ),
        crate::deserialize::decode_any(seq![0xf6u8] + rest) == Decoded::Item(Token::Null, 1),
        crate::deserialize::decode_any(seq![0xf7u8] + rest) == Decoded::Item(Token::Undefined, 1),
        crate::deserialize::decode_any(seq![0xfau8] + crate::cbor::be_bytes(f32_bits as nat, 4) + rest)
            == Decoded::Item(Token::F32(f32_bits), 5),
        crate::deserialize::decode_any(seq![0xfbu8] + crate::cbor::be_bytes(f64_bits as nat, 8) + rest)
            == Decoded::Item(Token::F64(f64_bits), 9),
{
    reveal_with_fuel(crate::cbor::pow256, 9);
    crate::cbor::lemma_be_round_trip(f32_bits as nat, 4);
    crate::cbor::lemma_be_round_trip(f64_bits as nat, 8);
    let s4 = seq![0xfau8] + crate::cbor::be_bytes(f32_bits as nat, 4) + rest;
    let s8 = seq![0xfbu8] + crate::cbor::be_bytes(f64_bits as nat, 8) + rest;
    assert(s4.subrange(1, 5) =~= crate::cbor::be_bytes(f32_bits as nat, 4));
    assert(s8.subrange(1, 9) =~= crate::cbor::be_bytes(f64_bits as nat, 8));
}

/// Round trip of array and map heads: the head written for `n` elements (or pairs) decodes
/// back to that count and takes exactly the head's bytes; the elements follow as items of their own.
pub proof fn lemma_round_trip_composite_head(major: nat, n: usize, rest: Seq<u8>)
    requires
        major == 4 || major == 5,
        n <= u64::MAX,
    ensures
        crate::deserialize::decode_any(crate::cbor::encode_head(major, n as nat) + rest)
            == Decoded::Item(
            if major == 4 {
                Token::Array(n)
            } else {
                Token::Pairs(n)
            },
            crate::cbor::encode_head(major, n as nat).len(),
        ),
{
    let e = crate::cbor::encode_head(major, n as nat);
    let s = e + rest;
    let w = crate::cbor::arg_width(n as nat);
    reveal_with_fuel(crate::cbor::pow256, 9);
    crate::serialize::lemma_head_len(major, n as nat);
    if n >= 24 {
        crate::cbor::lemma_be_round_trip(n as nat, w);
        assert(s.subrange(1, 1 + w as int) =~= crate::cbor::be_bytes(n as nat, w));
    }
    assert(s[0] == e[0]);
}

/// Length exactness: when a slice reader's input holds, from the cursor on, bytes that
/// decode to one item taking all of `written`, decoding it succeeds and advances the cursor
/// by exactly `written.len()` bytes.
pub proof fn lemma_cursor_advance<'a, 'r>(
    pre: Deserializer<SliceReader<'r>>,
    post: Deserializer<SliceReader<'r>>,
    r: Result<Item<'a, 'r>, Error>,
    written: Seq<u8>,
    rest: Seq<u8>,
)
    requires
        pre.slot() is None,
        pre.input() == written + rest,
        crate::deserialize::decode_any(written + rest) matches Decoded::Item(_, n) && n
            == written.len(),
        crate::deserialize::any_result(pre, post, r),
    ensures
        r is Ok,
        post.source().position() == pre.source().position() + written.len(),
{
}

/// Minimal encoding: an integer `v` takes one header byte, then no argument byte below 24,
/// one below 2^8, two below 2^16, four below 2^32 and eight otherwise, where the argument of a
/// negative `v` is `-1 - v`.
pub proof fn lemma_minimal_encoding(v: i64)
    ensures
        ({
            let a: int = if v >= 0 {
                v as int
            } else {
                -1 - v
            };
            crate::serialize::encode_int(v as int).len() == 1 + if a < 24 {
                0int
            } else if a < 0x100 {
                1int
            } else if a < 0x1_0000 {
                2int
            } else if a < 0x1_0000_0000 {
                4int
            } else {
                8int
            }
        }),
{
    if v < 0 {
        crate::serialize::lemma_head_len(1, (-1 - v) as nat);
    } else {
        crate::serialize::lemma_head_len(0, v as nat);
    }
}

/// Minimal encoding of unsigned integers, as for signed ones with the value itself as argument.
pub proof fn lemma_minimal_encoding_uint(v: u64)
    ensures
        crate::cbor::encode_head(0, v as nat).len() == 1 + if v < 24 {
            0int
        } else if v < 0x100 {
            1int
        } else if v < 0x1_0000 {
            2int
        } else if v < 0x1_0000_0000 {
            4int
        } else {
            8int
        },
{
    crate::serialize::lemma_head_len(0, v as nat);
}

/// Idempotent look-ahead: a second look at the header byte, with no consumption in between,
/// gives the same byte and reads nothing, so two looks read at most one byte of the reader.
pub proof fn lemma_peek_twice<'r, R: Reader<'r>>(
    d0: Deserializer<R>,
    d1: Deserializer<R>,
    d2: Deserializer<R>,
    r1: Result<u8, Error>,
    r2: Result<u8, Error>,
)
    requires
        d0.described(),
        crate::deserialize::peeked(d0, d1, r1),
        crate::deserialize::peeked(d1, d2, r2),
        r1 is Ok,
    ensures
        r2 == r1,
        d2 == d1,
        d2.source().consumed() <= d0.source().consumed() + 1,
        d2.position() == d0.position(),
{
}

} // verus!
