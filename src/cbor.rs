//! Wire constants of the format and the mathematical model of header bytes.
use vstd::prelude::*;

verus! {

pub const MAJOR_POSITIVE: u8 = 0;
pub const MAJOR_NEGATIVE: u8 = 1;
pub const MAJOR_BYTE: u8 = 2;
pub const MAJOR_TEXT: u8 = 3;
pub const MAJOR_ARRAY: u8 = 4;
pub const MAJOR_MAP: u8 = 5;
pub const MAJOR_TAG: u8 = 6;
pub const MAJOR_PRIMITIVE: u8 = 7;

/// Argument codes that announce a 1, 2, 4 or 8 byte argument.
pub const SIZE_8: u8 = 24;
pub const SIZE_16: u8 = 25;
pub const SIZE_32: u8 = 26;
pub const SIZE_64: u8 = 27;
pub const SIZE_INFINITE: u8 = 31;

pub const HEADER_FALSE: u8 = 0xf4;
pub const HEADER_TRUE: u8 = 0xf5;
pub const HEADER_NULL: u8 = 0xf6;
pub const HEADER_UNDEFINED: u8 = 0xf7;
pub const HEADER_FLOAT_16: u8 = 0xf9;
pub const HEADER_FLOAT_32: u8 = 0xfa;
pub const HEADER_FLOAT_64: u8 = 0xfb;
pub const HEADER_BREAK: u8 = 0xff;
/// A map of exactly one pair: the frame of every enum variant that carries data.
pub const HEADER_MAP_ONE: u8 = 0xa1;

/// 256 to the power `w`.
pub open spec fn pow256(w: nat) -> nat
    decreases w,
{
    if w == 0 {
        1
    } else {
        256 * pow256((w - 1) as nat)
    }
}

/// The unsigned number that a byte sequence spells in big-endian order.
pub open spec fn be_value(s: Seq<u8>) -> nat
    decreases s.len(),
{
    if s.len() == 0 {
        0
    } else {
        be_value(s.drop_last()) * 256 + s.last() as nat
    }
}

/// The `w` low bytes of `v`, most significant first.
pub open spec fn be_bytes(v: nat, w: nat) -> Seq<u8>
    decreases w,
{
    if w == 0 {
        Seq::empty()
    } else {
        be_bytes(v / 256, (w - 1) as nat).push((v % 256) as u8)
    }
}

/// Number of argument bytes that the smallest size class for `v` takes.
pub open spec fn arg_width(v: nat) -> nat {
    if v < 24 {
        0
    } else if v < 0x100 {
        1
    } else if v < 0x1_0000 {
        2
    } else if v < 0x1_0000_0000 {
        4
    } else {
        8
    }
}

/// The argument code of a header whose argument takes `w` bytes.
pub open spec fn width_code(w: nat) -> nat {
    if w == 1 {
        24
    } else if w == 2 {
        25
    } else if w == 4 {
        26
    } else {
        27
    }
}

/// The bytes of a header of major type `major` and argument `v`, in its smallest size class.
pub open spec fn encode_head(major: nat, v: nat) -> Seq<u8> {
    if v < 24 {
        seq![(major * 32 + v) as u8]
    } else {
        seq![(major * 32 + width_code(arg_width(v))) as u8] + be_bytes(v, arg_width(v))
    }
}

/// Major type of a header byte.
pub open spec fn major_of(h: u8) -> nat {
    (h / 32) as nat
}

/// Argument code (low five bits) of a header byte.
pub open spec fn info_of(h: u8) -> nat {
    (h % 32) as nat
}

/// Number of argument bytes that follow a header byte with argument code `info`
/// (meaningful for codes up to 27).
pub open spec fn extra_width(info: nat) -> nat {
    if info < 24 {
        0
    } else if info == 24 {
        1
    } else if info == 25 {
        2
    } else if info == 26 {
        4
    } else {
        8
    }
}

/// Writing `w` big-endian bytes of a value below `256^w` and reading them back gives the value.
pub proof fn lemma_be_round_trip(v: nat, w: nat)
    requires
        v < pow256(w),
    ensures
        be_bytes(v, w).len() == w,
        be_value(be_bytes(v, w)) == v,
    decreases w,
{
    if w > 0 {
        let w1 = (w - 1) as nat;
        assert(v / 256 < pow256(w1)) by (nonlinear_arith)
            requires
                v < 256 * pow256(w1),
        ;
        lemma_be_round_trip(v / 256, w1);
        let s = be_bytes(v, w);
        assert(s.drop_last() =~= be_bytes(v / 256, w1));
        assert(v == (v / 256) * 256 + v % 256) by (nonlinear_arith);
    }
}

/// A big-endian value of `w` bytes is below `256^w`.
pub proof fn lemma_be_value_bound(s: Seq<u8>)
    ensures
        be_value(s) < pow256(s.len()),
    decreases s.len(),
{
    if s.len() > 0 {
        lemma_be_value_bound(s.drop_last());
        let p = pow256((s.len() - 1) as nat);
        let a = be_value(s.drop_last());
        let b = s.last() as nat;
        assert(a * 256 + b < 256 * p) by (nonlinear_arith)
            requires
                a < p,
                b < 256,
        ;
    }
}

} // verus!
