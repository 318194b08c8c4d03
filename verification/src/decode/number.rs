//! Integers in the input: their value in both byte orders.

use vstd::prelude::*;
use crate::decode::error::DecodeError;
use crate::decode::value::{Value, ValueView};
use crate::text::str_eq;

verus! {

/// `256` to the power `n`.
pub open spec fn pow256(n: nat) -> nat
    decreases n,
{
    if n == 0 {
        1
    } else {
        256 * pow256((n - 1) as nat)
    }
}

/// The number that `bytes` stand for, most significant byte first.
pub open spec fn be_value(bytes: Seq<u8>) -> nat
    decreases bytes.len(),
{
    if bytes.len() == 0 {
        0
    } else {
        256 * be_value(bytes.drop_last()) + bytes.last() as nat
    }
}

/// The number that `bytes` stand for, least significant byte first.
pub open spec fn le_value(bytes: Seq<u8>) -> nat
    decreases bytes.len(),
{
    if bytes.len() == 0 {
        0
    } else {
        bytes[0] as nat + 256 * le_value(bytes.skip(1))
    }
}

/// The signed number that the unsigned number `n` of `width` bytes stands
/// for, in two's complement.
pub open spec fn signed_value(n: nat, width: nat) -> int {
    if 2 * n >= pow256(width) {
        n - pow256(width)
    } else {
        n as int
    }
}

/// The number of bytes of the primitive integer type `name`, and whether
/// the type is signed; `None` where `name` is no such type.
pub open spec fn int_type_spec(name: Seq<char>) -> Option<(nat, bool)> {
    if name == "u8"@ {
        Some((1, false))
    } else if name == "i8"@ {
        Some((1, true))
    } else if name == "u16"@ {
        Some((2, false))
    } else if name == "i16"@ {
        Some((2, true))
    } else if name == "u32"@ {
        Some((4, false))
    } else if name == "i32"@ {
        Some((4, true))
    } else if name == "u64"@ {
        Some((8, false))
    } else if name == "i64"@ {
        Some((8, true))
    } else if name == "u128"@ {
        Some((16, false))
    } else if name == "i128"@ {
        Some((16, true))
    } else {
        None
    }
}

/// The value of the integer of `width` bytes that `bytes` hold.
pub open spec fn int_value(bytes: Seq<u8>, signed: bool, big_endian: bool) -> ValueView {
    let n = if big_endian {
        be_value(bytes)
    } else {
        le_value(bytes)
    };
    if signed {
        ValueView::Int(signed_value(n, bytes.len()) as i128)
    } else {
        ValueView::UInt(n as u128)
    }
}

/// What reading an integer of `width` bytes at `pos` gives: the offset
/// after it and its value, or a lack of input that asks for `width` bytes,
/// however many of them are there.
pub open spec fn read_int_spec(
    input: Seq<u8>,
    pos: nat,
    width: nat,
    signed: bool,
    big_endian: bool,
) -> Result<(nat, ValueView), DecodeError> {
    if pos + width <= input.len() {
        Ok(
            (
                pos + width,
                int_value(input.subrange(pos as int, (pos + width) as int), signed, big_endian),
            ),
        )
    } else {
        Err(DecodeError::Incomplete(width as usize))
    }
}

/// The powers of `256` up to the sixteenth.
pub proof fn lemma_pow256_values()
    ensures
        pow256(0) == 1,
        pow256(1) == 0x100,
        pow256(2) == 0x1_0000,
        pow256(3) == 0x100_0000,
        pow256(4) == 0x1_0000_0000,
        pow256(5) == 0x100_0000_0000,
        pow256(6) == 0x1_0000_0000_0000,
        pow256(7) == 0x100_0000_0000_0000,
        pow256(8) == 0x1_0000_0000_0000_0000,
        pow256(9) == 0x100_0000_0000_0000_0000,
        pow256(10) == 0x1_0000_0000_0000_0000_0000,
        pow256(11) == 0x100_0000_0000_0000_0000_0000,
        pow256(12) == 0x1_0000_0000_0000_0000_0000_0000,
        pow256(13) == 0x100_0000_0000_0000_0000_0000_0000,
        pow256(14) == 0x1_0000_0000_0000_0000_0000_0000_0000,
        pow256(15) == 0x100_0000_0000_0000_0000_0000_0000_0000,
        pow256(16) == 0x1_0000_0000_0000_0000_0000_0000_0000_0000,
{
    reveal_with_fuel(pow256, 17);
}

/// A number of `n` bytes is below `256` to the power `n`.
pub proof fn lemma_be_value_bound(bytes: Seq<u8>)
    ensures
        be_value(bytes) < pow256(bytes.len()),
    decreases bytes.len(),
{
    if bytes.len() > 0 {
        lemma_be_value_bound(bytes.drop_last());
    }
}

/// A number of `n` bytes is below `256` to the power `n`.
pub proof fn lemma_le_value_bound(bytes: Seq<u8>)
    ensures
        le_value(bytes) < pow256(bytes.len()),
    decreases bytes.len(),
{
    if bytes.len() > 0 {
        lemma_le_value_bound(bytes.skip(1));
    }
}

/// The number that the `width` bytes at `pos` stand for, most significant
/// byte first.
pub fn be_number(input: &[u8], pos: usize, width: usize) -> (r: u128)
    requires
        width <= 16,
        pos + width <= input.len(),
    ensures
        r == be_value(input@.subrange(pos as int, pos + width)),
{
    let mut acc: u128 = 0;
    let mut i: usize = 0;
    proof {
        lemma_pow256_values();
    }
    while i < width
        invariant
            i <= width <= 16,
            pos + width <= input.len(),
            acc == be_value(input@.subrange(pos as int, pos + i)),
        decreases width - i,
    {
        proof {
            let next = input@.subrange(pos as int, pos + i + 1);
            assert(next.drop_last() =~= input@.subrange(pos as int, pos + i));
            assert(next.last() == input[pos + i]);
            lemma_be_value_bound(next);
            lemma_pow256_values();
            lemma_pow256_monotonic((i + 1) as nat, 16);
        }
        acc = acc * 256 + input[pos + i] as u128;
        i += 1;
    }
    acc
}

/// `256` to the power `a` is at most `256` to the power `b`, where `a` is
/// at most `b`.
pub proof fn lemma_pow256_monotonic(a: nat, b: nat)
    requires
        a <= b,
    ensures
        pow256(a) <= pow256(b),
    decreases b,
{
    if a < b {
        lemma_pow256_monotonic(a, (b - 1) as nat);
    }
}

/// The number that the `width` bytes at `pos` stand for, least
/// significant byte first.
pub fn le_number(input: &[u8], pos: usize, width: usize) -> (r: u128)
    requires
        width <= 16,
        pos + width <= input.len(),
    ensures
        r == le_value(input@.subrange(pos as int, pos + width)),
{
    let mut acc: u128 = 0;
    let mut i: usize = width;
    proof {
        lemma_pow256_values();
        assert(input@.subrange(pos + width, pos + width).len() == 0);
    }
    while i > 0
        invariant
            i <= width <= 16,
            pos + width <= input.len(),
            acc == le_value(input@.subrange(pos + i, pos + width)),
        decreases i,
    {
        proof {
            let next = input@.subrange(pos + i - 1, pos + width);
            assert(next.skip(1) =~= input@.subrange(pos + i, pos + width));
            assert(next[0] == input[pos + i - 1]);
            lemma_le_value_bound(next);
            lemma_pow256_values();
            lemma_pow256_monotonic((width - i + 1) as nat, 16);
        }
        i -= 1;
        acc = acc * 256 + input[pos + i] as u128;
    }
    acc
}

/// Reads `n` as a signed number in two's complement of `width` bytes.
pub fn to_signed(n: u128, width: usize) -> (r: i128)
    requires
        width == 1 || width == 2 || width == 4 || width == 8 || width == 16,
        n < pow256(width as nat),
    ensures
        r == signed_value(n as nat, width as nat),
{
    proof {
        lemma_pow256_values();
    }
    if width == 16 {
        if n >= 0x8000_0000_0000_0000_0000_0000_0000_0000u128 {
            let low: u128 = n - 0x8000_0000_0000_0000_0000_0000_0000_0000u128;
            (low as i128) + i128::MIN
        } else {
            n as i128
        }
    } else {
        let full: i128 = if width == 1 {
            0x100
        } else if width == 2 {
            0x1_0000
        } else if width == 4 {
            0x1_0000_0000
        } else {
            0x1_0000_0000_0000_0000
        };
        let v: i128 = n as i128;
        if 2 * v >= full {
            v - full
        } else {
            v
        }
    }
}

/// The width and the signedness of a primitive integer type.
pub fn int_type(name: &str) -> (r: Option<(usize, bool)>)
    ensures
        match r {
            Some((w, s)) => int_type_spec(name@) == Some((w as nat, s)) && (w == 1 || w == 2 || w
                == 4 || w == 8 || w == 16),
            None => int_type_spec(name@).is_none(),
        },
{
    if str_eq(name, "u8") {
        Some((1, false))
    } else if str_eq(name, "i8") {
        Some((1, true))
    } else if str_eq(name, "u16") {
        Some((2, false))
    } else if str_eq(name, "i16") {
        Some((2, true))
    } else if str_eq(name, "u32") {
        Some((4, false))
    } else if str_eq(name, "i32") {
        Some((4, true))
    } else if str_eq(name, "u64") {
        Some((8, false))
    } else if str_eq(name, "i64") {
        Some((8, true))
    } else if str_eq(name, "u128") {
        Some((16, false))
    } else if str_eq(name, "i128") {
        Some((16, true))
    } else {
        None
    }
}

/// Reads an integer of `width` bytes at `pos`.
pub fn read_int(input: &[u8], pos: usize, width: usize, signed: bool, big_endian: bool) -> (r:
    Result<(usize, Value), DecodeError>)
    requires
        pos <= input.len(),
        width == 1 || width == 2 || width == 4 || width == 8 || width == 16,
    ensures
        match r {
            Ok((p, v)) => read_int_spec(input@, pos as nat, width as nat, signed, big_endian)
                == Ok::<(nat, ValueView), DecodeError>((p as nat, v@)) && p <= input.len(),
            Err(e) => read_int_spec(input@, pos as nat, width as nat, signed, big_endian) == Err::<
                (nat, ValueView),
                DecodeError,
            >(e),
        },
{
    if input.len() - pos < width {
        return Err(DecodeError::Incomplete(width));
    }
    let n = if big_endian {
        be_number(input, pos, width)
    } else {
        le_number(input, pos, width)
    };
    proof {
        lemma_be_value_bound(input@.subrange(pos as int, pos + width));
        lemma_le_value_bound(input@.subrange(pos as int, pos + width));
    }
    if signed {
        Ok((pos + width, Value::Int(to_signed(n, width))))
    } else {
        Ok((pos + width, Value::UInt(n)))
    }
}

} // verus!
