//! The decoding procedures of the types that need no description:
//! integers, options, sequences, pairs and arrays.

use vstd::prelude::*;
use vstd::slice::slice_subrange;
use vstd::utf8::{decode_utf8, valid_utf8};
use crate::decode::error::{DecodeError, DecodeErrorKind};
use crate::decode::number::{
    be_number, be_value, le_number, le_value, lemma_be_value_bound, lemma_le_value_bound,
    lemma_pow256_values, pow256, signed_value, to_signed,
};
use crate::endian::ParserEndianness;

verus! {

/// An input that can be cut: a sequence of bytes.
pub trait InputSlice: Sized {
    /// The bytes of the input.
    spec fn bytes(&self) -> Seq<u8>;

    /// The bytes of the input, as a slice.
    fn as_bytes(&self) -> (r: &[u8])
        ensures
            r@ == self.bytes(),
    ;

    /// The number of bytes of the input.
    fn input_len(&self) -> (r: usize)
        ensures
            r == self.bytes().len(),
    ;

    /// Another handle on the same input.
    fn duplicate(&self) -> (r: Self)
        ensures
            r.bytes() == self.bytes(),
    ;

    /// Cuts the input after `count` bytes: what follows them, then the
    /// bytes themselves.
    fn take_split(&self, count: usize) -> (r: (Self, Self))
        requires
            count <= self.bytes().len(),
        ensures
            r.0.bytes() == self.bytes().skip(count as int),
            r.1.bytes() == self.bytes().take(count as int),
    ;
}

impl<'a> InputSlice for &'a [u8] {
    open spec fn bytes(&self) -> Seq<u8> {
        (*self)@
    }

    fn as_bytes(&self) -> (r: &[u8]) {
        *self
    }

    fn input_len(&self) -> (r: usize) {
        self.len()
    }

    fn duplicate(&self) -> (r: Self) {
        *self
    }

    fn take_split(&self, count: usize) -> (r: (Self, Self)) {
        let rest = slice_subrange(*self, count, self.len());
        let taken = slice_subrange(*self, 0, count);
        (rest, taken)
    }
}

/// What a decoding procedure gives, in the model: the input that is left
/// and the value, or an error. The offset of an error is counted from the
/// input of the procedure that reports it. A lack of input carries the
/// whole count of bytes that the procedure asked for, not the number that
/// is still missing.
pub type Parsed<V> = Result<(Seq<u8>, V), DecodeError>;

/// The model of the result of a decoding procedure.
pub open spec fn parsed_view<I: InputSlice, T: DeepView>(r: Result<(I, T), DecodeError>) -> Parsed<
    T::V,
> {
    match r {
        Ok((rest, v)) => Ok((rest.bytes(), v.deep_view())),
        Err(e) => Err(e),
    }
}

/// A type with a decoding procedure for each byte order.
///
/// `parse_spec` says what the procedure reads from an input, for the entry
/// point of byte order `endianness`: `BigEndian` for `parse_be`,
/// `LittleEndian` for `parse_le`, `Unspecified` for `parse`, which leaves
/// the byte order to the type.
pub trait Parse<I: InputSlice>: Sized + DeepView {
    spec fn parse_spec(input: Seq<u8>, endianness: ParserEndianness) -> Parsed<Self::V>;

    /// Reads a value, in the byte order that the type prefers.
    fn parse(i: I) -> (r: Result<(I, Self), DecodeError>)
        ensures
            parsed_view(r) == Self::parse_spec(i.bytes(), ParserEndianness::Unspecified),
    ;

    /// Reads a value, big endian.
    fn parse_be(i: I) -> (r: Result<(I, Self), DecodeError>)
        ensures
            parsed_view(r) == Self::parse_spec(i.bytes(), ParserEndianness::BigEndian),
    ;

    /// Reads a value, little endian.
    fn parse_le(i: I) -> (r: Result<(I, Self), DecodeError>)
        ensures
            parsed_view(r) == Self::parse_spec(i.bytes(), ParserEndianness::LittleEndian),
    ;
}

/// Reads a value of type `T` for the entry point of byte order
/// `endianness`.
pub fn parse_as<I: InputSlice, T: Parse<I>>(i: I, endianness: ParserEndianness) -> (r: Result<
    (I, T),
    DecodeError,
>)
    ensures
        parsed_view(r) == T::parse_spec(
            i.bytes(),
            match endianness {
                ParserEndianness::BigEndian => ParserEndianness::BigEndian,
                ParserEndianness::LittleEndian => ParserEndianness::LittleEndian,
                _ => ParserEndianness::Unspecified,
            },
        ),
{
    match endianness {
        ParserEndianness::BigEndian => T::parse_be(i),
        ParserEndianness::LittleEndian => T::parse_le(i),
        _ => T::parse(i),
    }
}

/// The unsigned number of `width` bytes at the start of `input`, little
/// endian where the entry point is, else big endian; or a lack of input
/// that asks for `width` bytes, however many of them are there.
pub open spec fn unsigned_spec(input: Seq<u8>, width: nat, endianness: ParserEndianness) -> Parsed<
    nat,
> {
    if width <= input.len() {
        Ok(
            (
                input.skip(width as int),
                if endianness == ParserEndianness::LittleEndian {
                    le_value(input.take(width as int))
                } else {
                    be_value(input.take(width as int))
                },
            ),
        )
    } else {
        Err(DecodeError::Incomplete(width as usize))
    }
}

/// The signed number of `width` bytes at the start of `input`.
pub open spec fn signed_spec(input: Seq<u8>, width: nat, endianness: ParserEndianness) -> Parsed<
    int,
> {
    match unsigned_spec(input, width, endianness) {
        Ok((rest, n)) => Ok((rest, signed_value(n, width))),
        Err(e) => Err(e),
    }
}

/// Reads the unsigned number of `width` bytes at the start of `i`.
fn read_unsigned<I: InputSlice>(i: I, width: usize, endianness: ParserEndianness) -> (r: Result<
    (I, u128),
    DecodeError,
>)
    requires
        width == 1 || width == 2 || width == 4 || width == 8 || width == 16,
    ensures
        match r {
            Ok((rest, n)) => unsigned_spec(i.bytes(), width as nat, endianness) == Ok::<
                (Seq<u8>, nat),
                DecodeError,
            >((rest.bytes(), n as nat)) && n < pow256(width as nat),
            Err(e) => unsigned_spec(i.bytes(), width as nat, endianness) == Err::<
                (Seq<u8>, nat),
                DecodeError,
            >(e),
        },
{
    if i.input_len() < width {
        return Err(DecodeError::Incomplete(width));
    }
    let bytes = i.as_bytes();
    proof {
        assert(bytes@.subrange(0, width as int) =~= i.bytes().take(width as int));
        lemma_be_value_bound(i.bytes().take(width as int));
        lemma_le_value_bound(i.bytes().take(width as int));
    }
    let n = match endianness {
        ParserEndianness::LittleEndian => le_number(bytes, 0, width),
        _ => be_number(bytes, 0, width),
    };
    let (rest, _) = i.take_split(width);
    Ok((rest, n))
}

/// Reads the signed number of `width` bytes at the start of `i`.
fn read_signed<I: InputSlice>(i: I, width: usize, endianness: ParserEndianness) -> (r: Result<
    (I, i128),
    DecodeError,
>)
    requires
        width == 1 || width == 2 || width == 4 || width == 8 || width == 16,
    ensures
        match r {
            Ok((rest, n)) => signed_spec(i.bytes(), width as nat, endianness) == Ok::<
                (Seq<u8>, int),
                DecodeError,
            >((rest.bytes(), n as int)) && -pow256(width as nat) <= 2 * n < pow256(width as nat),
            Err(e) => signed_spec(i.bytes(), width as nat, endianness) == Err::<
                (Seq<u8>, int),
                DecodeError,
            >(e),
        },
{
    match read_unsigned(i, width, endianness) {
        Ok((rest, n)) => Ok((rest, to_signed(n, width))),
        Err(e) => Err(e),
    }
}

impl<I: InputSlice> Parse<I> for u8 {
    open spec fn parse_spec(input: Seq<u8>, endianness: ParserEndianness) -> Parsed<u8> {
        match unsigned_spec(input, 1, endianness) {
            Ok((rest, n)) => Ok((rest, n as u8)),
            Err(e) => Err(e),
        }
    }

    fn parse(i: I) -> (r: Result<(I, Self), DecodeError>) {
        Self::parse_be(i)
    }

    fn parse_be(i: I) -> (r: Result<(I, Self), DecodeError>) {
        proof {
            lemma_pow256_values();
        }
        match read_unsigned(i, 1, ParserEndianness::BigEndian) {
            Ok((rest, n)) => Ok((rest, n as u8)),
            Err(e) => Err(e),
        }
    }

    fn parse_le(i: I) -> (r: Result<(I, Self), DecodeError>) {
        proof {
            lemma_pow256_values();
        }
        match read_unsigned(i, 1, ParserEndianness::LittleEndian) {
            Ok((rest, n)) => Ok((rest, n as u8)),
            Err(e) => Err(e),
        }
    }
}

impl<I: InputSlice> Parse<I> for u16 {
    open spec fn parse_spec(input: Seq<u8>, endianness: ParserEndianness) -> Parsed<u16> {
        match unsigned_spec(input, 2, endianness) {
            Ok((rest, n)) => Ok((rest, n as u16)),
            Err(e) => Err(e),
        }
    }

    fn parse(i: I) -> (r: Result<(I, Self), DecodeError>) {
        Self::parse_be(i)
    }

    fn parse_be(i: I) -> (r: Result<(I, Self), DecodeError>) {
        proof {
            lemma_pow256_values();
        }
        match read_unsigned(i, 2, ParserEndianness::BigEndian) {
            Ok((rest, n)) => Ok((rest, n as u16)),
            Err(e) => Err(e),
        }
    }

    fn parse_le(i: I) -> (r: Result<(I, Self), DecodeError>) {
        proof {
            lemma_pow256_values();
        }
        match read_unsigned(i, 2, ParserEndianness::LittleEndian) {
            Ok((rest, n)) => Ok((rest, n as u16)),
            Err(e) => Err(e),
        }
    }
}

impl<I: InputSlice> Parse<I> for u32 {
    open spec fn parse_spec(input: Seq<u8>, endianness: ParserEndianness) -> Parsed<u32> {
        match unsigned_spec(input, 4, endianness) {
            Ok((rest, n)) => Ok((rest, n as u32)),
            Err(e) => Err(e),
        }
    }

    fn parse(i: I) -> (r: Result<(I, Self), DecodeError>) {
        Self::parse_be(i)
    }

    fn parse_be(i: I) -> (r: Result<(I, Self), DecodeError>) {
        proof {
            lemma_pow256_values();
        }
        match read_unsigned(i, 4, ParserEndianness::BigEndian) {
            Ok((rest, n)) => Ok((rest, n as u32)),
            Err(e) => Err(e),
        }
    }

    fn parse_le(i: I) -> (r: Result<(I, Self), DecodeError>) {
        proof {
            lemma_pow256_values();
        }
        match read_unsigned(i, 4, ParserEndianness::LittleEndian) {
            Ok((rest, n)) => Ok((rest, n as u32)),
            Err(e) => Err(e),
        }
    }
}

impl<I: InputSlice> Parse<I> for u64 {
    open spec fn parse_spec(input: Seq<u8>, endianness: ParserEndianness) -> Parsed<u64> {
        match unsigned_spec(input, 8, endianness) {
            Ok((rest, n)) => Ok((rest, n as u64)),
            Err(e) => Err(e),
        }
    }

    fn parse(i: I) -> (r: Result<(I, Self), DecodeError>) {
        Self::parse_be(i)
    }

    fn parse_be(i: I) -> (r: Result<(I, Self), DecodeError>) {
        proof {
            lemma_pow256_values();
        }
        match read_unsigned(i, 8, ParserEndianness::BigEndian) {
            Ok((rest, n)) => Ok((rest, n as u64)),
            Err(e) => Err(e),
        }
    }

    fn parse_le(i: I) -> (r: Result<(I, Self), DecodeError>) {
        proof {
            lemma_pow256_values();
        }
        match read_unsigned(i, 8, ParserEndianness::LittleEndian) {
            Ok((rest, n)) => Ok((rest, n as u64)),
            Err(e) => Err(e),
        }
    }
}

impl<I: InputSlice> Parse<I> for u128 {
    open spec fn parse_spec(input: Seq<u8>, endianness: ParserEndianness) -> Parsed<u128> {
        match unsigned_spec(input, 16, endianness) {
            Ok((rest, n)) => Ok((rest, n as u128)),
            Err(e) => Err(e),
        }
    }

    fn parse(i: I) -> (r: Result<(I, Self), DecodeError>) {
        Self::parse_be(i)
    }

    fn parse_be(i: I) -> (r: Result<(I, Self), DecodeError>) {
        proof {
            lemma_pow256_values();
        }
        match read_unsigned(i, 16, ParserEndianness::BigEndian) {
            Ok((rest, n)) => Ok((rest, n as u128)),
            Err(e) => Err(e),
        }
    }

    fn parse_le(i: I) -> (r: Result<(I, Self), DecodeError>) {
        proof {
            lemma_pow256_values();
        }
        match read_unsigned(i, 16, ParserEndianness::LittleEndian) {
            Ok((rest, n)) => Ok((rest, n as u128)),
            Err(e) => Err(e),
        }
    }
}

impl<I: InputSlice> Parse<I> for i8 {
    open spec fn parse_spec(input: Seq<u8>, endianness: ParserEndianness) -> Parsed<i8> {
        match signed_spec(input, 1, endianness) {
            Ok((rest, n)) => Ok((rest, n as i8)),
            Err(e) => Err(e),
        }
    }

    fn parse(i: I) -> (r: Result<(I, Self), DecodeError>) {
        Self::parse_be(i)
    }

    fn parse_be(i: I) -> (r: Result<(I, Self), DecodeError>) {
        proof {
            lemma_pow256_values();
        }
        match read_signed(i, 1, ParserEndianness::BigEndian) {
            Ok((rest, n)) => Ok((rest, n as i8)),
            Err(e) => Err(e),
        }
    }

    fn parse_le(i: I) -> (r: Result<(I, Self), DecodeError>) {
        proof {
            lemma_pow256_values();
        }
        match read_signed(i, 1, ParserEndianness::LittleEndian) {
            Ok((rest, n)) => Ok((rest, n as i8)),
            Err(e) => Err(e),
        }
    }
}

impl<I: InputSlice> Parse<I> for i16 {
    open spec fn parse_spec(input: Seq<u8>, endianness: ParserEndianness) -> Parsed<i16> {
        match signed_spec(input, 2, endianness) {
            Ok((rest, n)) => Ok((rest, n as i16)),
            Err(e) => Err(e),
        }
    }

    fn parse(i: I) -> (r: Result<(I, Self), DecodeError>) {
        Self::parse_be(i)
    }

    fn parse_be(i: I) -> (r: Result<(I, Self), DecodeError>) {
        proof {
            lemma_pow256_values();
        }
        match read_signed(i, 2, ParserEndianness::BigEndian) {
            Ok((rest, n)) => Ok((rest, n as i16)),
            Err(e) => Err(e),
        }
    }

    fn parse_le(i: I) -> (r: Result<(I, Self), DecodeError>) {
        proof {
            lemma_pow256_values();
        }
        match read_signed(i, 2, ParserEndianness::LittleEndian) {
            Ok((rest, n)) => Ok((rest, n as i16)),
            Err(e) => Err(e),
        }
    }
}

impl<I: InputSlice> Parse<I> for i32 {
    open spec fn parse_spec(input: Seq<u8>, endianness: ParserEndianness) -> Parsed<i32> {
        match signed_spec(input, 4, endianness) {
            Ok((rest, n)) => Ok((rest, n as i32)),
            Err(e) => Err(e),
        }
    }

    fn parse(i: I) -> (r: Result<(I, Self), DecodeError>) {
        Self::parse_be(i)
    }

    fn parse_be(i: I) -> (r: Result<(I, Self), DecodeError>) {
        proof {
            lemma_pow256_values();
        }
        match read_signed(i, 4, ParserEndianness::BigEndian) {
            Ok((rest, n)) => Ok((rest, n as i32)),
            Err(e) => Err(e),
        }
    }

    fn parse_le(i: I) -> (r: Result<(I, Self), DecodeError>) {
        proof {
            lemma_pow256_values();
        }
        match read_signed(i, 4, ParserEndianness::LittleEndian) {
            Ok((rest, n)) => Ok((rest, n as i32)),
            Err(e) => Err(e),
        }
    }
}

impl<I: InputSlice> Parse<I> for i64 {
    open spec fn parse_spec(input: Seq<u8>, endianness: ParserEndianness) -> Parsed<i64> {
        match signed_spec(input, 8, endianness) {
            Ok((rest, n)) => Ok((rest, n as i64)),
            Err(e) => Err(e),
        }
    }

    fn parse(i: I) -> (r: Result<(I, Self), DecodeError>) {
        Self::parse_be(i)
    }

    fn parse_be(i: I) -> (r: Result<(I, Self), DecodeError>) {
        proof {
            lemma_pow256_values();
        }
        match read_signed(i, 8, ParserEndianness::BigEndian) {
            Ok((rest, n)) => Ok((rest, n as i64)),
            Err(e) => Err(e),
        }
    }

    fn parse_le(i: I) -> (r: Result<(I, Self), DecodeError>) {
        proof {
            lemma_pow256_values();
        }
        match read_signed(i, 8, ParserEndianness::LittleEndian) {
            Ok((rest, n)) => Ok((rest, n as i64)),
            Err(e) => Err(e),
        }
    }
}

impl<I: InputSlice> Parse<I> for i128 {
    open spec fn parse_spec(input: Seq<u8>, endianness: ParserEndianness) -> Parsed<i128> {
        match signed_spec(input, 16, endianness) {
            Ok((rest, n)) => Ok((rest, n as i128)),
            Err(e) => Err(e),
        }
    }

    fn parse(i: I) -> (r: Result<(I, Self), DecodeError>) {
        Self::parse_be(i)
    }

    fn parse_be(i: I) -> (r: Result<(I, Self), DecodeError>) {
        proof {
            lemma_pow256_values();
        }
        match read_signed(i, 16, ParserEndianness::BigEndian) {
            Ok((rest, n)) => Ok((rest, n as i128)),
            Err(e) => Err(e),
        }
    }

    fn parse_le(i: I) -> (r: Result<(I, Self), DecodeError>) {
        proof {
            lemma_pow256_values();
        }
        match read_signed(i, 16, ParserEndianness::LittleEndian) {
            Ok((rest, n)) => Ok((rest, n as i128)),
            Err(e) => Err(e),
        }
    }
}

/// A step that must be complete: a lack of input becomes an error.
pub open spec fn complete_spec<V>(r: Parsed<V>) -> Parsed<V> {
    match r {
        Err(DecodeError::Incomplete(_)) => Err(DecodeError::Error(DecodeErrorKind::Complete, 0)),
        other => other,
    }
}

fn complete<I: InputSlice, T: DeepView>(r: Result<(I, T), DecodeError>) -> (c: Result<
    (I, T),
    DecodeError,
>)
    ensures
        parsed_view(c) == complete_spec(parsed_view(r)),
        r is Ok ==> c == r,
{
    match r {
        Err(DecodeError::Incomplete(_)) => Err(DecodeError::Error(DecodeErrorKind::Complete, 0)),
        other => other,
    }
}

/// A value that may be absent: the value where it can be read
/// completely, else nothing, with the input untouched.
pub open spec fn optional_spec<V>(input: Seq<u8>, r: Parsed<V>) -> Parsed<Option<V>> {
    match complete_spec(r) {
        Ok((rest, v)) => Ok((rest, Some(v))),
        Err(DecodeError::Error(_, _)) => Ok((input, None)),
        Err(e) => Err(e),
    }
}

fn optional<I: InputSlice, T: Parse<I>>(i: I, endianness: ParserEndianness) -> (r: Result<
    (I, Option<T>),
    DecodeError,
>)
    requires
        endianness != ParserEndianness::SetEndian,
    ensures
        parsed_view(r) == optional_spec(i.bytes(), T::parse_spec(i.bytes(), endianness)),
{
    let keep = i.duplicate();
    match complete(parse_as::<I, T>(i, endianness)) {
        Ok((rest, v)) => Ok((rest, Some(v))),
        Err(DecodeError::Error(_, _)) => Ok((keep, None)),
        Err(e) => Err(e),
    }
}

impl<I: InputSlice, T: Parse<I>> Parse<I> for Option<T> {
    open spec fn parse_spec(input: Seq<u8>, endianness: ParserEndianness) -> Parsed<Option<T::V>> {
        optional_spec(input, T::parse_spec(input, endianness))
    }

    fn parse(i: I) -> (r: Result<(I, Self), DecodeError>) {
        optional(i, ParserEndianness::Unspecified)
    }

    fn parse_be(i: I) -> (r: Result<(I, Self), DecodeError>) {
        optional(i, ParserEndianness::BigEndian)
    }

    fn parse_le(i: I) -> (r: Result<(I, Self), DecodeError>) {
        optional(i, ParserEndianness::LittleEndian)
    }
}

/// The values of type `T` read from `input` on, after those of `acc`,
/// until one cannot be read completely. A value that takes no input is an
/// error.
pub open spec fn many_spec<I: InputSlice, T: Parse<I>>(
    input: Seq<u8>,
    endianness: ParserEndianness,
    acc: Seq<T::V>,
) -> Parsed<Seq<T::V>>
    decreases input.len(),
{
    match complete_spec(T::parse_spec(input, endianness)) {
        Ok((rest, v)) => if rest.len() >= input.len() {
            Err(DecodeError::Error(DecodeErrorKind::Many0, 0))
        } else {
            many_spec::<I, T>(rest, endianness, acc.push(v))
        },
        Err(DecodeError::Error(_, _)) => Ok((input, acc)),
        Err(e) => Err(e),
    }
}

fn many<I: InputSlice, T: Parse<I>>(i: I, endianness: ParserEndianness) -> (r: Result<
    (I, Vec<T>),
    DecodeError,
>)
    requires
        endianness != ParserEndianness::SetEndian,
    ensures
        parsed_view(r) == many_spec::<I, T>(i.bytes(), endianness, Seq::empty()),
{
    let ghost start = i.bytes();
    let mut acc: Vec<T> = Vec::new();
    let mut input = i;
    proof {
        assert(acc.deep_view() =~= Seq::empty());
    }
    loop
        invariant
            endianness != ParserEndianness::SetEndian,
            start == i.bytes(),
            many_spec::<I, T>(start, endianness, Seq::empty()) == many_spec::<I, T>(
                input.bytes(),
                endianness,
                acc.deep_view(),
            ),
        decreases input.bytes().len(),
    {
        let len = input.input_len();
        let keep = input.duplicate();
        match complete(parse_as::<I, T>(input, endianness)) {
            Ok((rest, v)) => {
                if rest.input_len() >= len {
                    return Err(DecodeError::Error(DecodeErrorKind::Many0, 0));
                }
                proof {
                    assert(acc@.push(v).map_values(|x: T| x.deep_view()) =~= acc@.map_values(
                        |x: T| x.deep_view(),
                    ).push(v.deep_view()));
                }
                let ghost before = acc.deep_view();
                acc.push(v);
                proof {
                    assert(acc.deep_view() =~= before.push(v.deep_view()));
                }
                input = rest;
            },
            Err(DecodeError::Error(_, _)) => {
                return Ok((keep, acc));
            },
            Err(e) => {
                return Err(e);
            },
        }
    }
}

impl<I: InputSlice, T: Parse<I>> Parse<I> for Vec<T> {
    open spec fn parse_spec(input: Seq<u8>, endianness: ParserEndianness) -> Parsed<Seq<T::V>> {
        many_spec::<I, T>(input, endianness, Seq::empty())
    }

    fn parse(i: I) -> (r: Result<(I, Self), DecodeError>) {
        many(i, ParserEndianness::Unspecified)
    }

    fn parse_be(i: I) -> (r: Result<(I, Self), DecodeError>) {
        many(i, ParserEndianness::BigEndian)
    }

    fn parse_le(i: I) -> (r: Result<(I, Self), DecodeError>) {
        many(i, ParserEndianness::LittleEndian)
    }
}

/// A pair: the first value, then the second.
pub open spec fn pair_spec<I: InputSlice, A: Parse<I>, B: Parse<I>>(
    input: Seq<u8>,
    endianness: ParserEndianness,
) -> Parsed<(A::V, B::V)> {
    match A::parse_spec(input, endianness) {
        Err(e) => Err(e),
        Ok((rest, a)) => match B::parse_spec(rest, endianness) {
            Err(e) => Err(e),
            Ok((rest, b)) => Ok((rest, (a, b))),
        },
    }
}

fn pair<I: InputSlice, A: Parse<I>, B: Parse<I>>(i: I, endianness: ParserEndianness) -> (r:
    Result<(I, (A, B)), DecodeError>)
    requires
        endianness != ParserEndianness::SetEndian,
    ensures
        parsed_view(r) == pair_spec::<I, A, B>(i.bytes(), endianness),
{
    let (rest, a) = parse_as::<I, A>(i, endianness)?;
    let (rest, b) = parse_as::<I, B>(rest, endianness)?;
    Ok((rest, (a, b)))
}

impl<I: InputSlice, A: Parse<I>, B: Parse<I>> Parse<I> for (A, B) {
    open spec fn parse_spec(input: Seq<u8>, endianness: ParserEndianness) -> Parsed<(A::V, B::V)> {
        pair_spec::<I, A, B>(input, endianness)
    }

    fn parse(i: I) -> (r: Result<(I, Self), DecodeError>) {
        pair(i, ParserEndianness::Unspecified)
    }

    fn parse_be(i: I) -> (r: Result<(I, Self), DecodeError>) {
        pair(i, ParserEndianness::BigEndian)
    }

    fn parse_le(i: I) -> (r: Result<(I, Self), DecodeError>) {
        pair(i, ParserEndianness::LittleEndian)
    }
}

/// The `count` values of type `T` read from `input` on, after those of
/// `acc`, each completely. A value that takes no input is an error.
pub open spec fn exactly_spec<I: InputSlice, T: Parse<I>>(
    input: Seq<u8>,
    endianness: ParserEndianness,
    count: nat,
    acc: Seq<T::V>,
) -> Parsed<Seq<T::V>>
    decreases count,
{
    if count == 0 {
        Ok((input, acc))
    } else {
        match complete_spec(T::parse_spec(input, endianness)) {
            Ok((rest, v)) => if rest.len() == input.len() {
                Err(DecodeError::Error(DecodeErrorKind::ManyMN, 0))
            } else {
                exactly_spec::<I, T>(rest, endianness, (count - 1) as nat, acc.push(v))
            },
            Err(e) => Err(e),
        }
    }
}

/// Calls `<[T; N]>::try_from` on a `Vec<T>`. The result is an array
/// exactly when the vector holds `N` items, and then holds the same items
/// in the same order.
#[verifier::external_body]
fn into_array<T, const N: usize>(v: Vec<T>) -> (r: Option<[T; N]>)
    ensures
        r.is_some() == (v@.len() == N),
        r matches Some(a) ==> a@ == v@,
{
    <[T; N]>::try_from(v).ok()
}

fn exactly<I: InputSlice, T: Parse<I>, const N: usize>(i: I, endianness: ParserEndianness) -> (r:
    Result<(I, [T; N]), DecodeError>)
    requires
        endianness != ParserEndianness::SetEndian,
    ensures
        parsed_view(r) == exactly_spec::<I, T>(i.bytes(), endianness, N as nat, Seq::empty()),
{
    let ghost start = i.bytes();
    let mut acc: Vec<T> = Vec::new();
    let mut input = i;
    let mut left: usize = N;
    proof {
        assert(acc.deep_view() =~= Seq::empty());
    }
    while left > 0
        invariant
            endianness != ParserEndianness::SetEndian,
            start == i.bytes(),
            left <= N,
            acc@.len() == N - left,
            exactly_spec::<I, T>(start, endianness, N as nat, Seq::empty()) == exactly_spec::<
                I,
                T,
            >(input.bytes(), endianness, left as nat, acc.deep_view()),
        decreases left,
    {
        let len = input.input_len();
        match complete(parse_as::<I, T>(input, endianness)) {
            Ok((rest, v)) => {
                if rest.input_len() == len {
                    return Err(DecodeError::Error(DecodeErrorKind::ManyMN, 0));
                }
                let ghost before = acc.deep_view();
                acc.push(v);
                proof {
                    assert(acc.deep_view() =~= before.push(v.deep_view()));
                }
                input = rest;
                left -= 1;
            },
            Err(e) => {
                return Err(e);
            },
        }
    }
    let ghost items = acc.deep_view();
    match into_array::<T, N>(acc) {
        Some(array) => {
            proof {
                assert(array.deep_view() =~= items);
            }
            Ok((input, array))
        },
        None => Err(DecodeError::Error(DecodeErrorKind::ManyMN, 0)),
    }
}

impl<I: InputSlice, T: Parse<I>, const N: usize> Parse<I> for [T; N] {
    open spec fn parse_spec(input: Seq<u8>, endianness: ParserEndianness) -> Parsed<Seq<T::V>> {
        exactly_spec::<I, T>(input, endianness, N as nat, Seq::empty())
    }

    fn parse(i: I) -> (r: Result<(I, Self), DecodeError>) {
        exactly(i, ParserEndianness::Unspecified)
    }

    fn parse_be(i: I) -> (r: Result<(I, Self), DecodeError>) {
        exactly(i, ParserEndianness::BigEndian)
    }

    fn parse_le(i: I) -> (r: Result<(I, Self), DecodeError>) {
        exactly(i, ParserEndianness::LittleEndian)
    }
}

/// Calls `core::str::from_utf8`. The result is a string exactly when the
/// bytes are valid UTF-8, and then holds the characters that they encode.
#[verifier::external_body]
fn str_from_utf8(bytes: &[u8]) -> (r: Option<&str>)
    ensures
        r.is_some() == valid_utf8(bytes@),
        r matches Some(s) ==> s@ == decode_utf8(bytes@),
{
    core::str::from_utf8(bytes).ok()
}

/// A string behind its length: a number of four bytes, big endian in
/// every entry point, then that many bytes of UTF-8. Where fewer bytes
/// are there, the lack of input asks for the whole length.
pub open spec fn string_spec(input: Seq<u8>) -> Parsed<Seq<char>> {
    match unsigned_spec(input, 4, ParserEndianness::Unspecified) {
        Err(e) => Err(e),
        Ok((rest, n)) => if n > rest.len() {
            Err(DecodeError::Incomplete(n as usize))
        } else if valid_utf8(rest.take(n as int)) {
            Ok((rest.skip(n as int), decode_utf8(rest.take(n as int))))
        } else {
            Err(DecodeError::Error(DecodeErrorKind::MapRes, 4))
        },
    }
}

fn string<'a>(i: &'a [u8]) -> (r: Result<(&'a [u8], String), DecodeError>)
    ensures
        parsed_view(r) == string_spec(i@),
{
    proof {
        lemma_pow256_values();
    }
    let (rem, sz) = read_unsigned(i, 4, ParserEndianness::Unspecified)?;
    if sz > rem.len() as u128 {
        return Err(DecodeError::Incomplete(sz as usize));
    }
    let (rem, bytes) = rem.take_split(sz as usize);
    match str_from_utf8(bytes) {
        Some(s) => Ok((rem, s.to_owned())),
        None => Err(DecodeError::Error(DecodeErrorKind::MapRes, 4)),
    }
}

impl<'a> Parse<&'a [u8]> for String {
    open spec fn parse_spec(input: Seq<u8>, endianness: ParserEndianness) -> Parsed<Seq<char>> {
        string_spec(input)
    }

    fn parse(i: &'a [u8]) -> (r: Result<(&'a [u8], Self), DecodeError>) {
        string(i)
    }

    fn parse_be(i: &'a [u8]) -> (r: Result<(&'a [u8], Self), DecodeError>) {
        string(i)
    }

    fn parse_le(i: &'a [u8]) -> (r: Result<(&'a [u8], Self), DecodeError>) {
        string(i)
    }
}

} // verus!
