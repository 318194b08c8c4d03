//! Data that follows its own length.

use vstd::prelude::*;
use core::marker::PhantomData;
use crate::decode::error::DecodeError;
use crate::endian::ParserEndianness;
use crate::traits::{parse_as, parsed_view, InputSlice, Parse, Parsed};

verus! {

/// A number that can be used as a count of bytes.
pub trait ToUsize: Sized + DeepView {
    /// The count that a number stands for.
    spec fn to_usize_spec(v: Self::V) -> usize;

    fn to_usize(&self) -> (r: usize)
        ensures
            r == Self::to_usize_spec(self.deep_view()),
    ;
}

impl ToUsize for u8 {
    open spec fn to_usize_spec(v: u8) -> usize {
        v as usize
    }

    fn to_usize(&self) -> (r: usize) {
        *self as usize
    }
}

impl ToUsize for u16 {
    open spec fn to_usize_spec(v: u16) -> usize {
        v as usize
    }

    fn to_usize(&self) -> (r: usize) {
        *self as usize
    }
}

impl ToUsize for u32 {
    open spec fn to_usize_spec(v: u32) -> usize {
        v as usize
    }

    fn to_usize(&self) -> (r: usize) {
        *self as usize
    }
}

impl ToUsize for u64 {
    /// The count is the number itself where it fits the width of `usize`,
    /// and its low bits else.
    open spec fn to_usize_spec(v: u64) -> usize {
        v as usize
    }

    fn to_usize(&self) -> (r: usize) {
        #[verifier::truncate]
        (*self as usize)
    }
}

impl ToUsize for usize {
    open spec fn to_usize_spec(v: usize) -> usize {
        v
    }

    fn to_usize(&self) -> (r: usize) {
        *self
    }
}

/// Data that stands behind its length: a number of type `L`, then that
/// many bytes.
#[derive(Debug, PartialEq)]
pub struct LengthData<L, D> {
    pub l: PhantomData<L>,
    pub data: D,
}

impl<L, D> LengthData<L, D> {
    pub fn new(data: D) -> (r: Self)
        ensures
            r.data == data,
    {
        let l = PhantomData;
        LengthData { l, data }
    }
}

impl<L, D: InputSlice> DeepView for LengthData<L, D> {
    type V = Seq<u8>;

    open spec fn deep_view(&self) -> Seq<u8> {
        self.data.bytes()
    }
}

/// What reading data behind its length gives: the input after the data
/// and the data, or a lack of input that asks for as many bytes as the
/// length says.
pub open spec fn length_data_spec<I: InputSlice, L: Parse<I> + ToUsize>(
    input: Seq<u8>,
    endianness: ParserEndianness,
) -> Parsed<Seq<u8>> {
    match L::parse_spec(input, endianness) {
        Err(e) => Err(e),
        Ok((rest, length)) => {
            let count = L::to_usize_spec(length);
            if count <= rest.len() {
                Ok((rest.skip(count as int), rest.take(count as int)))
            } else {
                Err(DecodeError::Incomplete(count))
            }
        },
    }
}

fn length_data<I: InputSlice, L: Parse<I> + ToUsize>(i: I, endianness: ParserEndianness) -> (r:
    Result<(I, LengthData<L, I>), DecodeError>)
    requires
        endianness != ParserEndianness::SetEndian,
    ensures
        parsed_view(r) == length_data_spec::<I, L>(i.bytes(), endianness),
{
    let (rem, length) = parse_as::<I, L>(i, endianness)?;
    let count = length.to_usize();
    if count > rem.input_len() {
        return Err(DecodeError::Incomplete(count));
    }
    let (rem, data) = rem.take_split(count);
    Ok((rem, LengthData::new(data)))
}

impl<L: Parse<I> + ToUsize, I: InputSlice> Parse<I> for LengthData<L, I> {
    open spec fn parse_spec(input: Seq<u8>, endianness: ParserEndianness) -> Parsed<Seq<u8>> {
        length_data_spec::<I, L>(input, endianness)
    }

    fn parse(i: I) -> (r: Result<(I, Self), DecodeError>) {
        length_data(i, ParserEndianness::Unspecified)
    }

    fn parse_be(i: I) -> (r: Result<(I, Self), DecodeError>) {
        length_data(i, ParserEndianness::BigEndian)
    }

    fn parse_le(i: I) -> (r: Result<(I, Self), DecodeError>) {
        length_data(i, ParserEndianness::LittleEndian)
    }
}

/// Bytes behind their length in one byte.
pub type LengthDataU8<'a> = LengthData<u8, &'a [u8]>;

/// Bytes behind their length in two bytes.
pub type LengthDataU16<'a> = LengthData<u16, &'a [u8]>;

/// Bytes behind their length in four bytes.
pub type LengthDataU32<'a> = LengthData<u32, &'a [u8]>;

/// Bytes behind their length in eight bytes.
pub type LengthDataU64<'a> = LengthData<u64, &'a [u8]>;

} // verus!
