//! Compiles declarative descriptions of binary records into decoding
//! procedures.
//!
//! A record is described by its fields, their declared types and the `nom`
//! attributes attached to them. The crate validates the attributes, resolves
//! the byte order of every field, infers a parser expression for each field
//! and assembles the expressions into the decoding functions `parse`,
//! `parse_be` and `parse_le` of the record. The functions can be written out
//! as code of the host language, or run on bytes.

pub mod config;
pub mod decode;
pub mod endian;
pub mod enums;
pub mod gen;
pub mod helpers;
pub mod meta;
pub mod parsertree;
pub mod structs;
pub mod text;
pub mod traits;
pub mod types;

pub use crate::helpers::{
    LengthData, LengthDataU16, LengthDataU32, LengthDataU64, LengthDataU8, ToUsize,
};
pub use crate::traits::{InputSlice, Parse};

use vstd::prelude::*;
use crate::endian::ParserEndianness;
use crate::gen::{gen_impl, gen_impl_spec, DeriveInput};
use crate::meta::error::{MetaError, MetaErrorView};

verus! {

/// Generates the decoding functions of a declaration that leaves the byte
/// order to its attributes.
pub fn nom(input: &DeriveInput) -> (r: Result<String, MetaError>)
    ensures
        match r {
            Ok(s) => gen_impl_spec(*input, ParserEndianness::Unspecified) == Ok::<
                Seq<char>,
                MetaErrorView,
            >(s@),
            Err(e) => gen_impl_spec(*input, ParserEndianness::Unspecified) == Err::<
                Seq<char>,
                MetaErrorView,
            >(e@),
        },
{
    gen_impl(input, ParserEndianness::Unspecified)
}

/// Generates the decoding functions of a declaration whose byte order is
/// big endian, where its attributes do not say otherwise.
pub fn nom_be(input: &DeriveInput) -> (r: Result<String, MetaError>)
    ensures
        match r {
            Ok(s) => gen_impl_spec(*input, ParserEndianness::BigEndian) == Ok::<
                Seq<char>,
                MetaErrorView,
            >(s@),
            Err(e) => gen_impl_spec(*input, ParserEndianness::BigEndian) == Err::<
                Seq<char>,
                MetaErrorView,
            >(e@),
        },
{
    gen_impl(input, ParserEndianness::BigEndian)
}

/// Generates the decoding functions of a declaration whose byte order is
/// little endian, where its attributes do not say otherwise.
pub fn nom_le(input: &DeriveInput) -> (r: Result<String, MetaError>)
    ensures
        match r {
            Ok(s) => gen_impl_spec(*input, ParserEndianness::LittleEndian) == Ok::<
                Seq<char>,
                MetaErrorView,
            >(s@),
            Err(e) => gen_impl_spec(*input, ParserEndianness::LittleEndian) == Err::<
                Seq<char>,
                MetaErrorView,
            >(e@),
        },
{
    gen_impl(input, ParserEndianness::LittleEndian)
}

} // verus!
