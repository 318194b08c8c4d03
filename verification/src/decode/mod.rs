//! The decoding procedures, run on bytes.
//!
//! A plan holds arguments written in the host language: conditions, counts,
//! functions, parsers written by hand. The decoder does not read them. It
//! asks the host for the value of each one when it reaches it, and goes on
//! with the answer.
//!
//! The run is the library's own reading of a plan. The code that the
//! generators write for the same plan is run by the host, and nothing here
//! proves that the two agree. They are known to part in two places: a lack
//! of input carries, in a run, the whole count of bytes that the step asked
//! for, where the parsers named in the code may give the number that is
//! still missing; and an alignment of zero is an error of a run, where the
//! code divides by it.

pub mod enums;
pub mod error;
pub mod expr;
pub mod host;
pub mod number;
pub mod record;
pub mod value;
