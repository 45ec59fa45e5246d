//! Marker types for the names that the accessors of this library use, and
//! the names themselves.

use crate::path::TStr;
use vstd::prelude::*;

verus! {

/// Stands for `0`, the first position of a tuple or an array.
pub struct Index0;

/// Stands for `1`.
pub struct Index1;

/// Stands for `2`.
pub struct Index2;

/// Stands for `3`.
pub struct Index3;

/// Stands for `4`.
pub struct Index4;

/// Stands for `5`.
pub struct Index5;

/// Stands for `6`.
pub struct Index6;

/// Stands for `7`.
pub struct Index7;

/// Stands for `start`.
pub struct Start;

/// Stands for `end`.
pub struct End;

/// Stands for `Some`.
pub struct SomeVariant;

/// Stands for `None`.
pub struct NoneVariant;

/// Stands for `Ok`.
pub struct OkVariant;

/// Stands for `Err`.
pub struct ErrVariant;

/// The name `0`.
pub type I0 = TStr<Index0>;

/// The name `1`.
pub type I1 = TStr<Index1>;

/// The name `2`.
pub type I2 = TStr<Index2>;

/// The name `3`.
pub type I3 = TStr<Index3>;

/// The name `4`.
pub type I4 = TStr<Index4>;

/// The name `5`.
pub type I5 = TStr<Index5>;

/// The name `6`.
pub type I6 = TStr<Index6>;

/// The name `7`.
pub type I7 = TStr<Index7>;

/// The name `start`.
pub type StartStr = TStr<Start>;

/// The name `end`.
pub type EndStr = TStr<End>;

/// The name `Some`.
pub type SomeStr = TStr<SomeVariant>;

/// The name `None`.
pub type NoneStr = TStr<NoneVariant>;

/// The name `Ok`.
pub type OkStr = TStr<OkVariant>;

/// The name `Err`.
pub type ErrStr = TStr<ErrVariant>;

} // verus!
