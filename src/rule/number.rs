use vstd::prelude::*;
use vstd::string::*;

use crate::refined::Refined;
use crate::result::Error;
use crate::rule::composer::Or;
use crate::rule::Rule;

verus! {

// Bounds are const generics, which are unsigned here: the rules of a signed
// kind take the bound as an unsigned number of the same width, so they cover
// every bound from zero up.
/// Accepts the `u8` values below `THAN`.
pub struct LessRuleU8<const THAN: u8>;

/// A `u8` below `THAN`.
pub type LessU8<const THAN: u8> = Refined<LessRuleU8<THAN>>;

impl<const THAN: u8> Rule for LessRuleU8<THAN> {
    type Item = u8;

    open spec fn accepts(item: u8) -> bool {
        item < THAN
    }

    open spec fn rejection_reasons(item: u8) -> Seq<Seq<char>> {
        seq!["the value is not less than the bound"@]
    }

    fn validate(target: u8) -> (r: Result<u8, Error<u8>>) {
        if target < THAN {
            Ok(target)
        } else {
            Err(Error::new(target, String::from_str("the value is not less than the bound")))
        }
    }
}

/// Accepts the `u8` value equal to `N`.
pub struct EqualRuleU8<const N: u8>;

/// The `u8` equal to `N`.
pub type EqualU8<const N: u8> = Refined<EqualRuleU8<N>>;

impl<const N: u8> Rule for EqualRuleU8<N> {
    type Item = u8;

    open spec fn accepts(item: u8) -> bool {
        item == N
    }

    open spec fn rejection_reasons(item: u8) -> Seq<Seq<char>> {
        seq!["the value is not equal to the bound"@]
    }

    fn validate(target: u8) -> (r: Result<u8, Error<u8>>) {
        if target == N {
            Ok(target)
        } else {
            Err(Error::new(target, String::from_str("the value is not equal to the bound")))
        }
    }
}

/// Accepts the `u8` values up to `N`: equal to it, or else below it.
pub type LessEqualRuleU8<const N: u8> = Or<EqualRuleU8<N>, LessRuleU8<N>>;

/// A `u8` at most `N`.
pub type LessEqualU8<const N: u8> = Refined<LessEqualRuleU8<N>>;

/// The bound itself and the value below it pass `LessEqualRuleU8`; the
/// value above it does not.
pub proof fn lemma_less_equal_boundary_u8<const N: u8>()
    ensures
        forall|x: u8| <LessEqualRuleU8<N> as Rule>::accepts(x) <==> (x as int) <= (N as int),
        (N as int) <= u8::MAX ==> <LessEqualRuleU8<N> as Rule>::accepts(N as u8),
        (N as int) < u8::MAX ==> !<LessEqualRuleU8<N> as Rule>::accepts((N + 1) as u8),
        0 < N && (N as int) <= u8::MAX + 1 ==> <LessEqualRuleU8<N> as Rule>::accepts((N - 1) as u8),
{
}

/// Accepts the `u16` values below `THAN`.
pub struct LessRuleU16<const THAN: u16>;

/// A `u16` below `THAN`.
pub type LessU16<const THAN: u16> = Refined<LessRuleU16<THAN>>;

impl<const THAN: u16> Rule for LessRuleU16<THAN> {
    type Item = u16;

    open spec fn accepts(item: u16) -> bool {
        item < THAN
    }

    open spec fn rejection_reasons(item: u16) -> Seq<Seq<char>> {
        seq!["the value is not less than the bound"@]
    }

    fn validate(target: u16) -> (r: Result<u16, Error<u16>>) {
        if target < THAN {
            Ok(target)
        } else {
            Err(Error::new(target, String::from_str("the value is not less than the bound")))
        }
    }
}

/// Accepts the `u16` value equal to `N`.
pub struct EqualRuleU16<const N: u16>;

/// The `u16` equal to `N`.
pub type EqualU16<const N: u16> = Refined<EqualRuleU16<N>>;

impl<const N: u16> Rule for EqualRuleU16<N> {
    type Item = u16;

    open spec fn accepts(item: u16) -> bool {
        item == N
    }

    open spec fn rejection_reasons(item: u16) -> Seq<Seq<char>> {
        seq!["the value is not equal to the bound"@]
    }

    fn validate(target: u16) -> (r: Result<u16, Error<u16>>) {
        if target == N {
            Ok(target)
        } else {
            Err(Error::new(target, String::from_str("the value is not equal to the bound")))
        }
    }
}

/// Accepts the `u16` values up to `N`: equal to it, or else below it.
pub type LessEqualRuleU16<const N: u16> = Or<EqualRuleU16<N>, LessRuleU16<N>>;

/// A `u16` at most `N`.
pub type LessEqualU16<const N: u16> = Refined<LessEqualRuleU16<N>>;

/// The bound itself and the value below it pass `LessEqualRuleU16`; the
/// value above it does not.
pub proof fn lemma_less_equal_boundary_u16<const N: u16>()
    ensures
        forall|x: u16| <LessEqualRuleU16<N> as Rule>::accepts(x) <==> (x as int) <= (N as int),
        (N as int) <= u16::MAX ==> <LessEqualRuleU16<N> as Rule>::accepts(N as u16),
        (N as int) < u16::MAX ==> !<LessEqualRuleU16<N> as Rule>::accepts((N + 1) as u16),
        0 < N && (N as int) <= u16::MAX + 1 ==> <LessEqualRuleU16<N> as Rule>::accepts((N - 1) as u16),
{
}

/// Accepts the `u32` values below `THAN`.
pub struct LessRuleU32<const THAN: u32>;

/// A `u32` below `THAN`.
pub type LessU32<const THAN: u32> = Refined<LessRuleU32<THAN>>;

impl<const THAN: u32> Rule for LessRuleU32<THAN> {
    type Item = u32;

    open spec fn accepts(item: u32) -> bool {
        item < THAN
    }

    open spec fn rejection_reasons(item: u32) -> Seq<Seq<char>> {
        seq!["the value is not less than the bound"@]
    }

    fn validate(target: u32) -> (r: Result<u32, Error<u32>>) {
        if target < THAN {
            Ok(target)
        } else {
            Err(Error::new(target, String::from_str("the value is not less than the bound")))
        }
    }
}

/// Accepts the `u32` value equal to `N`.
pub struct EqualRuleU32<const N: u32>;

/// The `u32` equal to `N`.
pub type EqualU32<const N: u32> = Refined<EqualRuleU32<N>>;

impl<const N: u32> Rule for EqualRuleU32<N> {
    type Item = u32;

    open spec fn accepts(item: u32) -> bool {
        item == N
    }

    open spec fn rejection_reasons(item: u32) -> Seq<Seq<char>> {
        seq!["the value is not equal to the bound"@]
    }

    fn validate(target: u32) -> (r: Result<u32, Error<u32>>) {
        if target == N {
            Ok(target)
        } else {
            Err(Error::new(target, String::from_str("the value is not equal to the bound")))
        }
    }
}

/// Accepts the `u32` values up to `N`: equal to it, or else below it.
pub type LessEqualRuleU32<const N: u32> = Or<EqualRuleU32<N>, LessRuleU32<N>>;

/// A `u32` at most `N`.
pub type LessEqualU32<const N: u32> = Refined<LessEqualRuleU32<N>>;

/// The bound itself and the value below it pass `LessEqualRuleU32`; the
/// value above it does not.
pub proof fn lemma_less_equal_boundary_u32<const N: u32>()
    ensures
        forall|x: u32| <LessEqualRuleU32<N> as Rule>::accepts(x) <==> (x as int) <= (N as int),
        (N as int) <= u32::MAX ==> <LessEqualRuleU32<N> as Rule>::accepts(N as u32),
        (N as int) < u32::MAX ==> !<LessEqualRuleU32<N> as Rule>::accepts((N + 1) as u32),
        0 < N && (N as int) <= u32::MAX + 1 ==> <LessEqualRuleU32<N> as Rule>::accepts((N - 1) as u32),
{
}

/// Accepts the `u64` values below `THAN`.
pub struct LessRuleU64<const THAN: u64>;

/// A `u64` below `THAN`.
pub type LessU64<const THAN: u64> = Refined<LessRuleU64<THAN>>;

impl<const THAN: u64> Rule for LessRuleU64<THAN> {
    type Item = u64;

    open spec fn accepts(item: u64) -> bool {
        item < THAN
    }

    open spec fn rejection_reasons(item: u64) -> Seq<Seq<char>> {
        seq!["the value is not less than the bound"@]
    }

    fn validate(target: u64) -> (r: Result<u64, Error<u64>>) {
        if target < THAN {
            Ok(target)
        } else {
            Err(Error::new(target, String::from_str("the value is not less than the bound")))
        }
    }
}

/// Accepts the `u64` value equal to `N`.
pub struct EqualRuleU64<const N: u64>;

/// The `u64` equal to `N`.
pub type EqualU64<const N: u64> = Refined<EqualRuleU64<N>>;

impl<const N: u64> Rule for EqualRuleU64<N> {
    type Item = u64;

    open spec fn accepts(item: u64) -> bool {
        item == N
    }

    open spec fn rejection_reasons(item: u64) -> Seq<Seq<char>> {
        seq!["the value is not equal to the bound"@]
    }

    fn validate(target: u64) -> (r: Result<u64, Error<u64>>) {
        if target == N {
            Ok(target)
        } else {
            Err(Error::new(target, String::from_str("the value is not equal to the bound")))
        }
    }
}

/// Accepts the `u64` values up to `N`: equal to it, or else below it.
pub type LessEqualRuleU64<const N: u64> = Or<EqualRuleU64<N>, LessRuleU64<N>>;

/// A `u64` at most `N`.
pub type LessEqualU64<const N: u64> = Refined<LessEqualRuleU64<N>>;

/// The bound itself and the value below it pass `LessEqualRuleU64`; the
/// value above it does not.
pub proof fn lemma_less_equal_boundary_u64<const N: u64>()
    ensures
        forall|x: u64| <LessEqualRuleU64<N> as Rule>::accepts(x) <==> (x as int) <= (N as int),
        (N as int) <= u64::MAX ==> <LessEqualRuleU64<N> as Rule>::accepts(N as u64),
        (N as int) < u64::MAX ==> !<LessEqualRuleU64<N> as Rule>::accepts((N + 1) as u64),
        0 < N && (N as int) <= u64::MAX + 1 ==> <LessEqualRuleU64<N> as Rule>::accepts((N - 1) as u64),
{
}

/// Accepts the `u128` values below `THAN`.
pub struct LessRuleU128<const THAN: u128>;

/// A `u128` below `THAN`.
pub type LessU128<const THAN: u128> = Refined<LessRuleU128<THAN>>;

impl<const THAN: u128> Rule for LessRuleU128<THAN> {
    type Item = u128;

    open spec fn accepts(item: u128) -> bool {
        item < THAN
    }

    open spec fn rejection_reasons(item: u128) -> Seq<Seq<char>> {
        seq!["the value is not less than the bound"@]
    }

    fn validate(target: u128) -> (r: Result<u128, Error<u128>>) {
        if target < THAN {
            Ok(target)
        } else {
            Err(Error::new(target, String::from_str("the value is not less than the bound")))
        }
    }
}

/// Accepts the `u128` value equal to `N`.
pub struct EqualRuleU128<const N: u128>;

/// The `u128` equal to `N`.
pub type EqualU128<const N: u128> = Refined<EqualRuleU128<N>>;

impl<const N: u128> Rule for EqualRuleU128<N> {
    type Item = u128;

    open spec fn accepts(item: u128) -> bool {
        item == N
    }

    open spec fn rejection_reasons(item: u128) -> Seq<Seq<char>> {
        seq!["the value is not equal to the bound"@]
    }

    fn validate(target: u128) -> (r: Result<u128, Error<u128>>) {
        if target == N {
            Ok(target)
        } else {
            Err(Error::new(target, String::from_str("the value is not equal to the bound")))
        }
    }
}

/// Accepts the `u128` values up to `N`: equal to it, or else below it.
pub type LessEqualRuleU128<const N: u128> = Or<EqualRuleU128<N>, LessRuleU128<N>>;

/// A `u128` at most `N`.
pub type LessEqualU128<const N: u128> = Refined<LessEqualRuleU128<N>>;

/// The bound itself and the value below it pass `LessEqualRuleU128`; the
/// value above it does not.
pub proof fn lemma_less_equal_boundary_u128<const N: u128>()
    ensures
        forall|x: u128| <LessEqualRuleU128<N> as Rule>::accepts(x) <==> (x as int) <= (N as int),
        (N as int) <= u128::MAX ==> <LessEqualRuleU128<N> as Rule>::accepts(N as u128),
        (N as int) < u128::MAX ==> !<LessEqualRuleU128<N> as Rule>::accepts((N + 1) as u128),
        0 < N && (N as int) <= u128::MAX + 1 ==> <LessEqualRuleU128<N> as Rule>::accepts((N - 1) as u128),
{
}

/// Accepts the `usize` values below `THAN`.
pub struct LessRuleUsize<const THAN: usize>;

/// A `usize` below `THAN`.
pub type LessUsize<const THAN: usize> = Refined<LessRuleUsize<THAN>>;

impl<const THAN: usize> Rule for LessRuleUsize<THAN> {
    type Item = usize;

    open spec fn accepts(item: usize) -> bool {
        item < THAN
    }

    open spec fn rejection_reasons(item: usize) -> Seq<Seq<char>> {
        seq!["the value is not less than the bound"@]
    }

    fn validate(target: usize) -> (r: Result<usize, Error<usize>>) {
        if target < THAN {
            Ok(target)
        } else {
            Err(Error::new(target, String::from_str("the value is not less than the bound")))
        }
    }
}

/// Accepts the `usize` value equal to `N`.
pub struct EqualRuleUsize<const N: usize>;

/// The `usize` equal to `N`.
pub type EqualUsize<const N: usize> = Refined<EqualRuleUsize<N>>;

impl<const N: usize> Rule for EqualRuleUsize<N> {
    type Item = usize;

    open spec fn accepts(item: usize) -> bool {
        item == N
    }

    open spec fn rejection_reasons(item: usize) -> Seq<Seq<char>> {
        seq!["the value is not equal to the bound"@]
    }

    fn validate(target: usize) -> (r: Result<usize, Error<usize>>) {
        if target == N {
            Ok(target)
        } else {
            Err(Error::new(target, String::from_str("the value is not equal to the bound")))
        }
    }
}

/// Accepts the `usize` values up to `N`: equal to it, or else below it.
pub type LessEqualRuleUsize<const N: usize> = Or<EqualRuleUsize<N>, LessRuleUsize<N>>;

/// A `usize` at most `N`.
pub type LessEqualUsize<const N: usize> = Refined<LessEqualRuleUsize<N>>;

/// The bound itself and the value below it pass `LessEqualRuleUsize`; the
/// value above it does not.
pub proof fn lemma_less_equal_boundary_usize<const N: usize>()
    ensures
        forall|x: usize| <LessEqualRuleUsize<N> as Rule>::accepts(x) <==> (x as int) <= (N as int),
        (N as int) <= usize::MAX ==> <LessEqualRuleUsize<N> as Rule>::accepts(N as usize),
        (N as int) < usize::MAX ==> !<LessEqualRuleUsize<N> as Rule>::accepts((N + 1) as usize),
        0 < N && (N as int) <= usize::MAX + 1 ==> <LessEqualRuleUsize<N> as Rule>::accepts((N - 1) as usize),
{
}

/// Accepts the `i8` values below `THAN`.
pub struct LessRuleI8<const THAN: u8>;

/// A `i8` below `THAN`.
pub type LessI8<const THAN: u8> = Refined<LessRuleI8<THAN>>;

impl<const THAN: u8> Rule for LessRuleI8<THAN> {
    type Item = i8;

    open spec fn accepts(item: i8) -> bool {
        (item as int) < (THAN as int)
    }

    open spec fn rejection_reasons(item: i8) -> Seq<Seq<char>> {
        seq!["the value is not less than the bound"@]
    }

    fn validate(target: i8) -> (r: Result<i8, Error<i8>>) {
        if target < 0 || (target as u8) < THAN {
            Ok(target)
        } else {
            Err(Error::new(target, String::from_str("the value is not less than the bound")))
        }
    }
}

/// Accepts the `i8` value equal to `N`.
pub struct EqualRuleI8<const N: u8>;

/// The `i8` equal to `N`.
pub type EqualI8<const N: u8> = Refined<EqualRuleI8<N>>;

impl<const N: u8> Rule for EqualRuleI8<N> {
    type Item = i8;

    open spec fn accepts(item: i8) -> bool {
        (item as int) == (N as int)
    }

    open spec fn rejection_reasons(item: i8) -> Seq<Seq<char>> {
        seq!["the value is not equal to the bound"@]
    }

    fn validate(target: i8) -> (r: Result<i8, Error<i8>>) {
        if target >= 0 && (target as u8) == N {
            Ok(target)
        } else {
            Err(Error::new(target, String::from_str("the value is not equal to the bound")))
        }
    }
}

/// Accepts the `i8` values up to `N`: equal to it, or else below it.
pub type LessEqualRuleI8<const N: u8> = Or<EqualRuleI8<N>, LessRuleI8<N>>;

/// A `i8` at most `N`.
pub type LessEqualI8<const N: u8> = Refined<LessEqualRuleI8<N>>;

/// The bound itself and the value below it pass `LessEqualRuleI8`; the
/// value above it does not.
pub proof fn lemma_less_equal_boundary_i8<const N: u8>()
    ensures
        forall|x: i8| <LessEqualRuleI8<N> as Rule>::accepts(x) <==> (x as int) <= (N as int),
        (N as int) <= i8::MAX ==> <LessEqualRuleI8<N> as Rule>::accepts(N as i8),
        (N as int) < i8::MAX ==> !<LessEqualRuleI8<N> as Rule>::accepts((N + 1) as i8),
        0 < N && (N as int) <= i8::MAX + 1 ==> <LessEqualRuleI8<N> as Rule>::accepts((N - 1) as i8),
{
}

/// Accepts the `i16` values below `THAN`.
pub struct LessRuleI16<const THAN: u16>;

/// A `i16` below `THAN`.
pub type LessI16<const THAN: u16> = Refined<LessRuleI16<THAN>>;

impl<const THAN: u16> Rule for LessRuleI16<THAN> {
    type Item = i16;

    open spec fn accepts(item: i16) -> bool {
        (item as int) < (THAN as int)
    }

    open spec fn rejection_reasons(item: i16) -> Seq<Seq<char>> {
        seq!["the value is not less than the bound"@]
    }

    fn validate(target: i16) -> (r: Result<i16, Error<i16>>) {
        if target < 0 || (target as u16) < THAN {
            Ok(target)
        } else {
            Err(Error::new(target, String::from_str("the value is not less than the bound")))
        }
    }
}

/// Accepts the `i16` value equal to `N`.
pub struct EqualRuleI16<const N: u16>;

/// The `i16` equal to `N`.
pub type EqualI16<const N: u16> = Refined<EqualRuleI16<N>>;

impl<const N: u16> Rule for EqualRuleI16<N> {
    type Item = i16;

    open spec fn accepts(item: i16) -> bool {
        (item as int) == (N as int)
    }

    open spec fn rejection_reasons(item: i16) -> Seq<Seq<char>> {
        seq!["the value is not equal to the bound"@]
    }

    fn validate(target: i16) -> (r: Result<i16, Error<i16>>) {
        if target >= 0 && (target as u16) == N {
            Ok(target)
        } else {
            Err(Error::new(target, String::from_str("the value is not equal to the bound")))
        }
    }
}

/// Accepts the `i16` values up to `N`: equal to it, or else below it.
pub type LessEqualRuleI16<const N: u16> = Or<EqualRuleI16<N>, LessRuleI16<N>>;

/// A `i16` at most `N`.
pub type LessEqualI16<const N: u16> = Refined<LessEqualRuleI16<N>>;

/// The bound itself and the value below it pass `LessEqualRuleI16`; the
/// value above it does not.
pub proof fn lemma_less_equal_boundary_i16<const N: u16>()
    ensures
        forall|x: i16| <LessEqualRuleI16<N> as Rule>::accepts(x) <==> (x as int) <= (N as int),
        (N as int) <= i16::MAX ==> <LessEqualRuleI16<N> as Rule>::accepts(N as i16),
        (N as int) < i16::MAX ==> !<LessEqualRuleI16<N> as Rule>::accepts((N + 1) as i16),
        0 < N && (N as int) <= i16::MAX + 1 ==> <LessEqualRuleI16<N> as Rule>::accepts((N - 1) as i16),
{
}

/// Accepts the `i32` values below `THAN`.
pub struct LessRuleI32<const THAN: u32>;

/// A `i32` below `THAN`.
pub type LessI32<const THAN: u32> = Refined<LessRuleI32<THAN>>;

impl<const THAN: u32> Rule for LessRuleI32<THAN> {
    type Item = i32;

    open spec fn accepts(item: i32) -> bool {
        (item as int) < (THAN as int)
    }

    open spec fn rejection_reasons(item: i32) -> Seq<Seq<char>> {
        seq!["the value is not less than the bound"@]
    }

    fn validate(target: i32) -> (r: Result<i32, Error<i32>>) {
        if target < 0 || (target as u32) < THAN {
            Ok(target)
        } else {
            Err(Error::new(target, String::from_str("the value is not less than the bound")))
        }
    }
}

/// Accepts the `i32` value equal to `N`.
pub struct EqualRuleI32<const N: u32>;

/// The `i32` equal to `N`.
pub type EqualI32<const N: u32> = Refined<EqualRuleI32<N>>;

impl<const N: u32> Rule for EqualRuleI32<N> {
    type Item = i32;

    open spec fn accepts(item: i32) -> bool {
        (item as int) == (N as int)
    }

    open spec fn rejection_reasons(item: i32) -> Seq<Seq<char>> {
        seq!["the value is not equal to the bound"@]
    }

    fn validate(target: i32) -> (r: Result<i32, Error<i32>>) {
        if target >= 0 && (target as u32) == N {
            Ok(target)
        } else {
            Err(Error::new(target, String::from_str("the value is not equal to the bound")))
        }
    }
}

/// Accepts the `i32` values up to `N`: equal to it, or else below it.
pub type LessEqualRuleI32<const N: u32> = Or<EqualRuleI32<N>, LessRuleI32<N>>;

/// A `i32` at most `N`.
pub type LessEqualI32<const N: u32> = Refined<LessEqualRuleI32<N>>;

/// The bound itself and the value below it pass `LessEqualRuleI32`; the
/// value above it does not.
pub proof fn lemma_less_equal_boundary_i32<const N: u32>()
    ensures
        forall|x: i32| <LessEqualRuleI32<N> as Rule>::accepts(x) <==> (x as int) <= (N as int),
        (N as int) <= i32::MAX ==> <LessEqualRuleI32<N> as Rule>::accepts(N as i32),
        (N as int) < i32::MAX ==> !<LessEqualRuleI32<N> as Rule>::accepts((N + 1) as i32),
        0 < N && (N as int) <= i32::MAX + 1 ==> <LessEqualRuleI32<N> as Rule>::accepts((N - 1) as i32),
{
}

/// Accepts the `i64` values below `THAN`.
pub struct LessRuleI64<const THAN: u64>;

/// A `i64` below `THAN`.
pub type LessI64<const THAN: u64> = Refined<LessRuleI64<THAN>>;

impl<const THAN: u64> Rule for LessRuleI64<THAN> {
    type Item = i64;

    open spec fn accepts(item: i64) -> bool {
        (item as int) < (THAN as int)
    }

    open spec fn rejection_reasons(item: i64) -> Seq<Seq<char>> {
        seq!["the value is not less than the bound"@]
    }

    fn validate(target: i64) -> (r: Result<i64, Error<i64>>) {
        if target < 0 || (target as u64) < THAN {
            Ok(target)
        } else {
            Err(Error::new(target, String::from_str("the value is not less than the bound")))
        }
    }
}

/// Accepts the `i64` value equal to `N`.
pub struct EqualRuleI64<const N: u64>;

/// The `i64` equal to `N`.
pub type EqualI64<const N: u64> = Refined<EqualRuleI64<N>>;

impl<const N: u64> Rule for EqualRuleI64<N> {
    type Item = i64;

    open spec fn accepts(item: i64) -> bool {
        (item as int) == (N as int)
    }

    open spec fn rejection_reasons(item: i64) -> Seq<Seq<char>> {
        seq!["the value is not equal to the bound"@]
    }

    fn validate(target: i64) -> (r: Result<i64, Error<i64>>) {
        if target >= 0 && (target as u64) == N {
            Ok(target)
        } else {
            Err(Error::new(target, String::from_str("the value is not equal to the bound")))
        }
    }
}

/// Accepts the `i64` values up to `N`: equal to it, or else below it.
pub type LessEqualRuleI64<const N: u64> = Or<EqualRuleI64<N>, LessRuleI64<N>>;

/// A `i64` at most `N`.
pub type LessEqualI64<const N: u64> = Refined<LessEqualRuleI64<N>>;

/// The bound itself and the value below it pass `LessEqualRuleI64`; the
/// value above it does not.
pub proof fn lemma_less_equal_boundary_i64<const N: u64>()
    ensures
        forall|x: i64| <LessEqualRuleI64<N> as Rule>::accepts(x) <==> (x as int) <= (N as int),
        (N as int) <= i64::MAX ==> <LessEqualRuleI64<N> as Rule>::accepts(N as i64),
        (N as int) < i64::MAX ==> !<LessEqualRuleI64<N> as Rule>::accepts((N + 1) as i64),
        0 < N && (N as int) <= i64::MAX + 1 ==> <LessEqualRuleI64<N> as Rule>::accepts((N - 1) as i64),
{
}

/// Accepts the `i128` values below `THAN`.
pub struct LessRuleI128<const THAN: u128>;

/// A `i128` below `THAN`.
pub type LessI128<const THAN: u128> = Refined<LessRuleI128<THAN>>;

impl<const THAN: u128> Rule for LessRuleI128<THAN> {
    type Item = i128;

    open spec fn accepts(item: i128) -> bool {
        (item as int) < (THAN as int)
    }

    open spec fn rejection_reasons(item: i128) -> Seq<Seq<char>> {
        seq!["the value is not less than the bound"@]
    }

    fn validate(target: i128) -> (r: Result<i128, Error<i128>>) {
        if target < 0 || (target as u128) < THAN {
            Ok(target)
        } else {
            Err(Error::new(target, String::from_str("the value is not less than the bound")))
        }
    }
}

/// Accepts the `i128` value equal to `N`.
pub struct EqualRuleI128<const N: u128>;

/// The `i128` equal to `N`.
pub type EqualI128<const N: u128> = Refined<EqualRuleI128<N>>;

impl<const N: u128> Rule for EqualRuleI128<N> {
    type Item = i128;

    open spec fn accepts(item: i128) -> bool {
        (item as int) == (N as int)
    }

    open spec fn rejection_reasons(item: i128) -> Seq<Seq<char>> {
        seq!["the value is not equal to the bound"@]
    }

    fn validate(target: i128) -> (r: Result<i128, Error<i128>>) {
        if target >= 0 && (target as u128) == N {
            Ok(target)
        } else {
            Err(Error::new(target, String::from_str("the value is not equal to the bound")))
        }
    }
}

/// Accepts the `i128` values up to `N`: equal to it, or else below it.
pub type LessEqualRuleI128<const N: u128> = Or<EqualRuleI128<N>, LessRuleI128<N>>;

/// A `i128` at most `N`.
pub type LessEqualI128<const N: u128> = Refined<LessEqualRuleI128<N>>;

/// The bound itself and the value below it pass `LessEqualRuleI128`; the
/// value above it does not.
pub proof fn lemma_less_equal_boundary_i128<const N: u128>()
    ensures
        forall|x: i128| <LessEqualRuleI128<N> as Rule>::accepts(x) <==> (x as int) <= (N as int),
        (N as int) <= i128::MAX ==> <LessEqualRuleI128<N> as Rule>::accepts(N as i128),
        (N as int) < i128::MAX ==> !<LessEqualRuleI128<N> as Rule>::accepts((N + 1) as i128),
        0 < N && (N as int) <= i128::MAX + 1 ==> <LessEqualRuleI128<N> as Rule>::accepts((N - 1) as i128),
{
}

/// Accepts the `isize` values below `THAN`.
pub struct LessRuleIsize<const THAN: usize>;

/// A `isize` below `THAN`.
pub type LessIsize<const THAN: usize> = Refined<LessRuleIsize<THAN>>;

impl<const THAN: usize> Rule for LessRuleIsize<THAN> {
    type Item = isize;

    open spec fn accepts(item: isize) -> bool {
        (item as int) < (THAN as int)
    }

    open spec fn rejection_reasons(item: isize) -> Seq<Seq<char>> {
        seq!["the value is not less than the bound"@]
    }

    fn validate(target: isize) -> (r: Result<isize, Error<isize>>) {
        if target < 0 || (target as usize) < THAN {
            Ok(target)
        } else {
            Err(Error::new(target, String::from_str("the value is not less than the bound")))
        }
    }
}

/// Accepts the `isize` value equal to `N`.
pub struct EqualRuleIsize<const N: usize>;

/// The `isize` equal to `N`.
pub type EqualIsize<const N: usize> = Refined<EqualRuleIsize<N>>;

impl<const N: usize> Rule for EqualRuleIsize<N> {
    type Item = isize;

    open spec fn accepts(item: isize) -> bool {
        (item as int) == (N as int)
    }

    open spec fn rejection_reasons(item: isize) -> Seq<Seq<char>> {
        seq!["the value is not equal to the bound"@]
    }

    fn validate(target: isize) -> (r: Result<isize, Error<isize>>) {
        if target >= 0 && (target as usize) == N {
            Ok(target)
        } else {
            Err(Error::new(target, String::from_str("the value is not equal to the bound")))
        }
    }
}

/// Accepts the `isize` values up to `N`: equal to it, or else below it.
pub type LessEqualRuleIsize<const N: usize> = Or<EqualRuleIsize<N>, LessRuleIsize<N>>;

/// A `isize` at most `N`.
pub type LessEqualIsize<const N: usize> = Refined<LessEqualRuleIsize<N>>;

/// The bound itself and the value below it pass `LessEqualRuleIsize`; the
/// value above it does not.
pub proof fn lemma_less_equal_boundary_isize<const N: usize>()
    ensures
        forall|x: isize| <LessEqualRuleIsize<N> as Rule>::accepts(x) <==> (x as int) <= (N as int),
        (N as int) <= isize::MAX ==> <LessEqualRuleIsize<N> as Rule>::accepts(N as isize),
        (N as int) < isize::MAX ==> !<LessEqualRuleIsize<N> as Rule>::accepts((N + 1) as isize),
        0 < N && (N as int) <= isize::MAX + 1 ==> <LessEqualRuleIsize<N> as Rule>::accepts((N - 1) as isize),
{
}

} // verus!
