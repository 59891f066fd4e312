use vstd::prelude::*;
use vstd::string::*;

use core::marker::PhantomData;

use crate::result::Error;
use crate::rule::Rule;

verus! {

/// Accepts what both `A` and `B` accept. Both rules always run; when one
/// rejects, the error holds its reasons alone, and when both reject, the
/// reasons of `A` and then those of `B`.
pub struct And<A, B> {
    _a: PhantomData<A>,
    _b: PhantomData<B>,
}

/// Accepts what `A` or `B` accepts. `B` runs only when `A` rejects; when both
/// reject, the error holds the reasons of `A` and then those of `B`.
pub struct Or<A, B> {
    _a: PhantomData<A>,
    _b: PhantomData<B>,
}

/// Accepts exactly what `A` rejects.
pub struct Not<A> {
    _a: PhantomData<A>,
}

/// Rejects every value of `T`.
pub struct AlwaysFail<T: DeepView> {
    _t: PhantomData<T>,
}

impl<A: Rule, B: Rule<Item = A::Item>> Rule for And<A, B> {
    type Item = A::Item;

    open spec fn accepts(item: <A::Item as DeepView>::V) -> bool {
        A::accepts(item) && B::accepts(item)
    }

    open spec fn rejection_reasons(item: <A::Item as DeepView>::V) -> Seq<Seq<char>> {
        if !A::accepts(item) && !B::accepts(item) {
            A::rejection_reasons(item) + B::rejection_reasons(item)
        } else if !A::accepts(item) {
            A::rejection_reasons(item)
        } else {
            B::rejection_reasons(item)
        }
    }

    fn validate(target: A::Item) -> (r: Result<A::Item, Error<A::Item>>) {
        match A::validate(target) {
            Ok(v) => B::validate(v),
            Err(ea) => {
                let (v, ea) = ea.take();
                match B::validate(v) {
                    Ok(w) => Err(ea.with_value(w)),
                    Err(eb) => {
                        let (w, eb) = eb.take();
                        Err(Error::merge(w, ea, eb))
                    },
                }
            },
        }
    }
}

impl<A: Rule, B: Rule<Item = A::Item>> Rule for Or<A, B> {
    type Item = A::Item;

    open spec fn accepts(item: <A::Item as DeepView>::V) -> bool {
        A::accepts(item) || B::accepts(item)
    }

    open spec fn rejection_reasons(item: <A::Item as DeepView>::V) -> Seq<Seq<char>> {
        A::rejection_reasons(item) + B::rejection_reasons(item)
    }

    fn validate(target: A::Item) -> (r: Result<A::Item, Error<A::Item>>) {
        match A::validate(target) {
            Ok(v) => Ok(v),
            Err(ea) => {
                let (v, ea) = ea.take();
                match B::validate(v) {
                    Ok(w) => Ok(w),
                    Err(eb) => {
                        let (w, eb) = eb.take();
                        Err(Error::merge(w, ea, eb))
                    },
                }
            },
        }
    }
}

impl<A: Rule> Rule for Not<A> {
    type Item = A::Item;

    open spec fn accepts(item: <A::Item as DeepView>::V) -> bool {
        !A::accepts(item)
    }

    open spec fn rejection_reasons(item: <A::Item as DeepView>::V) -> Seq<Seq<char>> {
        seq!["the value satisfies the negated rule"@]
    }

    fn validate(target: A::Item) -> (r: Result<A::Item, Error<A::Item>>) {
        match A::validate(target) {
            Ok(v) => Err(Error::new(v, String::from_str("the value satisfies the negated rule"))),
            Err(e) => Ok(e.into_value()),
        }
    }
}

impl<T: DeepView> Rule for AlwaysFail<T> {
    type Item = T;

    open spec fn accepts(item: T::V) -> bool {
        false
    }

    open spec fn rejection_reasons(item: T::V) -> Seq<Seq<char>> {
        seq!["no value satisfies this rule"@]
    }

    fn validate(target: T) -> (r: Result<T, Error<T>>) {
        Err(Error::new(target, String::from_str("no value satisfies this rule")))
    }
}

/// Swapping the operands of `And` changes which values are accepted in no case.
pub proof fn lemma_and_commutative<T: DeepView, A: Rule<Item = T>, B: Rule<Item = T>>(x: T::V)
    ensures
        <And<A, B> as Rule>::accepts(x) == <And<B, A> as Rule>::accepts(x),
{
}

/// `Or` with a rule that rejects everything accepts exactly what its first
/// operand accepts.
pub proof fn lemma_or_always_fail_identity<T: DeepView, A: Rule<Item = T>>(x: T::V)
    ensures
        <Or<A, AlwaysFail<T>> as Rule>::accepts(x) == A::accepts(x),
{
}

/// Negating a rule twice accepts exactly what the rule accepts.
pub proof fn lemma_not_involutive<T: DeepView, A: Rule<Item = T>>(x: T::V)
    ensures
        <Not<Not<A>> as Rule>::accepts(x) == A::accepts(x),
{
}

} // verus!
