use vstd::prelude::*;
use vstd::string::*;

use core::marker::PhantomData;
use std::collections::VecDeque;

use crate::refined::Refined;
use crate::result::Error;
use crate::rule::Rule;

verus! {

/// The number of units a value holds: characters for text, elements for
/// ordered containers. It depends on the value's model alone.
pub trait LengthDefinition: DeepView {
    spec fn length_of(model: Self::V) -> nat;

    fn length(&self) -> (r: usize)
        ensures
            r == Self::length_of(self.deep_view()),
    ;
}

impl LengthDefinition for str {
    open spec fn length_of(model: Seq<char>) -> nat {
        model.len()
    }

    fn length(&self) -> (r: usize) {
        self.unicode_len()
    }
}

impl<'a> LengthDefinition for &'a str {
    open spec fn length_of(model: Seq<char>) -> nat {
        model.len()
    }

    fn length(&self) -> (r: usize) {
        (*self).unicode_len()
    }
}

impl LengthDefinition for String {
    open spec fn length_of(model: Seq<char>) -> nat {
        model.len()
    }

    fn length(&self) -> (r: usize) {
        self.as_str().unicode_len()
    }
}

impl<T: DeepView> LengthDefinition for Vec<T> {
    open spec fn length_of(model: Seq<T::V>) -> nat {
        model.len()
    }

    fn length(&self) -> (r: usize) {
        self.len()
    }
}

impl<T: DeepView> LengthDefinition for [T] {
    open spec fn length_of(model: Seq<T::V>) -> nat {
        model.len()
    }

    fn length(&self) -> (r: usize) {
        self.len()
    }
}

impl<T: DeepView> LengthDefinition for VecDeque<T> {
    open spec fn length_of(model: Seq<T::V>) -> nat {
        model.len()
    }

    fn length(&self) -> (r: usize) {
        self.len()
    }
}

/// Accepts the values whose length is below `N`.
pub struct LengthLessThanRule<ITEM, const N: usize> {
    _item: PhantomData<ITEM>,
}

/// A value whose length is below `N`.
pub type LengthLessThan<ITEM, const N: usize> = Refined<LengthLessThanRule<ITEM, N>>;

impl<ITEM: LengthDefinition, const N: usize> Rule for LengthLessThanRule<ITEM, N> {
    type Item = ITEM;

    open spec fn accepts(item: ITEM::V) -> bool {
        ITEM::length_of(item) < N
    }

    open spec fn rejection_reasons(item: ITEM::V) -> Seq<Seq<char>> {
        seq!["the length is not less than the bound"@]
    }

    fn validate(target: ITEM) -> (r: Result<ITEM, Error<ITEM>>) {
        if target.length() < N {
            Ok(target)
        } else {
            Err(Error::new(target, String::from_str("the length is not less than the bound")))
        }
    }
}

} // verus!
