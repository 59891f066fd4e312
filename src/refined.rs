use vstd::prelude::*;

use vstd::std_specs::cmp::PartialEqSpec;

use crate::result::Error;
use crate::rule::Rule;

verus! {

/// A value that the rule `R` accepts. The only way in is `new`, which runs the
/// rule; there is no way to change the value in place.
pub struct Refined<R: Rule> {
    value: R::Item,
}

impl<R: Rule> Refined<R> {
    #[verifier::type_invariant]
    spec fn inv(self) -> bool {
        R::accepts(self.value.deep_view())
    }

    /// The held value.
    pub closed spec fn inner(self) -> R::Item {
        self.value
    }

    /// Wraps `value` if `R` accepts it; otherwise gives it back inside the error.
    pub fn new(value: R::Item) -> (r: Result<Self, Error<R::Item>>)
        ensures
            r is Ok <==> R::accepts(value.deep_view()),
            r matches Ok(x) ==> x.inner().deep_view() == value.deep_view(),
            r matches Err(e) ==> e.rejected().deep_view() == value.deep_view(),
            r matches Err(e) ==> e.reasons() == R::rejection_reasons(value.deep_view()),
    {
        match R::validate(value) {
            Ok(v) => Ok(Refined { value: v }),
            Err(e) => Err(e),
        }
    }

    pub fn value(&self) -> (r: &R::Item)
        ensures
            *r == self.inner(),
            R::accepts(r.deep_view()),
    {
        proof {
            use_type_invariant(self);
        }
        &self.value
    }

    /// Ends the container and gives the value back.
    pub fn into_value(self) -> (r: R::Item)
        ensures
            r == self.inner(),
            R::accepts(r.deep_view()),
    {
        proof {
            use_type_invariant(&self);
        }
        self.value
    }
}

/// Two refined values are equal when the values they hold are.
impl<R: Rule> PartialEq for Refined<R> where R::Item: PartialEq {
    fn eq(&self, other: &Self) -> (r: bool) {
        self.value == other.value
    }
}

impl<R: Rule> vstd::std_specs::cmp::PartialEqSpecImpl for Refined<R> where R::Item: PartialEq {
    open spec fn obeys_eq_spec() -> bool {
        <R::Item as PartialEqSpec>::obeys_eq_spec()
    }

    open spec fn eq_spec(&self, other: &Self) -> bool {
        self.inner().eq_spec(&other.inner())
    }
}

} // verus!
