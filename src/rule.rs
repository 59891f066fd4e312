use vstd::prelude::*;

use crate::result::Error;

pub mod collection;
pub mod composer;
pub mod length;
pub mod number;
pub mod string;

pub use collection::{
    ExistsRule, ForAllRule, HeadRule, IndexRule, InitRule, InitVec, InitVecRule, LastRule,
    NothingRule, ReverseRule, SkipFirstRule, SkipLastRule, TailRule,
};
pub use composer::{AlwaysFail, And, Not, Or};
pub use length::{LengthDefinition, LengthLessThan, LengthLessThanRule};
pub use string::{AlphaDigit, AlphaDigitRule, Email, EmailRule, NonEmptyString, NonEmptyStringRule};

verus! {

/// A pure predicate over values of one type. `accepts` says which values pass;
/// `validate` decides it at run time and hands the value back either way.
///
/// A rule judges a value by its model (`deep_view`): a vector of elements is
/// judged as the sequence of its elements' models, a string as its characters.
/// What comes back, in `Ok` or inside the `Err`, has the model of the input,
/// and a rejection gives the reasons that `rejection_reasons` names for it.
pub trait Rule {
    type Item: DeepView;

    spec fn accepts(item: <Self::Item as DeepView>::V) -> bool;

    /// The texts of the reasons given when `item` is rejected.
    spec fn rejection_reasons(item: <Self::Item as DeepView>::V) -> Seq<Seq<char>>;

    fn validate(target: Self::Item) -> (r: Result<Self::Item, Error<Self::Item>>)
        ensures
            r is Ok <==> Self::accepts(target.deep_view()),
            r matches Ok(v) ==> v.deep_view() == target.deep_view(),
            r matches Err(e) ==> e.rejected().deep_view() == target.deep_view(),
            r matches Err(e) ==> e.reasons() == Self::rejection_reasons(target.deep_view()),
    ;
}

} // verus!
