use vstd::prelude::*;

verus! {

/// The failure of a rule: the rejected value, handed back to the caller, and
/// the reasons for rejecting it (never empty, oldest first).
#[derive(Debug)]
pub struct Error<T> {
    value: T,
    messages: Vec<String>,
}

impl<T> Error<T> {
    #[verifier::type_invariant]
    spec fn inv(self) -> bool {
        self.messages@.len() > 0
    }

    /// The value that was rejected.
    pub closed spec fn rejected(self) -> T {
        self.value
    }

    /// The texts of the reasons for the rejection, in the order in which they
    /// arose.
    pub closed spec fn reasons(self) -> Seq<Seq<char>> {
        self.messages@.map_values(|m: String| m@)
    }

    pub fn new(value: T, message: String) -> (e: Self)
        ensures
            e.rejected() == value,
            e.reasons() == seq![message@],
    {
        let mut messages = Vec::new();
        messages.push(message);
        proof {
            assert(messages@.map_values(|m: String| m@) =~= seq![message@]);
        }
        Error { value, messages }
    }

    /// An error for `value` that joins the reasons of two failures, those of
    /// `first` before those of `second`.
    pub fn merge<U, V>(value: T, first: Error<U>, second: Error<V>) -> (e: Self)
        ensures
            e.rejected() == value,
            e.reasons() == first.reasons() + second.reasons(),
            e.reasons().len() >= 2,
    {
        proof {
            use_type_invariant(&first);
            use_type_invariant(&second);
        }
        let mut messages = first.messages;
        let mut rest = second.messages;
        messages.append(&mut rest);
        let e = Error { value, messages };
        assert(e.reasons() =~= first.reasons() + second.reasons());
        e
    }

    /// The same reasons, carried by another value.
    pub fn with_value<U>(self, value: U) -> (e: Error<U>)
        ensures
            e.rejected() == value,
            e.reasons() == self.reasons(),
    {
        proof {
            use_type_invariant(&self);
        }
        Error { value, messages: self.messages }
    }

    /// Splits the error into the rejected value and its reasons.
    pub fn take(self) -> (r: (T, Error<()>))
        ensures
            r.0 == self.rejected(),
            r.1.reasons() == self.reasons(),
    {
        proof {
            use_type_invariant(&self);
        }
        (self.value, Error { value: (), messages: self.messages })
    }

    pub fn value(&self) -> (r: &T)
        ensures
            *r == self.rejected(),
    {
        &self.value
    }

    /// Gives the rejected value back.
    pub fn into_value(self) -> (r: T)
        ensures
            r == self.rejected(),
    {
        self.value
    }

    pub fn messages(&self) -> (r: &Vec<String>)
        ensures
            r@.map_values(|m: String| m@) == self.reasons(),
            r@.len() > 0,
    {
        proof {
            use_type_invariant(self);
        }
        &self.messages
    }
}

} // verus!
