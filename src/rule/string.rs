use vstd::prelude::*;
use vstd::string::*;

use regex::Regex;

use crate::refined::Refined;
use crate::result::Error;
use crate::rule::Rule;

verus! {

/// An ASCII letter or an ASCII digit.
pub open spec fn is_alpha_digit(c: char) -> bool {
    ('0' <= c && c <= '9') || ('a' <= c && c <= 'z') || ('A' <= c && c <= 'Z')
}

/// Whether the regular expression `pattern` matches somewhere in `text`
/// (never, where `pattern` is not a well-formed expression).
pub uninterp spec fn regex_match(pattern: Seq<char>, text: Seq<char>) -> bool;

/// Relies on regex's `Regex::new` and `Regex::is_match`: the answer depends on
/// the pattern and the text alone. Of the pattern `^[0-9a-zA-Z]*$` the regex
/// syntax gives the answer in full: the text is made of ASCII letters and
/// digits only (the empty text included).
#[verifier::external_body]
fn regex_is_match(pattern: &str, text: &str) -> (r: bool)
    ensures
        r == regex_match(pattern@, text@),
        pattern@ == "^[0-9a-zA-Z]*$"@ ==> (r == forall|i: int|
            0 <= i < text@.len() ==> is_alpha_digit(#[trigger] text@[i])),
{
    match Regex::new(pattern) {
        Ok(regex) => regex.is_match(text),
        Err(_) => false,
    }
}

/// Accepts the texts made of ASCII letters and digits only.
pub struct AlphaDigitRule;

/// A text of ASCII letters and digits only.
pub type AlphaDigit = Refined<AlphaDigitRule>;

impl Rule for AlphaDigitRule {
    type Item = String;

    open spec fn accepts(item: Seq<char>) -> bool {
        forall|i: int| 0 <= i < item.len() ==> is_alpha_digit(#[trigger] item[i])
    }

    open spec fn rejection_reasons(item: Seq<char>) -> Seq<Seq<char>> {
        seq!["The input `String` have some alpha_digit characters"@]
    }

    fn validate(target: String) -> (r: Result<String, Error<String>>) {
        if regex_is_match("^[0-9a-zA-Z]*$", target.as_str()) {
            Ok(target)
        } else {
            Err(Error::new(target, String::from_str("The input `String` have some alpha_digit characters")))
        }
    }
}

/// Accepts the texts in e-mail address format: the whole text matches
/// `^[a-zA-Z0-9_.+-]+@([a-zA-Z0-9][a-zA-Z0-9-]*[a-zA-Z0-9]*\.)+[a-zA-Z]{2,}$`.
pub struct EmailRule;

/// A text in e-mail address format.
pub type Email = Refined<EmailRule>;

impl Rule for EmailRule {
    type Item = String;

    open spec fn accepts(item: Seq<char>) -> bool {
        regex_match(
            "^[a-zA-Z0-9_.+-]+@([a-zA-Z0-9][a-zA-Z0-9-]*[a-zA-Z0-9]*\\.)+[a-zA-Z]{2,}$"@,
            item,
        )
    }

    open spec fn rejection_reasons(item: Seq<char>) -> Seq<Seq<char>> {
        seq![item + " is not a valid email format"@]
    }

    fn validate(target: String) -> (r: Result<String, Error<String>>) {
        if regex_is_match(
            "^[a-zA-Z0-9_.+-]+@([a-zA-Z0-9][a-zA-Z0-9-]*[a-zA-Z0-9]*\\.)+[a-zA-Z]{2,}$",
            target.as_str(),
        ) {
            Ok(target)
        } else {
            let mut message = String::from_str(target.as_str());
            message.append(" is not a valid email format");
            Err(Error::new(target, message))
        }
    }
}

/// Accepts the texts that hold at least one character.
pub struct NonEmptyStringRule;

/// A text that holds at least one character.
pub type NonEmptyString = Refined<NonEmptyStringRule>;

impl Rule for NonEmptyStringRule {
    type Item = String;

    open spec fn accepts(item: Seq<char>) -> bool {
        item.len() > 0
    }

    open spec fn rejection_reasons(item: Seq<char>) -> Seq<Seq<char>> {
        seq!["the text is empty"@]
    }

    fn validate(target: String) -> (r: Result<String, Error<String>>) {
        if target.as_str().unicode_len() > 0 {
            Ok(target)
        } else {
            Err(Error::new(target, String::from_str("the text is empty")))
        }
    }
}

} // verus!
