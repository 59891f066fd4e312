use refined_type::result::Error;
use refined_type::rule::number::{
    EqualRuleU8, LessEqualI32, LessEqualU8, LessRuleI64, LessRuleU8, LessU64, LessUsize,
};
use refined_type::rule::{
    AlphaDigitRule, AlwaysFail, And, EmailRule, ExistsRule, ForAllRule, HeadRule, IndexRule,
    InitRule, InitVec, LastRule, LengthDefinition, LengthLessThan, NonEmptyStringRule, Not,
    NothingRule, Or, ReverseRule, SkipFirstRule, SkipLastRule, TailRule,
};
use refined_type::Refined;

type Below10 = LessRuleU8<10>;

fn rejection<T, V>(r: Result<T, Error<V>>) -> Error<V> {
    match r {
        Ok(_) => panic!("the value was accepted"),
        Err(e) => e,
    }
}
type Below20 = LessRuleU8<20>;

#[test]
fn round_trip_keeps_value() {
    let refined = Refined::<Below10>::new(7).unwrap();
    assert_eq!(*refined.value(), 7);
    assert_eq!(refined.into_value(), 7);
    let words = vec!["ab".to_string(), "c".to_string()];
    let refined = Refined::<ForAllRule<NonEmptyStringRule>>::new(words.clone()).unwrap();
    assert_eq!(refined.into_value(), words);
}

#[test]
fn rejection_returns_value() {
    let err = rejection(Refined::<Below10>::new(12));
    assert_eq!(*err.value(), 12);
    assert_eq!(err.messages().len(), 1);
    assert_eq!(err.into_value(), 12);
    let words = vec!["ab".to_string(), "".to_string()];
    let err = rejection(Refined::<ForAllRule<NonEmptyStringRule>>::new(words.clone()));
    assert_eq!(err.into_value(), words);
}

#[test]
fn and_accepts_same_values_both_ways() {
    for v in [0u8, 9, 10, 15, 20, 255] {
        let ab = Refined::<And<Below10, Below20>>::new(v).is_ok();
        let ba = Refined::<And<Below20, Below10>>::new(v).is_ok();
        assert_eq!(ab, ba);
        assert_eq!(ab, v < 10);
    }
}

#[test]
fn and_collects_both_reasons() {
    let err = rejection(Refined::<And<Below10, Below20>>::new(30));
    assert_eq!(err.messages().len(), 2);
    assert_eq!(*err.value(), 30);
    let err = rejection(Refined::<And<Below10, Below20>>::new(15));
    assert_eq!(err.messages().len(), 1);
    assert_eq!(*err.value(), 15);
}

#[test]
fn or_with_always_fail_is_identity() {
    for v in [0u8, 9, 10, 200] {
        let with_fail = Refined::<Or<Below10, AlwaysFail<u8>>>::new(v).is_ok();
        assert_eq!(with_fail, v < 10);
    }
    let err = rejection(Refined::<Or<Below10, AlwaysFail<u8>>>::new(11));
    assert_eq!(err.messages().len(), 2);
    assert_eq!(err.into_value(), 11);
}

#[test]
fn not_twice_accepts_same_values() {
    for v in [0u8, 9, 10, 255] {
        assert_eq!(Refined::<Not<Not<Below10>>>::new(v).is_ok(), v < 10);
        assert_eq!(Refined::<Not<Below10>>::new(v).is_ok(), v >= 10);
    }
}

#[test]
fn less_equal_boundary() {
    assert!(LessEqualU8::<50>::new(50).is_ok());
    assert!(LessEqualU8::<50>::new(51).is_err());
    assert!(LessEqualU8::<50>::new(49).is_ok());
    assert!(LessEqualU8::<255>::new(255).is_ok());
    assert!(LessEqualU8::<0>::new(0).is_ok());
    assert!(LessEqualU8::<0>::new(1).is_err());
    assert!(LessEqualI32::<5>::new(-7).is_ok());
    assert!(LessEqualI32::<5>::new(6).is_err());
    let err = rejection(LessEqualU8::<50>::new(51));
    assert_eq!(err.messages().len(), 2);
}

#[test]
fn less_rules_on_edges() {
    assert!(LessU64::<0>::new(0).is_err());
    assert!(LessUsize::<3>::new(2).is_ok());
    assert!(Refined::<LessRuleI64<0>>::new(-1).is_ok());
    assert!(Refined::<LessRuleI64<0>>::new(0).is_err());
    assert!(Refined::<LessRuleI64<0>>::new(i64::MIN).is_ok());
}

#[test]
fn empty_vector_table() {
    let empty: Vec<u8> = Vec::new();
    assert!(Refined::<HeadRule<Below10>>::new(empty.clone()).is_err());
    assert!(Refined::<TailRule<ForAllRule<Below10>, u8>>::new(empty.clone()).is_err());
    assert!(Refined::<InitRule<ForAllRule<Below10>, u8>>::new(empty.clone()).is_err());
    assert!(Refined::<LastRule<Below10>>::new(empty.clone()).is_err());
    assert!(Refined::<IndexRule<Below10, 0>>::new(empty.clone()).is_err());
    assert!(Refined::<ExistsRule<Below10>>::new(empty.clone()).is_err());
    assert!(Refined::<ForAllRule<Below10>>::new(empty.clone()).is_ok());
    assert!(Refined::<NothingRule<u8>>::new(empty.clone()).is_ok());
    assert!(Refined::<NothingRule<u8>>::new(vec![1]).is_err());
}

#[test]
fn single_element_table() {
    let one = vec![7u8];
    assert!(Refined::<HeadRule<EqualRuleU8<7>>>::new(one.clone()).is_ok());
    assert!(Refined::<LastRule<EqualRuleU8<7>>>::new(one.clone()).is_ok());
    assert!(Refined::<HeadRule<EqualRuleU8<8>>>::new(one.clone()).is_err());
    assert!(Refined::<TailRule<NothingRule<u8>, u8>>::new(one.clone()).is_ok());
    assert!(Refined::<InitRule<NothingRule<u8>, u8>>::new(one.clone()).is_ok());
    let back = Refined::<InitRule<NothingRule<u8>, u8>>::new(one.clone()).unwrap();
    assert_eq!(back.into_value(), one);
}

#[test]
fn three_element_table() {
    let v = vec![1u8, 2, 3];
    assert!(Refined::<HeadRule<EqualRuleU8<1>>>::new(v.clone()).is_ok());
    assert!(Refined::<HeadRule<EqualRuleU8<3>>>::new(v.clone()).is_err());
    assert!(Refined::<LastRule<EqualRuleU8<3>>>::new(v.clone()).is_ok());
    assert!(Refined::<LastRule<EqualRuleU8<1>>>::new(v.clone()).is_err());
    type TailIsTwoThree = And<HeadRule<EqualRuleU8<2>>, LastRule<EqualRuleU8<3>>>;
    assert!(Refined::<TailRule<TailIsTwoThree, u8>>::new(v.clone()).is_ok());
    type InitIsOneTwo = And<HeadRule<EqualRuleU8<1>>, LastRule<EqualRuleU8<2>>>;
    assert!(Refined::<InitRule<InitIsOneTwo, u8>>::new(v.clone()).is_ok());
    assert!(Refined::<InitRule<LastRule<EqualRuleU8<3>>, u8>>::new(v.clone()).is_err());
    assert!(Refined::<IndexRule<EqualRuleU8<2>, 1>>::new(v.clone()).is_ok());
    assert!(Refined::<IndexRule<EqualRuleU8<2>, 5>>::new(v.clone()).is_err());
    assert!(Refined::<ReverseRule<HeadRule<EqualRuleU8<3>>, u8>>::new(v.clone()).is_ok());
    let kept = Refined::<ReverseRule<HeadRule<EqualRuleU8<3>>, u8>>::new(v.clone()).unwrap();
    assert_eq!(kept.into_value(), v);
}

#[test]
fn three_strings_table() {
    let v = vec!["a".to_string(), "".to_string(), "c".to_string()];
    assert!(Refined::<HeadRule<NonEmptyStringRule>>::new(v.clone()).is_ok());
    assert!(Refined::<LastRule<NonEmptyStringRule>>::new(v.clone()).is_ok());
    assert!(Refined::<IndexRule<NonEmptyStringRule, 1>>::new(v.clone()).is_err());
    assert!(Refined::<ExistsRule<Not<NonEmptyStringRule>>>::new(v.clone()).is_ok());
    assert!(Refined::<ForAllRule<NonEmptyStringRule>>::new(v.clone()).is_err());
    assert!(InitVec::<NonEmptyStringRule>::new(v.clone()).is_err());
    let err = rejection(Refined::<IndexRule<NonEmptyStringRule, 1>>::new(v.clone()));
    assert_eq!(err.into_value(), v);
}

#[test]
fn skip_rules() {
    let v = vec![1u8, 2, 3, 4];
    assert!(Refined::<SkipFirstRule<HeadRule<EqualRuleU8<3>>, u8, 2>>::new(v.clone()).is_ok());
    assert!(Refined::<SkipFirstRule<NothingRule<u8>, u8, 9>>::new(v.clone()).is_ok());
    assert!(Refined::<SkipLastRule<LastRule<EqualRuleU8<3>>, u8, 1>>::new(v.clone()).is_ok());
    let kept = Refined::<SkipLastRule<LastRule<EqualRuleU8<2>>, u8, 2>>::new(v.clone()).unwrap();
    assert_eq!(kept.into_value(), v);
}

#[test]
fn length_counts_characters() {
    assert!(LengthLessThan::<String, 5>::new("abcd".to_string()).is_ok());
    assert!(LengthLessThan::<String, 4>::new("abcd".to_string()).is_err());
    assert!(LengthLessThan::<String, 5>::new("ああああ".to_string()).is_ok());
    assert_eq!("ああああ".length(), 4);
    assert_eq!("".to_string().length(), 0);
    assert_eq!(vec![1, 2, 3].length(), 3);
    assert!(LengthLessThan::<Vec<u8>, 3>::new(vec![1, 2, 3]).is_err());
}

#[test]
fn string_rules() {
    assert!(Refined::<EmailRule>::new("sample@example.com".to_string()).is_ok());
    assert!(Refined::<EmailRule>::new("@".to_string()).is_err());
    assert!(Refined::<AlphaDigitRule>::new("abc-1".to_string()).is_err());
    assert!(Refined::<AlphaDigitRule>::new("ABCxyz09".to_string()).is_ok());
    assert!(Refined::<NonEmptyStringRule>::new("".to_string()).is_err());
    let err: Error<String> = rejection(Refined::<EmailRule>::new("example.com".to_string()));
    assert_eq!(err.into_value(), "example.com");
}

#[test]
fn refined_equality_follows_values() {
    let a = Refined::<Below10>::new(3).unwrap();
    let b = Refined::<Below10>::new(3).unwrap();
    let c = Refined::<Below10>::new(4).unwrap();
    assert!(a == b);
    assert!(a != c);
}

fn texts<V>(e: &Error<V>) -> Vec<String> {
    e.messages().clone()
}

#[test]
fn email_reason_names_the_address() {
    let err = rejection(Refined::<EmailRule>::new("@".to_string()));
    assert_eq!(texts(&err), vec!["@ is not a valid email format".to_string()]);
}

#[test]
fn or_reasons_come_from_both_rules_in_order() {
    let err = rejection(Refined::<Or<EmailRule, AlphaDigitRule>>::new("@".to_string()));
    assert_eq!(
        texts(&err),
        vec![
            "@ is not a valid email format".to_string(),
            "The input `String` have some alpha_digit characters".to_string(),
        ]
    );
    assert_eq!(err.into_value(), "@");
    let err = rejection(LessEqualU8::<50>::new(51));
    assert_eq!(
        texts(&err),
        vec![
            "the value is not equal to the bound".to_string(),
            "the value is not less than the bound".to_string(),
        ]
    );
}

#[test]
fn and_reasons_single_or_both() {
    let err = rejection(Refined::<And<AlphaDigitRule, EmailRule>>::new("a@b.cd".to_string()));
    assert_eq!(texts(&err), vec!["The input `String` have some alpha_digit characters".to_string()]);
    let err = rejection(Refined::<And<AlphaDigitRule, EmailRule>>::new("abc".to_string()));
    assert_eq!(texts(&err), vec!["abc is not a valid email format".to_string()]);
    let err = rejection(Refined::<And<AlphaDigitRule, EmailRule>>::new("a-b".to_string()));
    assert_eq!(
        texts(&err),
        vec![
            "The input `String` have some alpha_digit characters".to_string(),
            "a-b is not a valid email format".to_string(),
        ]
    );
}

#[test]
fn positional_reasons() {
    let err = rejection(Refined::<HeadRule<Below10>>::new(Vec::new()));
    assert_eq!(texts(&err), vec!["the vector has no element at the position".to_string()]);
    let err = rejection(Refined::<IndexRule<Below10, 1>>::new(vec![1, 30]));
    assert_eq!(texts(&err), vec!["the value is not less than the bound".to_string()]);
    let err = rejection(Refined::<Not<Below10>>::new(3));
    assert_eq!(texts(&err), vec!["the value satisfies the negated rule".to_string()]);
}
