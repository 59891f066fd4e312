use vstd::prelude::*;
use vstd::string::*;

use core::marker::PhantomData;

use crate::refined::Refined;
use crate::result::Error;
use crate::rule::Rule;

verus! {

/// Applies `R` to the vector in reverse order.
pub struct ReverseRule<R, T> {
    _r: PhantomData<R>,
    _t: PhantomData<T>,
}

/// Drops the first `N` elements (all of them if there are fewer) and applies
/// `R` to what is left.
pub struct SkipFirstRule<R, T, const N: usize> {
    _r: PhantomData<R>,
    _t: PhantomData<T>,
}

/// The vector is not empty and `R` accepts its first element.
pub struct HeadRule<R> {
    _r: PhantomData<R>,
}

/// The vector is not empty and `R` accepts it without its first element.
pub struct TailRule<R, T> {
    _r: PhantomData<R>,
    _t: PhantomData<T>,
}

/// The vector has an element at position `N` and `R` accepts it.
pub struct IndexRule<R, const N: usize> {
    _r: PhantomData<R>,
}

/// Some element is accepted by `R`; never true of an empty vector.
pub struct ExistsRule<R> {
    _r: PhantomData<R>,
}

/// Every element is accepted by `R`; always true of an empty vector.
pub struct ForAllRule<R> {
    _r: PhantomData<R>,
}

/// The vector is empty.
pub struct NothingRule<T> {
    _t: PhantomData<T>,
}

/// Drops the last `N` elements and applies `R` to what is left: the vector is
/// reversed, its first `N` dropped, and the rest reversed back.
pub type SkipLastRule<R, T, const N: usize> = ReverseRule<SkipFirstRule<ReverseRule<R, T>, T, N>, T>;

/// The vector is not empty and `R` accepts its last element: the head of the
/// reversed vector.
pub type LastRule<R> = ReverseRule<HeadRule<R>, <R as Rule>::Item>;

/// The vector is not empty and `R` accepts it without its last element: the
/// tail of the reversed vector, reversed back.
pub type InitRule<R, T> = ReverseRule<TailRule<ReverseRule<R, T>, T>, T>;

/// The vector is not empty and `R` accepts every element but the last.
pub type InitVecRule<R> = InitRule<ForAllRule<R>, <R as Rule>::Item>;

/// A vector that is not empty and whose elements but the last satisfy `R`.
pub type InitVec<R> = Refined<InitVecRule<R>>;

/// The models of a vector's elements follow the vector's order.
proof fn lemma_deep_view_reverse<T: DeepView>(u: Vec<T>, v: Vec<T>)
    requires
        v@ == u@.reverse(),
    ensures
        v.deep_view() == u.deep_view().reverse(),
{
    assert(v.deep_view() =~= u.deep_view().reverse());
}

proof fn lemma_reverse_reverse<A>(s: Seq<A>)
    ensures
        s.reverse().reverse() == s,
{
    assert(s.reverse().len() == s.len());
    assert(s.reverse().reverse() =~= s);
}

/// The same elements in the opposite order.
fn reversed<T>(v: Vec<T>) -> (r: Vec<T>)
    ensures
        r@ == v@.reverse(),
{
    let ghost orig = v@;
    let mut v = v;
    let mut r: Vec<T> = Vec::new();
    while v.len() > 0
        invariant
            v@ == orig.subrange(0, v@.len() as int),
            r@.len() + v@.len() == orig.len(),
            forall|i: int| 0 <= i < r@.len() ==> r@[i] == orig[orig.len() - 1 - i],
        decreases v@.len(),
    {
        match v.pop() {
            Some(x) => r.push(x),
            None => {},
        }
    }
    assert(r@ =~= orig.reverse());
    r
}

/// Reverses a vector whose model is `orig` reversed, giving back `orig`.
fn reversed_back<T: DeepView>(v: Vec<T>, Ghost(orig): Ghost<Seq<T::V>>) -> (r: Vec<T>)
    requires
        v.deep_view() == orig.reverse(),
    ensures
        r.deep_view() == orig,
{
    let r = reversed(v);
    proof {
        lemma_deep_view_reverse(v, r);
        lemma_reverse_reverse(orig);
    }
    r
}

impl<T: DeepView, R: Rule<Item = Vec<T>>> Rule for ReverseRule<R, T> {
    type Item = Vec<T>;

    open spec fn accepts(item: Seq<T::V>) -> bool {
        R::accepts(item.reverse())
    }

    open spec fn rejection_reasons(item: Seq<T::V>) -> Seq<Seq<char>> {
        R::rejection_reasons(item.reverse())
    }

    fn validate(target: Vec<T>) -> (r: Result<Vec<T>, Error<Vec<T>>>) {
        let ghost model = target.deep_view();
        let w = reversed(target);
        proof {
            lemma_deep_view_reverse(target, w);
        }
        match R::validate(w) {
            Ok(w) => Ok(reversed_back(w, Ghost(model))),
            Err(e) => {
                let (w, e) = e.take();
                Err(e.with_value(reversed_back(w, Ghost(model))))
            },
        }
    }
}

impl<T: DeepView, R: Rule<Item = Vec<T>>, const N: usize> Rule for SkipFirstRule<R, T, N> {
    type Item = Vec<T>;

    open spec fn accepts(item: Seq<T::V>) -> bool {
        R::accepts(item.subrange(if N < item.len() { N as int } else { item.len() as int }, item.len() as int))
    }

    open spec fn rejection_reasons(item: Seq<T::V>) -> Seq<Seq<char>> {
        R::rejection_reasons(
            item.subrange(if N < item.len() { N as int } else { item.len() as int }, item.len() as int),
        )
    }

    fn validate(target: Vec<T>) -> (r: Result<Vec<T>, Error<Vec<T>>>) {
        let ghost model = target.deep_view();
        let mut front = target;
        let k: usize = if N < front.len() { N } else { front.len() };
        let rest = front.split_off(k);
        assert(rest.deep_view() =~= model.subrange(k as int, model.len() as int));
        let (mut rest, outcome) = match R::validate(rest) {
            Ok(rest) => (rest, Ok(())),
            Err(e) => {
                let (rest, e) = e.take();
                (rest, Err(e))
            },
        };
        let ghost back = rest@;
        assert(rest.deep_view() =~= model.subrange(k as int, model.len() as int));
        front.append(&mut rest);
        assert(front.deep_view() =~= model) by {
            assert forall|i: int| 0 <= i < model.len() implies front.deep_view()[i] == model[i] by {
                if i >= k {
                    assert(front@[i] == back[i - k]);
                    assert(back[i - k].deep_view() == model.subrange(k as int, model.len() as int)[i - k]);
                }
            }
        }
        match outcome {
            Ok(()) => Ok(front),
            Err(e) => Err(e.with_value(front)),
        }
    }
}

impl<R: Rule> Rule for HeadRule<R> {
    type Item = Vec<R::Item>;

    open spec fn accepts(item: Seq<<R::Item as DeepView>::V>) -> bool {
        item.len() > 0 && R::accepts(item[0])
    }

    open spec fn rejection_reasons(item: Seq<<R::Item as DeepView>::V>) -> Seq<Seq<char>> {
        position_reasons::<R>(item, 0)
    }

    fn validate(target: Vec<R::Item>) -> (r: Result<Vec<R::Item>, Error<Vec<R::Item>>>) {
        check_at::<R>(target, 0)
    }
}

impl<R: Rule, const N: usize> Rule for IndexRule<R, N> {
    type Item = Vec<R::Item>;

    open spec fn accepts(item: Seq<<R::Item as DeepView>::V>) -> bool {
        N < item.len() && R::accepts(item[N as int])
    }

    open spec fn rejection_reasons(item: Seq<<R::Item as DeepView>::V>) -> Seq<Seq<char>> {
        position_reasons::<R>(item, N as int)
    }

    fn validate(target: Vec<R::Item>) -> (r: Result<Vec<R::Item>, Error<Vec<R::Item>>>) {
        check_at::<R>(target, N)
    }
}

/// The reasons for rejecting `item` at `index`: those of `R` for the element
/// there, or that there is none.
pub open spec fn position_reasons<R: Rule>(item: Seq<<R::Item as DeepView>::V>, index: int) -> Seq<
    Seq<char>,
> {
    if 0 <= index < item.len() {
        R::rejection_reasons(item[index])
    } else {
        seq!["the vector has no element at the position"@]
    }
}

/// Applies `R` to the element at `index`, failing where there is none.
fn check_at<R: Rule>(target: Vec<R::Item>, index: usize) -> (r: Result<
    Vec<R::Item>,
    Error<Vec<R::Item>>,
>)
    ensures
        r is Ok <==> (index < target@.len() && R::accepts(target.deep_view()[index as int])),
        r matches Ok(v) ==> v.deep_view() == target.deep_view(),
        r matches Err(e) ==> e.rejected().deep_view() == target.deep_view(),
        r matches Err(e) ==> e.reasons() == position_reasons::<R>(target.deep_view(), index as int),
{
    let ghost model = target.deep_view();
    if index >= target.len() {
        return Err(Error::new(target, String::from_str("the vector has no element at the position")));
    }
    let mut v = target;
    let x = v.remove(index);
    let (x, outcome) = match R::validate(x) {
        Ok(x) => (x, Ok(())),
        Err(e) => {
            let (x, e) = e.take();
            (x, Err(e))
        },
    };
    v.insert(index, x);
    assert(v.deep_view() =~= model);
    match outcome {
        Ok(()) => Ok(v),
        Err(e) => Err(e.with_value(v)),
    }
}

impl<T: DeepView, R: Rule<Item = Vec<T>>> Rule for TailRule<R, T> {
    type Item = Vec<T>;

    open spec fn accepts(item: Seq<T::V>) -> bool {
        item.len() > 0 && R::accepts(item.drop_first())
    }

    open spec fn rejection_reasons(item: Seq<T::V>) -> Seq<Seq<char>> {
        if item.len() > 0 {
            R::rejection_reasons(item.drop_first())
        } else {
            seq!["an empty vector has no tail"@]
        }
    }

    fn validate(target: Vec<T>) -> (r: Result<Vec<T>, Error<Vec<T>>>) {
        let ghost model = target.deep_view();
        if target.len() == 0 {
            return Err(Error::new(target, String::from_str("an empty vector has no tail")));
        }
        let mut rest = target;
        let first = rest.remove(0);
        assert(rest.deep_view() =~= model.drop_first());
        let (mut rest, outcome) = match R::validate(rest) {
            Ok(rest) => (rest, Ok(())),
            Err(e) => {
                let (rest, e) = e.take();
                (rest, Err(e))
            },
        };
        rest.insert(0, first);
        assert(rest.deep_view() =~= model) by {
            assert forall|i: int| 1 <= i < model.len() implies rest.deep_view()[i] == model[i] by {
                assert(model.drop_first()[i - 1] == model[i]);
            }
        }
        match outcome {
            Ok(()) => Ok(rest),
            Err(e) => Err(e.with_value(rest)),
        }
    }
}

/// Runs `R` on every element. Gives back the vector, whether some element
/// passed, and whether every element passed.
fn check_each<R: Rule>(target: Vec<R::Item>) -> (r: (Vec<R::Item>, bool, bool))
    ensures
        r.0.deep_view() == target.deep_view(),
        r.1 == exists|i: int| 0 <= i < target@.len() && R::accepts(#[trigger] target.deep_view()[i]),
        r.2 == forall|i: int| 0 <= i < target@.len() ==> R::accepts(#[trigger] target.deep_view()[i]),
{
    let ghost model = target.deep_view();
    let n = target.len();
    let mut src = target;
    let mut out: Vec<R::Item> = Vec::new();
    let mut some = false;
    let mut every = true;
    let mut i: usize = 0;
    while i < n
        invariant
            n == model.len(),
            i <= n,
            out@.len() == i,
            src@.len() == n - i,
            forall|j: int| 0 <= j < i ==> #[trigger] out@[j].deep_view() == model[j],
            forall|j: int| 0 <= j < n - i ==> #[trigger] src@[j].deep_view() == model[j + i],
            some == exists|j: int| 0 <= j < i && R::accepts(#[trigger] model[j]),
            every == forall|j: int| 0 <= j < i ==> R::accepts(#[trigger] model[j]),
        decreases n - i,
    {
        let ghost before = src@;
        let x = src.remove(0);
        assert(x.deep_view() == model[i as int]);
        match R::validate(x) {
            Ok(y) => {
                some = true;
                out.push(y);
            },
            Err(e) => {
                every = false;
                out.push(e.into_value());
            },
        }
        assert forall|j: int| 0 <= j < n - i - 1 implies #[trigger] src@[j].deep_view() == model[j + i + 1] by {
            assert(src@[j] == before[j + 1]);
        }
        i = i + 1;
    }
    assert(out.deep_view() =~= model);
    (out, some, every)
}

impl<R: Rule> Rule for ExistsRule<R> {
    type Item = Vec<R::Item>;

    open spec fn accepts(item: Seq<<R::Item as DeepView>::V>) -> bool {
        exists|i: int| 0 <= i < item.len() && R::accepts(#[trigger] item[i])
    }

    open spec fn rejection_reasons(item: Seq<<R::Item as DeepView>::V>) -> Seq<Seq<char>> {
        seq!["no element satisfies the rule"@]
    }

    fn validate(target: Vec<R::Item>) -> (r: Result<Vec<R::Item>, Error<Vec<R::Item>>>) {
        let (v, some, _) = check_each::<R>(target);
        if some {
            Ok(v)
        } else {
            Err(Error::new(v, String::from_str("no element satisfies the rule")))
        }
    }
}

impl<R: Rule> Rule for ForAllRule<R> {
    type Item = Vec<R::Item>;

    open spec fn accepts(item: Seq<<R::Item as DeepView>::V>) -> bool {
        forall|i: int| 0 <= i < item.len() ==> R::accepts(#[trigger] item[i])
    }

    open spec fn rejection_reasons(item: Seq<<R::Item as DeepView>::V>) -> Seq<Seq<char>> {
        seq!["some element does not satisfy the rule"@]
    }

    fn validate(target: Vec<R::Item>) -> (r: Result<Vec<R::Item>, Error<Vec<R::Item>>>) {
        let (v, _, every) = check_each::<R>(target);
        if every {
            Ok(v)
        } else {
            Err(Error::new(v, String::from_str("some element does not satisfy the rule")))
        }
    }
}

impl<T: DeepView> Rule for NothingRule<T> {
    type Item = Vec<T>;

    open spec fn accepts(item: Seq<T::V>) -> bool {
        item.len() == 0
    }

    open spec fn rejection_reasons(item: Seq<T::V>) -> Seq<Seq<char>> {
        seq!["the vector is not empty"@]
    }

    fn validate(target: Vec<T>) -> (r: Result<Vec<T>, Error<Vec<T>>>) {
        if target.len() == 0 {
            Ok(target)
        } else {
            Err(Error::new(target, String::from_str("the vector is not empty")))
        }
    }
}

/// `LastRule` accepts exactly the non-empty vectors whose last element `R`
/// accepts.
pub proof fn lemma_last_rule<R: Rule>(s: Seq<<R::Item as DeepView>::V>)
    ensures
        <LastRule<R> as Rule>::accepts(s) == (s.len() > 0 && R::accepts(s.last())),
{
    if s.len() > 0 {
        assert(s.reverse()[0] == s.last());
    }
}

/// `InitRule` accepts exactly the non-empty vectors that `R` accepts once
/// their last element is dropped.
pub proof fn lemma_init_rule<T: DeepView, R: Rule<Item = Vec<T>>>(s: Seq<T::V>)
    ensures
        <InitRule<R, T> as Rule>::accepts(s) == (s.len() > 0 && R::accepts(s.drop_last())),
{
    if s.len() > 0 {
        assert(s.reverse().drop_first().reverse() =~= s.drop_last());
    }
}

/// `SkipLastRule` applies `R` to the vector without its last `N` elements
/// (without all of them, if there are fewer).
pub proof fn lemma_skip_last_rule<T: DeepView, R: Rule<Item = Vec<T>>, const N: usize>(
    s: Seq<T::V>,
)
    ensures
        <SkipLastRule<R, T, N> as Rule>::accepts(s) == R::accepts(
            s.subrange(0, if N < s.len() { s.len() - N } else { 0 }),
        ),
{
    let k: int = if N < s.len() { N as int } else { s.len() as int };
    if s.len() == 0 {
        assert(s.reverse().subrange(k, s.len() as int).reverse() =~= s.subrange(0, 0));
    } else {
        assert(s.reverse().subrange(k, s.len() as int).reverse() =~= s.subrange(0, s.len() - k));
    }
}

/// On an empty vector every positional rule and `ExistsRule` fail, while
/// `ForAllRule` and `NothingRule` succeed.
pub proof fn lemma_empty_vector<T: DeepView, E: Rule<Item = T>, S: Rule<Item = Vec<T>>>()
    ensures
        !<HeadRule<E> as Rule>::accepts(Seq::empty()),
        !<TailRule<S, T> as Rule>::accepts(Seq::empty()),
        !<InitRule<S, T> as Rule>::accepts(Seq::empty()),
        !<LastRule<E> as Rule>::accepts(Seq::empty()),
        !<IndexRule<E, 0> as Rule>::accepts(Seq::empty()),
        !<ExistsRule<E> as Rule>::accepts(Seq::empty()),
        <ForAllRule<E> as Rule>::accepts(Seq::empty()),
        <NothingRule<T> as Rule>::accepts(Seq::empty()),
{
    lemma_last_rule::<E>(Seq::empty());
    lemma_init_rule::<T, S>(Seq::empty());
}

/// On a vector of one element, `HeadRule` and `LastRule` both judge that
/// element, and `TailRule` and `InitRule` both judge the empty vector.
pub proof fn lemma_single_element<T: DeepView, E: Rule<Item = T>, S: Rule<Item = Vec<T>>>(x: T::V)
    ensures
        <HeadRule<E> as Rule>::accepts(seq![x]) == E::accepts(x),
        <LastRule<E> as Rule>::accepts(seq![x]) == E::accepts(x),
        <TailRule<S, T> as Rule>::accepts(seq![x]) == S::accepts(Seq::empty()),
        <InitRule<S, T> as Rule>::accepts(seq![x]) == S::accepts(Seq::empty()),
{
    lemma_last_rule::<E>(seq![x]);
    lemma_init_rule::<T, S>(seq![x]);
    assert(seq![x].drop_first() =~= Seq::<T::V>::empty());
    assert(seq![x].drop_last() =~= Seq::<T::V>::empty());
}

} // verus!
