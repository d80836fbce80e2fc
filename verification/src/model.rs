//! The stack as a sequence: index 0 is the top, the element pushed last.
//!
//! The contracts of the list and of its iterators are written over these
//! functions, and the laws below are proved about them.

use vstd::prelude::*;

verus! {

/// The stack that results from pushing `elem` on `s`.
pub open spec fn pushed<T>(s: Seq<T>, elem: T) -> Seq<T> {
    seq![elem] + s
}

/// The element on top of `s`: what a pop of `s` returns.
pub open spec fn top<T>(s: Seq<T>) -> Option<T> {
    if s.len() == 0 {
        None
    } else {
        Some(s[0])
    }
}

/// The stack that a pop leaves of `s`. An empty stack stays empty.
pub open spec fn popped<T>(s: Seq<T>) -> Seq<T> {
    if s.len() == 0 {
        s
    } else {
        s.drop_first()
    }
}

/// The stack after the values of `vs` have been pushed on `s` one by one,
/// `vs[0]` first.
pub open spec fn pushed_all<T>(s: Seq<T>, vs: Seq<T>) -> Seq<T>
    decreases vs.len(),
{
    if vs.len() == 0 {
        s
    } else {
        pushed_all(pushed(s, vs[0]), vs.drop_first())
    }
}

/// What `n` successive pops of `s` return, the first pop first.
pub open spec fn pops<T>(s: Seq<T>, n: nat) -> Seq<Option<T>>
    decreases n,
{
    if n == 0 {
        Seq::empty()
    } else {
        seq![top(s)] + pops(popped(s), (n - 1) as nat)
    }
}

/// The stack that `n` successive pops leave of `s`.
pub open spec fn popped_times<T>(s: Seq<T>, n: nat) -> Seq<T>
    decreases n,
{
    if n == 0 {
        s
    } else {
        popped_times(popped(s), (n - 1) as nat)
    }
}

/// A pop undoes a push: it returns the element that was pushed and leaves
/// the stack that was there before.
pub proof fn lemma_push_then_pop<T>(s: Seq<T>, elem: T)
    ensures
        top(pushed(s, elem)) == Some(elem),
        popped(pushed(s, elem)) == s,
{
}

/// The top of a stack is what the next pop returns, and looking at it takes
/// nothing away: an empty stack has no top, and any other stack is its top
/// on what a pop leaves of it.
pub proof fn lemma_top_is_next_pop<T>(s: Seq<T>)
    ensures
        pops(s, 1) == seq![top(s)],
        s.len() == 0 ==> top(s) is None && popped(s) == s,
        s.len() > 0 ==> top(s) is Some && pushed(popped(s), top(s)->0) == s,
{
    assert(pops(s, 1) == seq![top(s)]) by {
        reveal_with_fuel(pops, 2);
    }
}

/// Pushing a run of values stacks them in reverse order on what was there.
pub proof fn lemma_pushed_all<T>(s: Seq<T>, vs: Seq<T>)
    ensures
        pushed_all(s, vs) == vs.reverse() + s,
    decreases vs.len(),
{
    if vs.len() > 0 {
        lemma_pushed_all(pushed(s, vs[0]), vs.drop_first());
    }
}

/// Successive pops walk the stack from the top: the pop numbered `i` returns
/// `s[i]` as long as there is one, and nothing after that. What is left is
/// the stack without its first `n` elements.
pub proof fn lemma_pops<T>(s: Seq<T>, n: nat)
    ensures
        pops(s, n).len() == n,
        forall|i: int|
            0 <= i < n ==> #[trigger] pops(s, n)[i] == (if i < s.len() {
                Some(s[i])
            } else {
                None
            }),
        popped_times(s, n) == (if n <= s.len() {
            s.skip(n as int)
        } else {
            Seq::empty()
        }),
    decreases n,
{
    if n > 0 {
        lemma_pops(popped(s), (n - 1) as nat);
    }
}

/// Last in, first out. When `vs[0]`, `vs[1]`, ... are pushed on an empty
/// stack, the pops that follow return them in reverse order, the value pushed
/// last first. After as many pops as there were pushes the stack is empty
/// again, and each of the `extra` pops beyond that returns nothing.
pub proof fn lemma_pops_reverse_pushes<T>(vs: Seq<T>, extra: nat)
    ensures
        pushed_all(Seq::empty(), vs) == vs.reverse(),
        pops(pushed_all(Seq::empty(), vs), vs.len() + extra) == vs.reverse().map_values(
            |v: T| Some(v),
        ) + Seq::new(extra, |i: int| None::<T>),
        popped_times(pushed_all(Seq::empty(), vs), vs.len() + extra) == Seq::<T>::empty(),
{
    lemma_pushed_all(Seq::empty(), vs);
    lemma_pops(pushed_all(Seq::empty(), vs), vs.len() + extra);
}

} // verus!
