use crate::stack::{pushed, rest, top};
use vstd::prelude::*;

verus! {

/// The stack `s` after the values of `vs` were pushed onto it, `vs[0]` first.
pub open spec fn pushed_all<T>(s: Seq<T>, vs: Seq<T>) -> Seq<T>
    decreases vs.len(),
{
    if vs.len() == 0 {
        s
    } else {
        pushed_all(pushed(s, vs[0]), vs.skip(1))
    }
}

/// What `n` pops in a row return on the stack `s`, the first pop's result first.
pub open spec fn popped<T>(s: Seq<T>, n: nat) -> Seq<Option<T>>
    decreases n,
{
    if n == 0 {
        Seq::empty()
    } else {
        seq![top(s)] + popped(rest(s), (n - 1) as nat)
    }
}

/// The stack `s` after `n` pops in a row.
pub open spec fn rest_after<T>(s: Seq<T>, n: nat) -> Seq<T>
    decreases n,
{
    if n == 0 {
        s
    } else {
        rest_after(rest(s), (n - 1) as nat)
    }
}

/// Pushing the values of `vs` one after the other puts them on top of `s` in
/// reverse: the last one pushed lies on top.
pub proof fn lemma_pushed_all<T>(s: Seq<T>, vs: Seq<T>)
    ensures
        pushed_all(s, vs) == vs.reverse() + s,
    decreases vs.len(),
{
    if vs.len() == 0 {
        assert(vs.reverse() + s =~= s);
    } else {
        lemma_pushed_all(pushed(s, vs[0]), vs.skip(1));
        assert(vs.skip(1).reverse() + pushed(s, vs[0]) =~= vs.reverse() + s);
    }
}

/// `n` pops in a row hand out the top `n` values from the top down and leave
/// what lay below them. Once the stack is empty every further pop returns
/// `None` and the stack stays empty.
pub proof fn lemma_popped<T>(s: Seq<T>, n: nat)
    ensures
        popped(s, n).len() == n,
        forall|i: int| 0 <= i < n && i < s.len() ==> #[trigger] popped(s, n)[i] == Some(s[i]),
        forall|i: int| s.len() <= i < n ==> #[trigger] popped(s, n)[i] is None,
        n <= s.len() ==> rest_after(s, n) == s.skip(n as int),
        n >= s.len() ==> rest_after(s, n) == Seq::<T>::empty(),
    decreases n,
{
    if n == 0 {
        assert(s.skip(0) =~= s);
    } else {
        let m = (n - 1) as nat;
        lemma_popped(rest(s), m);
        assert forall|i: int| 0 <= i < n && i < s.len() implies #[trigger] popped(s, n)[i]
            == Some(s[i]) by {
            if i > 0 {
                assert(popped(s, n)[i] == popped(rest(s), m)[i - 1]);
            }
        }
        assert forall|i: int| s.len() <= i < n implies #[trigger] popped(s, n)[i] is None by {
            if i > 0 {
                assert(popped(s, n)[i] == popped(rest(s), m)[i - 1]);
            }
        }
        if n <= s.len() {
            assert(rest(s).skip(m as int) =~= s.skip(n as int));
        }
        if n >= s.len() && s.len() == 0 {
            assert(rest(s) =~= Seq::<T>::empty());
        }
    }
}

/// Last in, first out: after the values of `vs` were pushed onto an empty
/// stack, as many pops return them in reverse, the last one pushed first, the
/// stack is empty again, and one more pop returns `None`.
pub proof fn lemma_push_then_pop_reverses<T>(vs: Seq<T>)
    ensures
        popped(pushed_all(Seq::empty(), vs), vs.len()).len() == vs.len(),
        forall|i: int|
            0 <= i < vs.len() ==> #[trigger] popped(pushed_all(Seq::empty(), vs), vs.len())[i]
                == Some(vs[vs.len() - 1 - i]),
        rest_after(pushed_all(Seq::empty(), vs), vs.len()) == Seq::<T>::empty(),
        top(rest_after(pushed_all(Seq::empty(), vs), vs.len())) is None,
{
    let s = pushed_all(Seq::empty(), vs);
    lemma_pushed_all(Seq::empty(), vs);
    assert(vs.reverse() + Seq::<T>::empty() =~= vs.reverse());
    lemma_popped(s, vs.len());
}

/// The same on a stack that already holds values: pushing the values of `vs`
/// and popping as many returns them in reverse and leaves the stack as it was.
pub proof fn lemma_push_then_pop_restores<T>(s: Seq<T>, vs: Seq<T>)
    ensures
        forall|i: int|
            0 <= i < vs.len() ==> #[trigger] popped(pushed_all(s, vs), vs.len())[i] == Some(
                vs[vs.len() - 1 - i],
            ),
        rest_after(pushed_all(s, vs), vs.len()) == s,
{
    lemma_pushed_all(s, vs);
    lemma_popped(pushed_all(s, vs), vs.len());
    assert((vs.reverse() + s).skip(vs.len() as int) =~= s);
}

/// After a push the top value is the one pushed. A look at the top changes
/// nothing, so a second look finds the same value.
pub proof fn lemma_top_after_push<T>(s: Seq<T>, v: T)
    ensures
        top(pushed(s, v)) == Some(v),
        rest(pushed(s, v)) == s,
{
    assert(pushed(s, v).skip(1) =~= s);
}

/// Writing `w` over the top value of a stack that has one makes `w` the top
/// value; the depth and all that lies below stay as they were.
pub proof fn lemma_top_after_write<T>(s: Seq<T>, w: T)
    requires
        s.len() > 0,
    ensures
        top(s.update(0, w)) == Some(w),
        s.update(0, w).len() == s.len(),
        rest(s.update(0, w)) == rest(s),
        s.update(0, w) == pushed(rest(s), w),
{
    assert(s.update(0, w).skip(1) =~= s.skip(1));
    assert(s.update(0, w) =~= pushed(rest(s), w));
}

/// A push makes the stack one deeper, so never empty; a pop makes a stack
/// that holds a value one less deep and leaves an empty one empty. A stack is
/// therefore empty exactly when every push has had its pop: when it is new,
/// and right after the pop of its last value.
pub proof fn lemma_depth<T>(s: Seq<T>, v: T)
    ensures
        Seq::<T>::empty().len() == 0,
        pushed(s, v).len() == s.len() + 1,
        s.len() > 0 ==> rest(s).len() == s.len() - 1,
        s.len() == 0 ==> rest(s).len() == 0,
        rest(s).len() == 0 <==> s.len() <= 1,
{
}

/// After the values of `vs` were pushed onto an empty stack and `k` of them
/// popped again, the stack is empty exactly if `k` is the number pushed.
pub proof fn lemma_empty_when_balanced<T>(vs: Seq<T>, k: nat)
    requires
        k <= vs.len(),
    ensures
        rest_after(pushed_all(Seq::empty(), vs), k).len() == vs.len() - k,
        rest_after(pushed_all(Seq::empty(), vs), k).len() == 0 <==> k == vs.len(),
{
    lemma_pushed_all(Seq::empty(), vs);
    lemma_popped(pushed_all(Seq::empty(), vs), k);
}

/// Taking values off the top until none is left, by pops or by a traversal,
/// hands out the stack's values from the top down, each once, and leaves
/// nothing behind; whatever is asked for after that is `None`.
pub proof fn lemma_drained_top_down<T>(s: Seq<T>, extra: nat)
    ensures
        popped(s, s.len() + extra).len() == s.len() + extra,
        forall|i: int| 0 <= i < s.len() ==> #[trigger] popped(s, s.len() + extra)[i] == Some(s[i]),
        forall|i: int|
            s.len() <= i < s.len() + extra ==> #[trigger] popped(s, s.len() + extra)[i] is None,
        rest_after(s, s.len() + extra) == Seq::<T>::empty(),
{
    lemma_popped(s, s.len() + extra);
}

} // verus!
