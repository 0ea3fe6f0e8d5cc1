//! What a series of pulls, from the front and from the back in any order,
//! does to a sequence.
use vstd::prelude::*;
use crate::sequence::{after_back, after_front, back_of, front_of};

verus! {

/// What a pull produces from `s`: from the back if `back`, else from the
/// front.
pub open spec fn pulled<T>(s: Seq<T>, back: bool) -> Option<T> {
    if back {
        back_of(s)
    } else {
        front_of(s)
    }
}

/// What is left of `s` after a pull: from the back if `back`, else from the
/// front.
pub open spec fn after_pull<T>(s: Seq<T>, back: bool) -> Seq<T> {
    if back {
        after_back(s)
    } else {
        after_front(s)
    }
}

/// What is left of `s` after one pull for each entry of `dirs`, in order:
/// from the back where the entry is `true`, else from the front.
pub open spec fn after_pulls<T>(s: Seq<T>, dirs: Seq<bool>) -> Seq<T>
    decreases dirs.len(),
{
    if dirs.len() == 0 {
        s
    } else {
        after_pulls(after_pull(s, dirs.first()), dirs.drop_first())
    }
}

/// The elements that the pulls `dirs` take from the front of `s`, in the
/// order in which they are produced.
pub open spec fn front_pulls<T>(s: Seq<T>, dirs: Seq<bool>) -> Seq<T>
    decreases dirs.len(),
{
    if dirs.len() == 0 {
        Seq::empty()
    } else {
        let rest = front_pulls(after_pull(s, dirs.first()), dirs.drop_first());
        match pulled(s, dirs.first()) {
            Some(x) if !dirs.first() => seq![x] + rest,
            _ => rest,
        }
    }
}

/// The elements that the pulls `dirs` take from the back of `s`, in the
/// order in which they are produced.
pub open spec fn back_pulls<T>(s: Seq<T>, dirs: Seq<bool>) -> Seq<T>
    decreases dirs.len(),
{
    if dirs.len() == 0 {
        Seq::empty()
    } else {
        let rest = back_pulls(after_pull(s, dirs.first()), dirs.drop_first());
        match pulled(s, dirs.first()) {
            Some(x) if dirs.first() => seq![x] + rest,
            _ => rest,
        }
    }
}

/// Pulls in any order of directions produce every element once and none
/// twice: what was taken from the front, then what is left, then what was
/// taken from the back in reverse, is the sequence the pulls began with.
/// Each pull produces one element as long as there is one.
pub proof fn lemma_pulls_partition<T>(s: Seq<T>, dirs: Seq<bool>)
    ensures
        front_pulls(s, dirs) + after_pulls(s, dirs) + back_pulls(s, dirs).reverse() == s,
        front_pulls(s, dirs).len() + back_pulls(s, dirs).len() == if dirs.len() <= s.len() {
            dirs.len()
        } else {
            s.len()
        },
        after_pulls(s, dirs).len() == if dirs.len() <= s.len() {
            s.len() - dirs.len()
        } else {
            0
        },
    decreases dirs.len(),
{
    let whole = front_pulls(s, dirs) + after_pulls(s, dirs) + back_pulls(s, dirs).reverse();
    assert(whole.len() == front_pulls(s, dirs).len() + after_pulls(s, dirs).len() + back_pulls(
        s,
        dirs,
    ).len());
    if dirs.len() == 0 {
        assert(whole =~= s);
    } else {
        let back = dirs.first();
        let next = after_pull(s, back);
        let rest = dirs.drop_first();
        lemma_pulls_partition(next, rest);
        let f = front_pulls(next, rest);
        let l = after_pulls(next, rest);
        let b = back_pulls(next, rest);
        if s.len() == 0 {
        } else if back {
            assert((seq![s.last()] + b).reverse() =~= b.reverse() + seq![s.last()]);
            assert(f + l + (b.reverse() + seq![s.last()]) =~= (f + l + b.reverse()) + seq![
                s.last(),
            ]);
            assert(s.drop_last() + seq![s.last()] =~= s);
        } else {
            assert((seq![s.first()] + f) + l + b.reverse() =~= seq![s.first()] + (f + l
                + b.reverse()));
            assert(seq![s.first()] + s.drop_first() =~= s);
        }
    }
}

/// Once there are at least as many pulls as elements, every element has been
/// produced and nothing is left.
pub proof fn lemma_pulls_exhaust<T>(s: Seq<T>, dirs: Seq<bool>)
    requires
        dirs.len() >= s.len(),
    ensures
        after_pulls(s, dirs).len() == 0,
        front_pulls(s, dirs).len() + back_pulls(s, dirs).len() == s.len(),
        front_pulls(s, dirs) + back_pulls(s, dirs).reverse() == s,
{
    lemma_pulls_partition(s, dirs);
    let f = front_pulls(s, dirs);
    let l = after_pulls(s, dirs);
    let b = back_pulls(s, dirs);
    assert((f + l + b.reverse()).len() == f.len() + l.len() + b.len());
    assert(f + l + b.reverse() =~= f + b.reverse());
}

} // verus!
