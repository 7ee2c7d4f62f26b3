//! A small associative table for the handful of methods a path answers to.

use vstd::prelude::*;
use crate::server::method::Method;

verus! {

/// A `SmallVec` of pairs: inline storage for up to sixteen of them, on the
/// heap beyond that.
#[verifier::external_body]
pub struct Slots {
    inner: smallvec::SmallVec<[(Method, usize); 16]>,
}

/// The pairs that the storage holds, first pushed first.
pub uninterp spec fn slots(v: Slots) -> Seq<(Method, usize)>;

/// `SmallVec::new`: storage that holds nothing.
#[verifier::external_body]
fn slots_new() -> (v: Slots)
    ensures
        slots(v) == Seq::<(Method, usize)>::empty(),
{
    Slots { inner: smallvec::SmallVec::new() }
}

/// `SmallVec::len`: the number of pairs held.
#[verifier::external_body]
fn slots_len(v: &Slots) -> (n: usize)
    ensures
        n == slots(*v).len(),
{
    v.inner.len()
}

/// Indexing through `SmallVec`'s `Deref` to a slice: the pair at `index`,
/// which must be one of those held.
#[verifier::external_body]
fn slots_at(v: &Slots, index: usize) -> (pair: &(Method, usize))
    requires
        index < slots(*v).len(),
    ensures
        *pair == slots(*v)[index as int],
{
    &v.inner[index]
}

/// `SmallVec::remove`: takes the pair at `index`, which must be one of
/// those held, out of the storage and closes the gap.
#[verifier::external_body]
fn slots_remove(v: &mut Slots, index: usize) -> (pair: (Method, usize))
    requires
        index < slots(*old(v)).len(),
    ensures
        pair == slots(*old(v))[index as int],
        slots(*final(v)) == slots(*old(v)).remove(index as int),
{
    v.inner.remove(index)
}

/// `SmallVec::push`: appends the pair. As with `Vec::push`, only a
/// vector that has outgrown the address space stops it.
#[verifier::external_body]
fn slots_push(v: &mut Slots, pair: (Method, usize))
    ensures
        slots(*final(v)) == slots(*old(v)).push(pair),
{
    v.inner.push(pair)
}

/// A table from methods to entry numbers, searched front to back.
///
/// It is meant for the few methods that one path answers to: a lookup
/// compares tokens one by one, which beats hashing at that size.
pub struct SmallMap {
    inner: Slots,
}

impl View for SmallMap {
    type V = Map<Seq<char>, usize>;

    /// What the table maps: each method token to its entry number.
    closed spec fn view(&self) -> Map<Seq<char>, usize> {
        Map::new(
            |token: Seq<char>| holds(slots(self.inner), token),
            |token: Seq<char>| slots(self.inner)[place(slots(self.inner), token)].1,
        )
    }
}

/// Some pair of `pairs` carries `token`.
spec fn holds(pairs: Seq<(Method, usize)>, token: Seq<char>) -> bool {
    exists|i: int| 0 <= i < pairs.len() && (#[trigger] pairs[i]).0@ == token
}

/// An index at which `pairs` carries `token`, if any does.
spec fn place(pairs: Seq<(Method, usize)>, token: Seq<char>) -> int {
    choose|i: int| 0 <= i < pairs.len() && (#[trigger] pairs[i]).0@ == token
}

/// No token occurs in two pairs.
spec fn distinct(pairs: Seq<(Method, usize)>) -> bool {
    forall|i: int, j: int|
        0 <= i < j < pairs.len() ==> (#[trigger] pairs[i]).0@ != (#[trigger] pairs[j]).0@
}

impl SmallMap {
    #[verifier::type_invariant]
    spec fn well_formed(self) -> bool {
        distinct(slots(self.inner))
    }

    /// The empty table.
    pub fn new() -> (table: SmallMap)
        ensures
            table@ == Map::<Seq<char>, usize>::empty(),
    {
        let table = SmallMap { inner: slots_new() };
        assert(table@ =~= Map::<Seq<char>, usize>::empty());
        table
    }

    /// The index of the pair that carries the token of `key`.
    fn position(&self, key: &Method) -> (found: Option<usize>)
        ensures
            match found {
                Some(i) => i < slots(self.inner).len() && slots(self.inner)[i as int].0@ == key@,
                None => !holds(slots(self.inner), key@),
            },
    {
        let n: usize = slots_len(&self.inner);
        let mut i: usize = 0;
        while i < n
            invariant
                n == slots(self.inner).len(),
                i <= n,
                forall|j: int| 0 <= j < i ==> (#[trigger] slots(self.inner)[j]).0@ != key@,
            decreases n - i,
        {
            if slots_at(&self.inner, i).0.same(key) {
                return Some(i);
            }
            i += 1;
        }
        None
    }

    /// Maps `key` to `value` and returns what `key` was mapped to before.
    pub fn insert(&mut self, key: Method, value: usize) -> (previous: Option<usize>)
        ensures
            final(self)@ == old(self)@.insert(key@, value),
            previous == (if old(self)@.contains_key(key@) {
                Some(old(self)@[key@])
            } else {
                None::<usize>
            }),
    {
        proof {
            use_type_invariant(&*self);
        }
        let ghost before = slots(self.inner);
        let ghost token = key@;
        let found = self.position(&key);
        // The pairs leave the table while they are rearranged, so that the
        // table is well formed at every step.
        let mut pairs = slots_new();
        core::mem::swap(&mut self.inner, &mut pairs);
        let previous = match found {
            Some(i) => {
                let pair = slots_remove(&mut pairs, i);
                assert(before[i as int].0@ == token);
                assert(place(before, token) == i as int);
                Some(pair.1)
            },
            None => None,
        };
        let ghost kept = slots(pairs);
        assert(distinct(kept) && !holds(kept, token)) by {
            assert forall|j: int| 0 <= j < kept.len() implies (#[trigger] kept[j]).0@ != token by {
                if previous is Some {
                    let i = place(before, token);
                    if j < i {
                        assert(kept[j] == before[j]);
                    } else {
                        assert(kept[j] == before[j + 1]);
                    }
                } else {
                    assert(kept[j] == before[j]);
                }
            }
            assert forall|a: int, b: int| 0 <= a < b < kept.len() implies (#[trigger] kept[a]).0@
                != (#[trigger] kept[b]).0@ by {
                if previous is Some {
                    let i = place(before, token);
                    let a0 = if a < i { a } else { a + 1 };
                    let b0 = if b < i { b } else { b + 1 };
                    assert(kept[a] == before[a0]);
                    assert(kept[b] == before[b0]);
                }
            }
        }
        slots_push(&mut pairs, (key, value));
        proof {
            let after = slots(pairs);
            let last = kept.len() as int;
            assert(after[last].0@ == token);
            assert forall|t: Seq<char>| #[trigger] holds(after, t) <==> (t == token || holds(before, t)) by {
                if holds(after, t) && t != token {
                    let j = place(after, t);
                    assert(j < last);
                    assert(after[j] == kept[j]);
                    if previous is Some {
                        let i = place(before, token);
                        let j0 = if j < i { j } else { j + 1 };
                        assert(kept[j] == before[j0]);
                    }
                }
                if holds(before, t) && t != token {
                    let j0 = place(before, t);
                    if previous is Some {
                        let i = place(before, token);
                        let j = if j0 < i { j0 } else { j0 - 1 };
                        assert(kept[j] == before[j0]);
                        assert(after[j] == kept[j]);
                    } else {
                        assert(after[j0] == kept[j0]);
                    }
                }
            }
            assert forall|t: Seq<char>| holds(after, t) implies #[trigger] after[place(after, t)].1 == (
            if t == token {
                value
            } else {
                before[place(before, t)].1
            }) by {
                let j = place(after, t);
                if t == token {
                    if j < last {
                        assert(after[j] == kept[j]);
                    }
                } else {
                    assert(after[j] == kept[j]);
                    let j0 = if previous is Some && j >= place(before, token) { j + 1 } else { j };
                    assert(kept[j] == before[j0]);
                    assert(before[j0].0@ == t);
                    let q = place(before, t);
                    assert(q == j0) by {
                        if q < j0 {
                            assert(before[q].0@ != before[j0].0@);
                        } else if j0 < q {
                            assert(before[j0].0@ != before[q].0@);
                        }
                    }
                }
            }
            assert forall|a: int, b: int| 0 <= a < b < after.len() implies (#[trigger] after[a]).0@
                != (#[trigger] after[b]).0@ by {
                assert(after[a] == kept[a]);
                if b < last {
                    assert(after[b] == kept[b]);
                }
            }
        }
        core::mem::swap(&mut self.inner, &mut pairs);
        assert(self@ =~= old(self)@.insert(token, value));
        previous
    }

    /// What `key` is mapped to.
    pub fn get(&self, key: &Method) -> (found: Option<usize>)
        ensures
            found == (if self@.contains_key(key@) {
                Some(self@[key@])
            } else {
                None::<usize>
            }),
    {
        proof {
            use_type_invariant(self);
        }
        match self.position(key) {
            Some(i) => {
                let ghost pairs = slots(self.inner);
                let ghost q = place(pairs, key@);
                assert(q == i as int) by {
                    if q < i {
                        assert(pairs[q].0@ != pairs[i as int].0@);
                    } else if i < q {
                        assert(pairs[i as int].0@ != pairs[q].0@);
                    }
                }
                Some(slots_at(&self.inner, i).1)
            },
            None => None,
        }
    }
}

impl Default for SmallMap {
    /// The empty table.
    fn default() -> (table: SmallMap)
        ensures
            table@ == Map::<Seq<char>, usize>::empty(),
    {
        SmallMap::new()
    }
}

} // verus!
