//! A companion set of positions into a mutable ordered sequence, for
//! referencing elements by identity rather than by position.
//!
//! A caller keeps an [`IndexSet`] beside a sequence it edits through
//! [`VecMutation`]s, and feeds every applied mutation to
//! [`IndexSet::on_mutation`]: positions then keep naming the same
//! elements. Appending or replacing in place moves nothing; removing an
//! element drops its position and shifts the later ones down; replacing
//! the whole sequence clears the set, since no element keeps its
//! identity.

use vstd::prelude::*;

use crate::mutation::VecMutation;

verus! {

/// The positions a sequence of index values holds.
pub open spec fn positions_of(s: Seq<usize>) -> Set<int> {
    Set::new(|x: int| exists|j: int| 0 <= j < s.len() && s[j] == x)
}

/// Where position `v` moves when the element at `k` is removed: the
/// position `k` itself disappears, later positions shift down by one,
/// earlier ones stand.
pub open spec fn position_after_removal(v: int, k: int) -> Option<int> {
    if v == k {
        Option::None
    } else if v > k {
        Option::Some(v - 1)
    } else {
        Option::Some(v)
    }
}

/// The whole set after the element at `k` is removed.
pub open spec fn positions_after_removal(s: Set<int>, k: int) -> Set<int> {
    Set::new(|x: int| (x < k && s.contains(x)) || (x >= k && s.contains(x + 1)))
}

/// A set of positions into an ordered sequence.
#[derive(Debug)]
pub struct IndexSet {
    indices: Vec<usize>,
}

impl View for IndexSet {
    type V = Set<int>;

    closed spec fn view(&self) -> Set<int> {
        positions_of(self.indices@)
    }
}

impl IndexSet {
    /// No two stored values are equal.
    pub closed spec fn wf(self) -> bool {
        forall|a: int, b: int|
            0 <= a < b < self.indices@.len() ==> self.indices@[a] != self.indices@[b]
    }

    /// The empty set of positions.
    pub fn new() -> (r: IndexSet)
        ensures
            r@ == Set::<int>::empty(),
            r.wf(),
    {
        let r = IndexSet { indices: Vec::new() };
        proof {
            assert(r@ =~= Set::<int>::empty());
        }
        r
    }

    /// Whether `i` is one of the referenced positions.
    pub fn contains(&self, i: usize) -> (b: bool)
        ensures
            b == self@.contains(i as int),
    {
        let mut j: usize = 0;
        while j < self.indices.len()
            invariant
                j <= self.indices.len(),
                forall|m: int| 0 <= m < j ==> self.indices@[m] != i,
            decreases self.indices.len() - j,
        {
            if self.indices[j] == i {
                proof {
                    assert(self.indices@[j as int] == i);
                }
                return true;
            }
            j += 1;
        }
        proof {
            assert(!self@.contains(i as int)) by {
                if self@.contains(i as int) {
                    let m = choose|m: int|
                        0 <= m < self.indices@.len() && self.indices@[m] == i as int;
                    assert(self.indices@[m] != i);
                }
            }
        }
        false
    }

    /// Reference position `i`.
    pub fn insert(&mut self, i: usize)
        requires
            old(self).wf(),
        ensures
            final(self)@ == old(self)@.insert(i as int),
            final(self).wf(),
    {
        if self.contains(i) {
            proof {
                assert(self@ =~= self@.insert(i as int));
            }
            return ;
        }
        let ghost pre = self.indices@;
        self.indices.push(i);
        proof {
            assert forall|x: int| final(self)@.contains(x) == old(self)@.insert(i as int).contains(
                x,
            ) by {
                if x == i {
                    assert(self.indices@[pre.len() as int] == i);
                } else {
                    if positions_of(self.indices@).contains(x) {
                        let j = choose|j: int|
                            0 <= j < self.indices@.len() && self.indices@[j] == x;
                        assert(pre[j] == x);
                    }
                    if positions_of(pre).contains(x) {
                        let j = choose|j: int| 0 <= j < pre.len() && pre[j] == x;
                        assert(self.indices@[j] == x);
                    }
                }
            }
            assert(final(self)@ =~= old(self)@.insert(i as int));
            assert forall|a: int, b: int|
                0 <= a < b < self.indices@.len() implies self.indices@[a] != self.indices@[b] by {
                if b == pre.len() {
                    assert(self.indices@[a] == pre[a]);
                }
            }
        }
    }

    /// Drop position `i`, if it is referenced.
    pub fn remove(&mut self, i: usize)
        requires
            old(self).wf(),
        ensures
            final(self)@ == old(self)@.remove(i as int),
            final(self).wf(),
    {
        let mut j: usize = 0;
        while j < self.indices.len()
            invariant
                j <= self.indices.len(),
                self.indices@ == old(self).indices@,
                old(self).wf(),
                forall|m: int| 0 <= m < j ==> self.indices@[m] != i,
            decreases self.indices.len() - j,
        {
            if self.indices[j] == i {
                let ghost pre = self.indices@;
                self.indices.remove(j);
                proof {
                    assert forall|x: int| final(self)@.contains(x) == old(self)@.remove(
                        i as int,
                    ).contains(x) by {
                        if positions_of(self.indices@).contains(x) {
                            let m = choose|m: int|
                                0 <= m < self.indices@.len() && self.indices@[m] == x;
                            if m < j {
                                assert(pre[m] == x);
                            } else {
                                assert(pre[m + 1] == x);
                            }
                        }
                        if x != i && positions_of(pre).contains(x) {
                            let m = choose|m: int| 0 <= m < pre.len() && pre[m] == x;
                            if m < j {
                                assert(self.indices@[m] == x);
                            } else {
                                assert(m != j);
                                assert(self.indices@[m - 1] == x);
                            }
                        }
                    }
                    assert(final(self)@ =~= old(self)@.remove(i as int));
                    assert forall|a: int, b: int|
                        0 <= a < b < self.indices@.len() implies self.indices@[a]
                        != self.indices@[b] by {
                        let a0: int = if a < j {
                            a
                        } else {
                            a + 1
                        };
                        let b0: int = if b < j {
                            b
                        } else {
                            b + 1
                        };
                        assert(self.indices@[a] == pre[a0]);
                        assert(self.indices@[b] == pre[b0]);
                    }
                }
                return ;
            }
            j += 1;
        }
        proof {
            assert(!self@.contains(i as int)) by {
                if self@.contains(i as int) {
                    let m = choose|m: int|
                        0 <= m < self.indices@.len() && self.indices@[m] == i as int;
                    assert(self.indices@[m] != i);
                }
            }
            assert(self@ =~= self@.remove(i as int));
        }
    }

    /// Adjust the referenced positions for one applied mutation.
    pub fn on_mutation<T>(&mut self, m: &VecMutation<T>)
        requires
            old(self).wf(),
        ensures
            final(self).wf(),
            m matches VecMutation::Push(_) ==> final(self)@ == old(self)@,
            m matches VecMutation::Update(..) ==> final(self)@ == old(self)@,
            m matches VecMutation::RemoveOne(k) ==> final(self)@ == positions_after_removal(
                old(self)@,
                k as int,
            ),
            m matches VecMutation::SetAll(_) ==> final(self)@ == Set::<int>::empty(),
    {
        match m {
            VecMutation::Push(_) => {}
            VecMutation::Update(_, _) => {}
            VecMutation::SetAll(_) => {
                self.indices = Vec::new();
                proof {
                    assert(self@ =~= Set::<int>::empty());
                }
            }
            VecMutation::RemoveOne(k) => {
                let k = *k;
                let mut out = IndexSet::new();
                let mut j: usize = 0;
                while j < self.indices.len()
                    invariant
                        j <= self.indices.len(),
                        self.indices@ == old(self).indices@,
                        out.wf(),
                        forall|x: int|
                            out@.contains(x) == (exists|t: int|
                                0 <= t < j && position_after_removal(
                                    self.indices@[t] as int,
                                    k as int,
                                ) == Option::Some(x)),
                    decreases self.indices.len() - j,
                {
                    let ghost pre = out@;
                    let v = self.indices[j];
                    if v != k {
                        let mapped = if v > k {
                            v - 1
                        } else {
                            v
                        };
                        out.insert(mapped);
                        proof {
                            assert(position_after_removal(self.indices@[j as int] as int, k as int)
                                == Option::Some(mapped as int));
                        }
                    }
                    proof {
                        assert forall|x: int| out@.contains(x) == (exists|t: int|
                            0 <= t < j + 1 && position_after_removal(
                                self.indices@[t] as int,
                                k as int,
                            ) == Option::Some(x)) by {
                            if out@.contains(x) {
                                if pre.contains(x) {
                                    let t = choose|t: int|
                                        0 <= t < j && position_after_removal(
                                            self.indices@[t] as int,
                                            k as int,
                                        ) == Option::Some(x);
                                    assert(0 <= t < j + 1 && position_after_removal(
                                        self.indices@[t] as int,
                                        k as int,
                                    ) == Option::Some(x));
                                } else {
                                    assert(position_after_removal(
                                        self.indices@[j as int] as int,
                                        k as int,
                                    ) == Option::Some(x));
                                }
                            }
                            if exists|t: int|
                                0 <= t < j + 1 && position_after_removal(
                                    self.indices@[t] as int,
                                    k as int,
                                ) == Option::Some(x) {
                                let t = choose|t: int|
                                    0 <= t < j + 1 && position_after_removal(
                                        self.indices@[t] as int,
                                        k as int,
                                    ) == Option::Some(x);
                                if t < j {
                                    assert(pre.contains(x));
                                }
                            }
                        }
                    }
                    j += 1;
                }
                proof {
                    let pre_set = old(self)@;
                    assert forall|x: int| out@.contains(x) == positions_after_removal(
                        pre_set,
                        k as int,
                    ).contains(x) by {
                        if out@.contains(x) {
                            let t = choose|t: int|
                                0 <= t < self.indices@.len() && position_after_removal(
                                    self.indices@[t] as int,
                                    k as int,
                                ) == Option::Some(x);
                            let v = self.indices@[t] as int;
                            if v > k {
                                assert(pre_set.contains(x + 1));
                            } else {
                                assert(pre_set.contains(x));
                            }
                        }
                        if positions_after_removal(pre_set, k as int).contains(x) {
                            if x < k {
                                let t = choose|t: int|
                                    0 <= t < self.indices@.len() && self.indices@[t] == x;
                                assert(position_after_removal(self.indices@[t] as int, k as int)
                                    == Option::Some(x));
                            } else {
                                let t = choose|t: int|
                                    0 <= t < self.indices@.len() && self.indices@[t] == x + 1;
                                assert(position_after_removal(self.indices@[t] as int, k as int)
                                    == Option::Some(x));
                            }
                        }
                    }
                    assert(out@ =~= positions_after_removal(pre_set, k as int));
                }
                self.indices = out.indices;
            }
        }
    }

    /// The referenced positions, in some order.
    pub fn to_indices(&self) -> (r: Vec<usize>)
        ensures
            positions_of(r@) == self@,
    {
        let mut r: Vec<usize> = Vec::new();
        let mut j: usize = 0;
        while j < self.indices.len()
            invariant
                j <= self.indices.len(),
                r@ == self.indices@.take(j as int),
            decreases self.indices.len() - j,
        {
            r.push(self.indices[j]);
            proof {
                assert(r@ =~= self.indices@.take(j + 1));
            }
            j += 1;
        }
        proof {
            assert(r@ =~= self.indices@);
        }
        r
    }
}

} // verus!
