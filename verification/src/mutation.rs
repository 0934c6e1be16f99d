//! The ordered-collection mutation primitive.
//!
//! Edits to an ordered sequence are expressed as values of [`VecMutation`]
//! rather than as closures, so they can be logged, replayed and inspected
//! by observers. Applying a mutation is deterministic; a whole log of
//! mutations can be replayed from any snapshot.

use vstd::prelude::*;

verus! {

/// A typed, replayable edit to an ordered sequence.
pub enum VecMutation<T> {
    /// Append a value at the end.
    Push(T),
    /// Remove the element at an index. Out-of-range indices leave the
    /// sequence unchanged; callers are expected to avoid them.
    RemoveOne(usize),
    /// Replace the element at an index in place. Out-of-range indices
    /// leave the sequence unchanged.
    Update(usize, T),
    /// Replace the whole sequence, used for edits that affect trailing
    /// history.
    SetAll(Vec<T>),
}

impl<T> VecMutation<T> {
    /// The sequence that applying this mutation to `s` produces.
    pub open spec fn applied_to(self, s: Seq<T>) -> Seq<T> {
        match self {
            VecMutation::Push(v) => s.push(v),
            VecMutation::RemoveOne(i) => if (i as int) < s.len() {
                s.remove(i as int)
            } else {
                s
            },
            VecMutation::Update(i, v) => if (i as int) < s.len() {
                s.update(i as int, v)
            } else {
                s
            },
            VecMutation::SetAll(vs) => vs@,
        }
    }
}

/// The mathematical view of a [`VecMutation`]: positions as integers and
/// elements by their deep views.
pub enum VecMutationV<V> {
    Push(V),
    RemoveOne(int),
    Update(int, V),
    SetAll(Seq<V>),
}

impl<T: DeepView> DeepView for VecMutation<T> {
    type V = VecMutationV<T::V>;

    open spec fn deep_view(&self) -> VecMutationV<T::V> {
        match self {
            VecMutation::Push(v) => VecMutationV::Push(v.deep_view()),
            VecMutation::RemoveOne(i) => VecMutationV::RemoveOne(*i as int),
            VecMutation::Update(i, v) => VecMutationV::Update(*i as int, v.deep_view()),
            VecMutation::SetAll(vs) => VecMutationV::SetAll(vs.deep_view()),
        }
    }
}

/// What a mutation does, seen on the deep views of the elements.
pub open spec fn mutation_applied_deep<V>(m: VecMutationV<V>, s: Seq<V>) -> Seq<V> {
    match m {
        VecMutationV::Push(v) => s.push(v),
        VecMutationV::RemoveOne(i) => if 0 <= i < s.len() {
            s.remove(i)
        } else {
            s
        },
        VecMutationV::Update(i, v) => if 0 <= i < s.len() {
            s.update(i, v)
        } else {
            s
        },
        VecMutationV::SetAll(vs) => vs,
    }
}

/// The sequence that applying every mutation of `ms`, in order, to `s`
/// produces.
pub open spec fn log_applied<T>(s: Seq<T>, ms: Seq<VecMutation<T>>) -> Seq<T>
    decreases ms.len(),
{
    if ms.len() == 0 {
        s
    } else {
        log_applied(ms.first().applied_to(s), ms.drop_first())
    }
}

/// Replaying a log is insensitive to where it is cut: applying a whole log
/// equals applying its prefix and then the remaining suffix from the
/// intermediate snapshot. In particular, a log replayed from the empty
/// sequence agrees with any snapshot-plus-suffix replay.
pub proof fn lemma_log_cut<T>(s: Seq<T>, prefix: Seq<VecMutation<T>>, suffix: Seq<VecMutation<T>>)
    ensures
        log_applied(s, prefix + suffix) == log_applied(log_applied(s, prefix), suffix),
    decreases prefix.len(),
{
    if prefix.len() == 0 {
        assert(prefix + suffix =~= suffix);
    } else {
        assert((prefix + suffix).first() == prefix.first());
        assert((prefix + suffix).drop_first() =~= prefix.drop_first() + suffix);
        lemma_log_cut(prefix.first().applied_to(s), prefix.drop_first(), suffix);
    }
}

/// Apply one mutation to a vector.
pub fn apply_mutation<T>(v: &mut Vec<T>, m: VecMutation<T>)
    ensures
        final(v)@ == m.applied_to(old(v)@),
{
    match m {
        VecMutation::Push(x) => {
            v.push(x);
        }
        VecMutation::RemoveOne(i) => {
            if i < v.len() {
                v.remove(i);
            }
        }
        VecMutation::Update(i, x) => {
            if i < v.len() {
                v.set(i, x);
            }
        }
        VecMutation::SetAll(vs) => {
            *v = vs;
        }
    }
}

/// Apply a whole log of mutations, in order.
pub fn apply_log<T>(v: &mut Vec<T>, ms: Vec<VecMutation<T>>)
    ensures
        final(v)@ == log_applied(old(v)@, ms@),
{
    let ghost all = ms@;
    let ghost v0 = v@;
    let mut rest = ms;
    while rest.len() != 0
        invariant
            log_applied(v0, all) == log_applied(v@, rest@),
            log_applied(old(v)@, all) == log_applied(v0, all),
        decreases rest@.len(),
    {
        let m = rest.remove(0);
        apply_mutation(v, m);
    }
}

/// Build an `Update` mutation for `index` by deriving the replacement from
/// the current element. This exists so callers can prepare the next
/// mutation from a read snapshot, without ever holding a live mutable
/// borrow of shared state.
pub fn update_with<T, F: FnOnce(&T) -> T>(current: &Vec<T>, index: usize, edit: F) -> (m:
    VecMutation<T>)
    requires
        index < current.len(),
        call_requires(edit, (&current[index as int],)),
    ensures
        (m matches VecMutation::Update(i, x) && i == index && call_ensures(
            edit,
            (&current[index as int],),
            x,
        )),
{
    let x = edit(&current[index]);
    VecMutation::Update(index, x)
}

} // verus!
