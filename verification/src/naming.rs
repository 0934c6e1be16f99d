//! Namespaced tool names (such as `pkg.tool`) and their display form.

use vstd::prelude::*;
use vstd::string::StrSliceExecFns;

verus! {

/// The rest of the name after its first `.`, when it has one.
pub open spec fn after_first_dot(name: Seq<char>) -> Option<Seq<char>>
    decreases name.len(),
{
    if name.len() == 0 {
        Option::None
    } else if name.first() == '.' {
        Option::Some(name.drop_first())
    } else {
        after_first_dot(name.drop_first())
    }
}

/// The display form of a namespaced name: the part after the first `.`;
/// a name without one stands as itself.
pub open spec fn display_name_spec(name: Seq<char>) -> Seq<char> {
    match after_first_dot(name) {
        Option::Some(rest) => rest,
        Option::None => name,
    }
}

proof fn lemma_after_first_dot_found(name: Seq<char>, i: int)
    requires
        0 <= i < name.len(),
        name[i] == '.',
        forall|j: int| 0 <= j < i ==> name[j] != '.',
    ensures
        after_first_dot(name) == Option::Some(name.subrange(i + 1, name.len() as int)),
    decreases i,
{
    if i == 0 {
        assert(name.first() == '.');
        assert(name.drop_first() =~= name.subrange(1, name.len() as int));
    } else {
        assert(name.first() != '.');
        assert(name.drop_first()[i - 1] == name[i]);
        assert forall|j: int| 0 <= j < i - 1 implies name.drop_first()[j] != '.' by {
            assert(name[j + 1] != '.');
        }
        lemma_after_first_dot_found(name.drop_first(), i - 1);
        assert(name.drop_first().subrange(i, name.drop_first().len() as int) =~= name.subrange(
            i + 1,
            name.len() as int,
        ));
    }
}

proof fn lemma_after_first_dot_none(name: Seq<char>)
    requires
        forall|j: int| 0 <= j < name.len() ==> name[j] != '.',
    ensures
        after_first_dot(name) is None,
    decreases name.len(),
{
    if name.len() > 0 {
        assert(name[0] != '.');
        assert forall|j: int| 0 <= j < name.drop_first().len() implies name.drop_first()[j]
            != '.' by {
            assert(name[j + 1] != '.');
        }
        lemma_after_first_dot_none(name.drop_first());
    }
}

/// The display form of a namespaced tool name: what follows the first
/// `.`, or the whole name when it has none.
pub fn display_name_from_namespaced(name: &str) -> (r: String)
    ensures
        r@ == display_name_spec(name@),
{
    let n = name.unicode_len();
    let mut i: usize = 0;
    while i < n
        invariant
            n == name@.len(),
            i <= n,
            forall|j: int| 0 <= j < i ==> name@[j] != '.',
        decreases n - i,
    {
        let c = name.get_char(i);
        if c == '.' {
            proof {
                lemma_after_first_dot_found(name@, i as int);
            }
            let rest = name.substring_char(i + 1, n);
            return rest.to_owned();
        }
        i += 1;
    }
    proof {
        lemma_after_first_dot_none(name@);
    }
    name.to_owned()
}

} // verus!
