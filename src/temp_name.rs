use vstd::prelude::*;
use vstd::set_lib::{lemma_int_range, lemma_len_subset, lemma_map_size, set_int_range};
use vstd::string::StringExecFns;

verus! {

/// The directory to be vacated has no base name to derive a temporary name
/// from (it is a filesystem root).
#[derive(Debug, Clone, Copy, PartialEq, Eq)]
pub struct NoBaseName;

/// The `k`-th candidate: `base` behind `k` underscores.
pub open spec fn prefixed(k: nat, base: Seq<char>) -> Seq<char> {
    Seq::new(k, |_i: int| '_') + base
}

/// `k` is the smallest positive count of underscores whose candidate is
/// absent from `names`.
pub open spec fn is_first_free(names: Seq<Seq<char>>, base: Seq<char>, k: nat) -> bool {
    &&& k >= 1
    &&& !names.contains(prefixed(k, base))
    &&& forall|j: nat| 1 <= j < k ==> names.contains(#[trigger] prefixed(j, base))
}

/// The temporary name chosen for `base` among the siblings `names`.
pub open spec fn temp_name(names: Seq<Seq<char>>, base: Seq<char>) -> Seq<char> {
    prefixed(choose|k: nat| is_first_free(names, base, k), base)
}

/// Different counts of underscores give different candidates.
pub proof fn lemma_prefixed_len(k: nat, base: Seq<char>)
    ensures
        prefixed(k, base).len() == k + base.len(),
{
}

/// At most one count is the first free one.
pub proof fn lemma_first_free_unique(names: Seq<Seq<char>>, base: Seq<char>, a: nat, b: nat)
    requires
        is_first_free(names, base, a),
        is_first_free(names, base, b),
    ensures
        a == b,
{
}

/// One of the first `names.len() + 1` candidates is absent from `names`:
/// they are pairwise distinct, and `names` has too few entries for all.
pub proof fn lemma_some_candidate_free(names: Seq<Seq<char>>, base: Seq<char>)
    ensures
        exists|k: nat| 1 <= k <= names.len() + 1 && !names.contains(#[trigger] prefixed(k, base)),
{
    let n = names.len() as int;
    if forall|j: nat| 1 <= j <= n + 1 ==> names.contains(#[trigger] prefixed(j, base)) {
        let counts = set_int_range(1, n + 2);
        let f = |k: int| prefixed(k as nat, base);
        let taken = counts.map(f);
        lemma_int_range(1, n + 2);
        assert forall|a: int, b: int|
            counts.contains(a) && counts.contains(b) && #[trigger] f(a) == #[trigger] f(
                b,
            ) implies a == b by {
            lemma_prefixed_len(a as nat, base);
            lemma_prefixed_len(b as nat, base);
        }
        assert(vstd::relations::injective_on(f, counts));
        lemma_map_size(counts, taken, f);
        assert forall|x: Seq<char>| taken.contains(x) implies names.to_set().contains(x) by {
            let k = choose|k: int| counts.contains(k) && f(k) == x;
            assert(names.contains(prefixed(k as nat, base)));
        }
        names.lemma_cardinality_of_set();
        lemma_len_subset(taken, names.to_set());
    }
}

proof fn lemma_first_free_from(names: Seq<Seq<char>>, base: Seq<char>, k: nat, free: nat)
    requires
        1 <= k <= free,
        !names.contains(prefixed(free, base)),
        forall|j: nat| 1 <= j < k ==> names.contains(#[trigger] prefixed(j, base)),
    ensures
        exists|c: nat| is_first_free(names, base, c),
    decreases free - k,
{
    if names.contains(prefixed(k, base)) {
        lemma_first_free_from(names, base, k + 1, free);
    } else {
        assert(is_first_free(names, base, k));
    }
}

/// The temporary name is the first free candidate: free among `names`, and
/// longer than `base`, so it differs from it.
pub proof fn lemma_temp_name_free(names: Seq<Seq<char>>, base: Seq<char>)
    ensures
        exists|k: nat| #[trigger] is_first_free(names, base, k) && temp_name(names, base) == prefixed(k, base),
        !names.contains(temp_name(names, base)),
        temp_name(names, base).len() > base.len(),
{
    lemma_some_candidate_free(names, base);
    let free = choose|k: nat| 1 <= k <= names.len() + 1 && !names.contains(#[trigger] prefixed(k, base));
    lemma_first_free_from(names, base, 1, free);
    let c = choose|c: nat| is_first_free(names, base, c);
    lemma_prefixed_len(c, base);
    assert(is_first_free(names, base, c));
}

/// Whether `name` is one of `names`.
fn contains_name(names: &Vec<String>, name: &String) -> (r: bool)
    ensures
        r == names.deep_view().contains(name@),
{
    let mut i: usize = 0;
    while i < names.len()
        invariant
            i <= names.len(),
            forall|j: int| 0 <= j < i ==> names.deep_view()[j] != name@,
        decreases names.len() - i,
    {
        if names[i] == *name {
            assert(names.deep_view()[i as int] == name@);
            return true;
        }
        i = i + 1;
    }
    false
}

/// Picks a name for staging the directory `base_name` in its parent
/// directory, whose entries (one snapshot) are `siblings`: `base_name` behind
/// the fewest underscores, at least one, that no sibling is called.
pub fn get_unique_temporary_name(siblings: &Vec<String>, base_name: &String) -> (r: Result<String, NoBaseName>)
    ensures
        base_name@.len() == 0 <==> r is Err,
        r matches Ok(t) ==> t@ == temp_name(siblings.deep_view(), base_name@),
        r matches Ok(t) ==> exists|k: nat| #[trigger] is_first_free(siblings.deep_view(), base_name@, k) && t@ == prefixed(k, base_name@),
{
    if base_name.as_str().is_empty() {
        return Err(NoBaseName);
    }
    let ghost names = siblings.deep_view();
    let ghost base = base_name@;
    proof {
        reveal_strlit("_");
    }
    let mut underscores = String::new();
    underscores.append("_");
    assert(underscores@ =~= Seq::new(1, |_i: int| '_'));
    let mut i: usize = 0;
    loop
        invariant
            names == siblings.deep_view(),
            base == base_name@,
            base.len() > 0,
            i <= siblings.len(),
            underscores@ == Seq::new((i + 1) as nat, |_i: int| '_'),
            forall|j: nat| 1 <= j <= i ==> names.contains(#[trigger] prefixed(j, base)),
        decreases siblings.len() - i,
    {
        let mut candidate = underscores.clone();
        candidate.append(base_name.as_str());
        assert(candidate@ == prefixed((i + 1) as nat, base));
        if !contains_name(siblings, &candidate) {
            proof {
                let k = (i + 1) as nat;
                assert(is_first_free(names, base, k));
                let c = choose|c: nat| is_first_free(names, base, c);
                lemma_first_free_unique(names, base, k, c);
            }
            return Ok(candidate);
        }
        proof {
            if i == siblings.len() {
                lemma_some_candidate_free(names, base);
                let k = choose|k: nat|
                    1 <= k <= names.len() + 1 && !names.contains(#[trigger] prefixed(k, base));
                assert(k <= i || k == i + 1);
            }
        }
        proof {
            reveal_strlit("_");
        }
        underscores.append("_");
        assert(underscores@ =~= Seq::new((i + 2) as nat, |_i: int| '_'));
        i = i + 1;
    }
}

} // verus!
