use vstd::prelude::*;
use vstd::set_lib::*;
use vstd::seq_lib::*;

verus! {

/// How many backups the retention window keeps.
pub const RETENTION: usize = 5;

/// Order of modification times, where an unreadable time (`None`) sorts
/// before every readable one.
pub open spec fn stamp_le(a: Option<u128>, b: Option<u128>) -> bool {
    match (a, b) {
        (None, _) => true,
        (Some(_), None) => false,
        (Some(x), Some(y)) => x <= y,
    }
}

fn stamp_lt(a: Option<u128>, b: Option<u128>) -> (r: bool)
    ensures
        r == !stamp_le(b, a),
{
    match (a, b) {
        (None, None) => false,
        (None, Some(_)) => true,
        (Some(_), None) => false,
        (Some(x), Some(y)) => x < y,
    }
}

/// How many of `n` backups retention removes.
pub open spec fn excess(n: int) -> int {
    if n > RETENTION { n - RETENTION } else { 0 }
}

/// `removed` picks the oldest entries of `stamps`: distinct indices, no later
/// than any entry that stays.
pub open spec fn oldest_removed(stamps: Seq<Option<u128>>, removed: Seq<usize>) -> bool {
    &&& removed.len() == excess(stamps.len() as int)
    &&& removed.no_duplicates()
    &&& forall|k: int| 0 <= k < removed.len() ==> removed[k] < stamps.len()
    &&& forall|k: int, j: int|
        0 <= k < removed.len() && 0 <= j < stamps.len() && !removed.contains(j as usize)
            ==> stamp_le(stamps[#[trigger] removed[k] as int], #[trigger] stamps[j])
}

/// A sequence that holds every index below `n` is at least `n` long.
proof fn lemma_covering_len(r: Seq<usize>, n: nat)
    requires
        n <= usize::MAX,
        forall|i: int| 0 <= i < n ==> #[trigger] r.contains(i as usize),
    ensures
        n <= r.len(),
{
    let ri = r.map_values(|x: usize| x as int);
    assert forall|i: int| #[trigger] set_int_range(0, n as int).contains(i) implies ri.to_set().contains(i) by {
        assert(r.contains(i as usize));
        let k = choose|k: int| 0 <= k < r.len() && r[k] == i as usize;
        assert(ri[k] == i);
    }
    lemma_int_range(0, n as int);
    ri.lemma_cardinality_of_set();
    lemma_len_subset(set_int_range(0, n as int), ri.to_set());
}

/// Indices of the backups that retention deletes: none when at most
/// `RETENTION` exist, otherwise the oldest ones until `RETENTION` remain.
pub fn backups_to_remove(stamps: &Vec<Option<u128>>) -> (r: Vec<usize>)
    ensures
        oldest_removed(stamps@, r@),
{
    let n = stamps.len();
    let mut removed: Vec<usize> = Vec::new();
    if n <= RETENTION {
        return removed;
    }
    let mut taken: Vec<bool> = Vec::new();
    let mut i: usize = 0;
    while i < n
        invariant
            i <= n,
            taken@.len() == i,
            forall|k: int| 0 <= k < i ==> !taken@[k],
        decreases n - i,
    {
        taken.push(false);
        i = i + 1;
    }
    let target = n - RETENTION;
    while removed.len() < target
        invariant
            n == stamps@.len(),
            target == n - RETENTION,
            removed@.len() <= target,
            taken@.len() == n,
            removed@.no_duplicates(),
            forall|k: int| 0 <= k < removed@.len() ==> removed@[k] < n && taken@[removed@[k] as int],
            forall|j: int| 0 <= j < n ==> (taken@[j] <==> removed@.contains(j as usize)),
            forall|k: int, j: int|
                0 <= k < removed@.len() && 0 <= j < n && !taken@[j]
                    ==> stamp_le(stamps@[#[trigger] removed@[k] as int], #[trigger] stamps@[j]),
        decreases target - removed@.len(),
    {
        let mut best: Option<usize> = None;
        let mut j: usize = 0;
        while j < n
            invariant
                n == stamps@.len(),
                taken@.len() == n,
                j <= n,
                best is Some ==> best->0 < n && !taken@[best->0 as int],
                best is Some ==> forall|q: int| 0 <= q < j && !taken@[q]
                    ==> stamp_le(stamps@[best->0 as int], #[trigger] stamps@[q]),
                best is None ==> forall|q: int| 0 <= q < j ==> taken@[q],
            decreases n - j,
        {
            if !taken[j] {
                match best {
                    None => {
                        best = Some(j);
                    },
                    Some(b) => {
                        if stamp_lt(stamps[j], stamps[b]) {
                            best = Some(j);
                        }
                    },
                }
            }
            j = j + 1;
        }
        match best {
            None => {
                proof {
                    assert forall|q: int| 0 <= q < n implies #[trigger] removed@.contains(q as usize) by {
                        assert(taken@[q]);
                    }
                    lemma_covering_len(removed@, n as nat);
                }
                return removed;
            },
            Some(m) => {
                let ghost before = removed@;
                removed.push(m);
                taken.set(m, true);
                proof {
                    assert(!before.contains(m));
                    assert forall|k: int| 0 <= k < removed@.len() implies removed@[k] < n && taken@[removed@[k] as int] by {
                        if k < before.len() {
                            assert(removed@[k] == before[k]);
                        }
                    }
                    assert forall|q: int| 0 <= q < n implies (taken@[q] <==> removed@.contains(q as usize)) by {
                        if q == m as int {
                            assert(removed@[before.len() as int] == m);
                        } else if taken@[q] {
                            let k = choose|k: int| 0 <= k < before.len() && before[k] == q as usize;
                            assert(removed@[k] == q as usize);
                        } else {
                            if removed@.contains(q as usize) {
                                let k = choose|k: int| 0 <= k < removed@.len() && removed@[k] == q as usize;
                                if k < before.len() {
                                    assert(before[k] == q as usize);
                                }
                            }
                        }
                    }
                    assert forall|k: int, q: int|
                        0 <= k < removed@.len() && 0 <= q < n && !taken@[q]
                            implies stamp_le(stamps@[#[trigger] removed@[k] as int], #[trigger] stamps@[q]) by {
                        if k < before.len() {
                            assert(removed@[k] == before[k]);
                        }
                    }
                }
            },
        }
    }
    proof {
        assert forall|k: int, j: int|
            0 <= k < removed@.len() && 0 <= j < stamps@.len() && !removed@.contains(j as usize)
                implies stamp_le(stamps@[#[trigger] removed@[k] as int], #[trigger] stamps@[j]) by {
            assert(!taken@[j]);
        }
    }
    removed
}

} // verus!
