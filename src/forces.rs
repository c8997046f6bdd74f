use vstd::prelude::*;

verus! {

/// The forces of `s` whose position is not listed in `removed`, in their
/// original order.
pub open spec fn kept_forces<F>(s: Seq<F>, removed: Seq<usize>) -> Seq<F>
    decreases s.len(),
{
    if s.len() == 0 {
        Seq::empty()
    } else {
        let rest = kept_forces(s.drop_last(), removed);
        if removed.contains((s.len() - 1) as usize) {
            rest
        } else {
            rest.push(s.last())
        }
    }
}

/// The force sequence after one frame's edits: removals resolved against the
/// sequence as it stood before the edits, then the appended forces.
pub open spec fn edited_forces<F>(s: Seq<F>, removed: Seq<usize>, appended: Seq<F>) -> Seq<F> {
    kept_forces(s, removed) + appended
}


/// Command buffer: indices into a fluid's current force sequence to remove.
pub struct RemoveNonPressureForcesAt(pub Vec<usize>);

/// Command buffer: forces to append to a fluid's force sequence.
pub struct AppendNonPressureForces<F>(pub Vec<F>);

fn removal_listed(removed: &Vec<usize>, i: usize) -> (r: bool)
    ensures
        r == removed@.contains(i),
{
    let mut k: usize = 0;
    while k < removed.len()
        invariant
            0 <= k <= removed@.len(),
            forall|j: int| 0 <= j < k ==> removed@[j] != i,
        decreases removed@.len() - k,
    {
        if removed[k] == i {
            return true;
        }
        k += 1;
    }
    false
}

proof fn lemma_kept_step<F>(s: Seq<F>, removed: Seq<usize>, j: int)
    requires
        0 <= j < s.len(),
    ensures
        kept_forces(s.subrange(0, j + 1), removed) == if removed.contains(j as usize) {
            kept_forces(s.subrange(0, j), removed)
        } else {
            kept_forces(s.subrange(0, j), removed).push(s[j])
        },
{
    let t = s.subrange(0, j + 1);
    assert(t.drop_last() =~= s.subrange(0, j));
}

proof fn lemma_kept_agree<F>(s: Seq<F>, r1: Seq<usize>, r2: Seq<usize>)
    requires
        forall|i: usize| (i as int) < s.len() ==> (r1.contains(i) <==> r2.contains(i)),
    ensures
        kept_forces(s, r1) == kept_forces(s, r2),
    decreases s.len(),
{
    if s.len() > 0 {
        lemma_kept_agree(s.drop_last(), r1, r2);
        let i = (s.len() - 1) as usize;
        assert(r1.contains(i) <==> r2.contains(i));
    }
}

/// Removing the highest pending index first leaves the meaning of every other
/// pending index unchanged: the result equals resolving the remaining indices
/// against the shortened sequence. Repeating this from the highest index down
/// is the descending-order removal that the edits stand for.
pub proof fn lemma_descending_removal<F>(s: Seq<F>, removed: Seq<usize>, rest: Seq<usize>, m: usize)
    requires
        (m as int) < s.len() <= usize::MAX,
        removed.contains(m),
        forall|i: usize| removed.contains(i) ==> i <= m,
        forall|i: usize| rest.contains(i) <==> (removed.contains(i) && i != m),
    ensures
        kept_forces(s, removed) == kept_forces(s.remove(m as int), rest),
    decreases s.len(),
{
    let n = s.len();
    if n - 1 == m {
        assert(s.remove(m as int) =~= s.drop_last());
        lemma_kept_agree(s.drop_last(), removed, rest);
    } else {
        lemma_descending_removal(s.drop_last(), removed, rest, m);
        let t = s.remove(m as int);
        assert(t.drop_last() =~= s.drop_last().remove(m as int));
        assert(t.last() == s.last());
        let last = (n - 1) as usize;
        let tlast = (n - 2) as usize;
        assert(last as int == n - 1 && tlast as int == n - 2);
        assert(!removed.contains(last));
        assert(!rest.contains(tlast));
    }
}

/// Applies one frame's force edits: every listed index of the current sequence
/// is removed (indices that name no force are skipped, and an index listed
/// twice removes one force), then the appended forces follow in their order.
/// Both command buffers are left empty.
pub fn apply_force_edits<F>(
    forces: &mut Vec<F>,
    removals: &mut RemoveNonPressureForcesAt,
    appends: &mut AppendNonPressureForces<F>,
)
    ensures
        final(forces)@ == edited_forces(old(forces)@, old(removals).0@, old(appends).0@),
        final(removals).0@.len() == 0,
        final(appends).0@.len() == 0,
{
    let ghost s = forces@;
    let n = forces.len();
    let mut kept: Vec<F> = Vec::new();
    let mut j: usize = 0;
    while j < n
        invariant
            n == s.len(),
            0 <= j <= n,
            forces@ == s.subrange(j as int, n as int),
            kept@ == kept_forces(s.subrange(0, j as int), removals.0@),
        decreases n - j,
    {
        proof {
            lemma_kept_step(s, removals.0@, j as int);
        }
        let f = forces.remove(0);
        assert(f == s[j as int]);
        if !removal_listed(&removals.0, j) {
            kept.push(f);
        }
        assert(forces@ =~= s.subrange(j as int + 1, n as int));
        j += 1;
    }
    assert(s.subrange(0, n as int) =~= s);
    kept.append(&mut appends.0);
    *forces = kept;
    removals.0.clear();
}

} // verus!
