use vstd::prelude::*;

verus! {

/// Writeback: builds the entity-visible position buffer from the solver's
/// particle buffer, converting each position with `convert`. The i-th output
/// comes from the i-th particle, so particle order is kept.
pub fn writeback_positions<P, Q, F: Fn(&P) -> Q>(particles: &Vec<P>, convert: F) -> (r: Vec<Q>)
    requires
        forall|i: int| 0 <= i < particles@.len() ==> convert.requires((&particles@[i],)),
    ensures
        r@.len() == particles@.len(),
        forall|i: int| 0 <= i < particles@.len() ==> convert.ensures((&particles@[i],), #[trigger] r@[i]),
{
    let mut out: Vec<Q> = Vec::new();
    let mut i: usize = 0;
    while i < particles.len()
        invariant
            0 <= i <= particles@.len(),
            out@.len() == i,
            forall|j: int| 0 <= j < particles@.len() ==> convert.requires((&particles@[j],)),
            forall|j: int| 0 <= j < i ==> convert.ensures((&particles@[j],), #[trigger] out@[j]),
        decreases particles@.len() - i,
    {
        let q = convert(&particles[i]);
        out.push(q);
        i += 1;
    }
    out
}

} // verus!
