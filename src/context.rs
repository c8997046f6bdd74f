use vstd::prelude::*;
use std::collections::HashMap;
use salva3d::object::Fluid;
use salva3d::LiquidWorld;
use crate::solver::{Handle, world_fluids, fluid_particles, num_particles, add_fluid, remove_fluid, get_fluid};

verus! {

broadcast use vstd::std_specs::hash::group_hash_axioms;

/// Why a fluid declaration was not registered.
#[derive(Clone, Copy, Debug, PartialEq, Eq, Structural)]
pub enum InitError {
    /// The entity already owns a registered fluid.
    AlreadyRegistered,
    /// The declaration has no particles.
    EmptyFluid,
}

/// The solver handle that an entity's fluid was registered under.
#[derive(Clone, Copy, Debug, PartialEq, Eq, Structural)]
pub struct SalvaFluidHandle(pub Handle);

/// The simulation's aggregate state: the solver state and the map from
/// scene entities (by their bit representation) to the handles of their
/// fluids.
pub struct SalvaContext {
    pub liquid_world: LiquidWorld,
    pub entity2fluid: HashMap<u64, Handle>,
}

/// The handles that the entities listed in `es` own under `m`.
pub open spec fn handles_of(m: Map<u64, Handle>, es: Seq<u64>) -> Set<Handle> {
    Set::new(|h: Handle| exists|k: int| 0 <= k < es.len() && m.contains_key(es[k]) && m[es[k]] == h)
}

impl SalvaContext {
    /// The particle count of each fluid in the solver state, by handle.
    pub open spec fn fluids(&self) -> Map<Handle, nat> {
        world_fluids(self.liquid_world)
    }

    /// The handle registered for each entity.
    pub open spec fn handles(&self) -> Map<u64, Handle> {
        self.entity2fluid@
    }

    /// Every registered handle is live in the solver, and no two entities
    /// share one.
    pub open spec fn wf(&self) -> bool {
        &&& forall|e: u64| #[trigger]
            self.handles().contains_key(e) ==> self.fluids().contains_key(self.handles()[e])
        &&& forall|e1: u64, e2: u64|
            #[trigger] self.handles().contains_key(e1) && #[trigger] self.handles().contains_key(e2)
                && e1 != e2 ==> self.handles()[e1] != self.handles()[e2]
    }

    /// A context over the given solver state, with no entity registered.
    pub fn new(liquid_world: LiquidWorld) -> (r: Self)
        ensures
            r.wf(),
            r.handles() == Map::<u64, Handle>::empty(),
            r.liquid_world == liquid_world,
    {
        SalvaContext { liquid_world, entity2fluid: HashMap::new() }
    }

    /// The handle registered for `entity`, if any.
    pub fn lookup(&self, entity: u64) -> (r: Option<Handle>)
        ensures
            r == if self.handles().contains_key(entity) {
                Some(self.handles()[entity])
            } else {
                None::<Handle>
            },
    {
        match self.entity2fluid.get(&entity) {
            Some(h) => Some(*h),
            None => None,
        }
    }

    /// The number of particles the solver holds for `handle`, `None` when no
    /// live fluid has that handle.
    pub fn particle_count(&self, handle: Handle) -> (r: Option<usize>)
        ensures
            r == if self.fluids().contains_key(handle) {
                Some(self.fluids()[handle] as usize)
            } else {
                None::<usize>
            },
    {
        match get_fluid(&self.liquid_world, handle) {
            Some(f) => Some(num_particles(f)),
            None => None,
        }
    }

    /// Registers a fluid declaration for `entity`: the fluid is added to the
    /// solver and its handle mapped from the entity. An entity that already
    /// owns a fluid, or a declaration without particles, is refused and
    /// nothing changes.
    pub fn init_fluid(&mut self, entity: u64, fluid: Fluid) -> (r: Result<Handle, InitError>)
        requires
            old(self).wf(),
        ensures
            final(self).wf(),
            old(self).handles().contains_key(entity) ==> r == Err::<Handle, InitError>(
                InitError::AlreadyRegistered,
            ),
            !old(self).handles().contains_key(entity) && fluid_particles(fluid) == 0 ==> r == Err::<
                Handle,
                InitError,
            >(InitError::EmptyFluid),
            r is Err ==> final(self).handles() == old(self).handles() && final(self).fluids()
                == old(self).fluids(),
            !old(self).handles().contains_key(entity) && fluid_particles(fluid) > 0 ==> {
                &&& r is Ok
                &&& !old(self).fluids().contains_key(r->Ok_0)
                &&& final(self).fluids() == old(self).fluids().insert(
                    r->Ok_0,
                    fluid_particles(fluid),
                )
                &&& final(self).handles() == old(self).handles().insert(entity, r->Ok_0)
            },
    {
        if self.entity2fluid.contains_key(&entity) {
            return Err(InitError::AlreadyRegistered);
        }
        if num_particles(&fluid) == 0 {
            return Err(InitError::EmptyFluid);
        }
        let h = add_fluid(&mut self.liquid_world, fluid);
        self.entity2fluid.insert(entity, h);
        assert forall|e: u64| #[trigger] self.handles().contains_key(e) implies self.fluids().contains_key(
            self.handles()[e],
        ) by {
            if e != entity {
                assert(old(self).handles().contains_key(e));
            }
        }
        assert forall|e1: u64, e2: u64|
            #[trigger] self.handles().contains_key(e1) && #[trigger] self.handles().contains_key(e2)
                && e1 != e2 implies self.handles()[e1] != self.handles()[e2] by {
            if e1 != entity {
                assert(old(self).handles().contains_key(e1));
            }
            if e2 != entity {
                assert(old(self).handles().contains_key(e2));
            }
        }
        Ok(h)
    }

    /// Removes the fluid of `entity`: its handle leaves the map and its fluid
    /// leaves the solver. For an entity without a fluid, nothing changes.
    pub fn remove_entity(&mut self, entity: u64) -> (r: Option<Handle>)
        requires
            old(self).wf(),
        ensures
            final(self).wf(),
            r == if old(self).handles().contains_key(entity) {
                Some(old(self).handles()[entity])
            } else {
                None::<Handle>
            },
            final(self).handles() == old(self).handles().remove(entity),
            r is Some ==> final(self).fluids() == old(self).fluids().remove(r->0),
            r is None ==> final(self).fluids() == old(self).fluids(),
    {
        match self.entity2fluid.remove(&entity) {
            Some(h) => {
                remove_fluid(&mut self.liquid_world, h);
                assert forall|e: u64| #[trigger] self.handles().contains_key(e) implies self.fluids().contains_key(
                    self.handles()[e],
                ) by {
                    assert(old(self).handles().contains_key(e));
                    assert(old(self).handles().contains_key(entity));
                }
                assert forall|e1: u64, e2: u64|
                    #[trigger] self.handles().contains_key(e1) && #[trigger] self.handles().contains_key(e2)
                        && e1 != e2 implies self.handles()[e1] != self.handles()[e2] by {
                    assert(old(self).handles().contains_key(e1));
                    assert(old(self).handles().contains_key(e2));
                }
                Some(h)
            },
            None => {
                assert(self.handles() =~= old(self).handles().remove(entity));
                None
            },
        }
    }

    /// Removal sync: every listed entity loses its registration, and its
    /// fluid leaves the solver. Entities without a fluid, and entities listed
    /// twice, are passed over.
    pub fn sync_removals(&mut self, removed: &Vec<u64>)
        requires
            old(self).wf(),
        ensures
            final(self).wf(),
            final(self).handles() == old(self).handles().remove_keys(removed@.to_set()),
            final(self).fluids() == old(self).fluids().remove_keys(
                handles_of(old(self).handles(), removed@),
            ),
    {
        let ghost h0 = self.handles();
        let ghost f0 = self.fluids();
        let mut i: usize = 0;
        while i < removed.len()
            invariant
                0 <= i <= removed@.len(),
                self.wf(),
                self.handles() == h0.remove_keys(removed@.subrange(0, i as int).to_set()),
                self.fluids() == f0.remove_keys(handles_of(h0, removed@.subrange(0, i as int))),
            decreases removed@.len() - i,
        {
            let e = removed[i];
            let ghost pre = removed@.subrange(0, i as int);
            let ghost post = removed@.subrange(0, i as int + 1);
            let ghost hb = self.handles();
            self.remove_entity(e);
            proof {
                assert(post.to_set() =~= pre.to_set().insert(e)) by {
                    assert forall|x: u64| post.to_set().contains(x) implies pre.to_set().insert(e).contains(x) by {
                        let k = choose|k: int| 0 <= k < post.len() && post[k] == x;
                        if k < i {
                            assert(pre[k] == x);
                        }
                    }
                    assert forall|x: u64| pre.to_set().insert(e).contains(x) implies post.to_set().contains(x) by {
                        if x == e {
                            assert(post[i as int] == x);
                        } else {
                            let k = choose|k: int| 0 <= k < pre.len() && pre[k] == x;
                            assert(post[k] == x);
                        }
                    }
                }
                assert(self.handles() =~= h0.remove_keys(post.to_set()));
                if h0.contains_key(e) {
                    assert(handles_of(h0, post) =~= handles_of(h0, pre).insert(h0[e])) by {
                        assert forall|h: Handle| handles_of(h0, post).contains(h) implies handles_of(h0, pre).insert(h0[e]).contains(h) by {
                            let k = choose|k: int| 0 <= k < post.len() && h0.contains_key(post[k]) && h0[post[k]] == h;
                            if k < i {
                                assert(pre[k] == post[k]);
                            }
                        }
                        assert forall|h: Handle| handles_of(h0, pre).insert(h0[e]).contains(h) implies handles_of(h0, post).contains(h) by {
                            if h == h0[e] {
                                assert(post[i as int] == e);
                            } else {
                                let k = choose|k: int| 0 <= k < pre.len() && h0.contains_key(pre[k]) && h0[pre[k]] == h;
                                assert(post[k] == pre[k]);
                            }
                        }
                    }
                    if pre.to_set().contains(e) {
                        assert(!hb.contains_key(e));
                        let k = choose|k: int| 0 <= k < pre.len() && pre[k] == e;
                        assert(handles_of(h0, pre).contains(h0[e]));
                        assert(self.fluids() =~= f0.remove_keys(handles_of(h0, post)));
                    } else {
                        assert(hb.contains_key(e));
                        assert(self.fluids() =~= f0.remove_keys(handles_of(h0, post)));
                    }
                } else {
                    assert(handles_of(h0, post) =~= handles_of(h0, pre)) by {
                        assert forall|h: Handle| handles_of(h0, post).contains(h) implies handles_of(h0, pre).contains(h) by {
                            let k = choose|k: int| 0 <= k < post.len() && h0.contains_key(post[k]) && h0[post[k]] == h;
                            assert(k < i);
                            assert(pre[k] == post[k]);
                        }
                        assert forall|h: Handle| handles_of(h0, pre).contains(h) implies handles_of(h0, post).contains(h) by {
                            let k = choose|k: int| 0 <= k < pre.len() && h0.contains_key(pre[k]) && h0[pre[k]] == h;
                            assert(post[k] == pre[k]);
                        }
                    }
                    assert(!hb.contains_key(e));
                    assert(self.fluids() =~= f0.remove_keys(handles_of(h0, post)));
                }
            }
            i += 1;
        }
        assert(removed@.subrange(0, removed@.len() as int) =~= removed@);
    }
}

/// Registering a declaration with particles for an unregistered entity makes
/// the entity resolve to the new handle, under which the solver holds exactly
/// the declared particle count.
pub proof fn lemma_registration_round_trip(
    handles: Map<u64, Handle>,
    fluids: Map<Handle, nat>,
    entity: u64,
    h: Handle,
    count: nat,
)
    requires
        !handles.contains_key(entity),
        count > 0,
    ensures
        handles.insert(entity, h).contains_key(entity),
        handles.insert(entity, h)[entity] == h,
        fluids.insert(h, count).contains_key(h),
        fluids.insert(h, count)[h] == count,
{
}

/// After removal sync, no listed entity resolves to a handle, and the solver
/// holds no fluid under a handle that a listed entity owned.
pub proof fn lemma_removal_cleanup(
    handles: Map<u64, Handle>,
    fluids: Map<Handle, nat>,
    removed: Seq<u64>,
    entity: u64,
)
    requires
        removed.contains(entity),
    ensures
        !handles.remove_keys(removed.to_set()).contains_key(entity),
        handles.contains_key(entity) ==> !fluids.remove_keys(handles_of(handles, removed)).contains_key(
            handles[entity],
        ),
{
    let k = choose|k: int| 0 <= k < removed.len() && removed[k] == entity;
    assert(removed.to_set().contains(entity));
    if handles.contains_key(entity) {
        assert(handles_of(handles, removed).contains(handles[entity]));
    }
}

/// Removing twice is removing once: after one removal the entity is
/// unregistered, so a second removal finds nothing (and changes nothing),
/// and likewise for a handle already gone from the solver.
pub proof fn lemma_removal_idempotent(
    handles: Map<u64, Handle>,
    fluids: Map<Handle, nat>,
    entity: u64,
    h: Handle,
)
    ensures
        !handles.remove(entity).contains_key(entity),
        handles.remove(entity).remove(entity) == handles.remove(entity),
        !fluids.remove(h).contains_key(h),
        fluids.remove(h).remove(h) == fluids.remove(h),
{
    assert(handles.remove(entity).remove(entity) =~= handles.remove(entity));
    assert(fluids.remove(h).remove(h) =~= fluids.remove(h));
}

} // verus!
