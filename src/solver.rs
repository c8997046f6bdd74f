use vstd::prelude::*;
use salva3d::object::{ContiguousArenaIndex, Fluid, FluidHandle};
use salva3d::LiquidWorld;

verus! {

#[verifier::external_type_specification]
#[verifier::external_body]
pub struct ExLiquidWorld(LiquidWorld);

#[verifier::external_type_specification]
#[verifier::external_body]
pub struct ExFluid(Fluid);

/// Identifier of one fluid in the solver's state: the slot and generation
/// that the solver's arena issued for it.
#[derive(Clone, Copy, Debug, PartialEq, Eq, Hash, Structural)]
pub struct Handle {
    pub index: usize,
    pub generation: u64,
}

/// The fluids that a solver state holds: the particle count of each live
/// fluid, by handle.
pub uninterp spec fn world_fluids(w: LiquidWorld) -> Map<Handle, nat>;

/// The number of particles of a fluid.
pub uninterp spec fn fluid_particles(f: Fluid) -> nat;

/// Relies on `Fluid::num_particles`: the length of the fluid's position
/// buffer, the count that the solver state keeps for it once added.
#[verifier::external_body]
pub(crate) fn num_particles(f: &Fluid) -> (r: usize)
    ensures
        r as nat == fluid_particles(*f),
{
    f.num_particles()
}

/// Relies on `LiquidWorld::add_fluid`: the fluid is inserted into the
/// solver's arena under a slot that no live fluid occupies, and the other
/// fluids are untouched.
#[verifier::external_body]
pub(crate) fn add_fluid(w: &mut LiquidWorld, f: Fluid) -> (h: Handle)
    ensures
        !world_fluids(*old(w)).contains_key(h),
        world_fluids(*final(w)) == world_fluids(*old(w)).insert(h, fluid_particles(f)),
{
    let idx: ContiguousArenaIndex = w.add_fluid(f).into();
    let (index, generation) = idx.into_raw_parts();
    Handle { index, generation }
}

/// Relies on `LiquidWorld::remove_fluid`: the fluid under a live handle is
/// taken out of the arena; any other handle changes nothing and yields `None`.
#[verifier::external_body]
pub(crate) fn remove_fluid(w: &mut LiquidWorld, h: Handle) -> (r: bool)
    ensures
        r == world_fluids(*old(w)).contains_key(h),
        world_fluids(*final(w)) == world_fluids(*old(w)).remove(h),
{
    let handle = FluidHandle::from(ContiguousArenaIndex::from_raw_parts(h.index, h.generation));
    w.remove_fluid(handle).is_some()
}

/// Relies on `LiquidWorld::fluids` and `ContiguousArena::get`: the fluid
/// under a live handle, `None` for any other handle.
#[verifier::external_body]
pub(crate) fn get_fluid<'a>(w: &'a LiquidWorld, h: Handle) -> (r: Option<&'a Fluid>)
    ensures
        r is Some <==> world_fluids(*w).contains_key(h),
        r is Some ==> fluid_particles(*r->0) == world_fluids(*w)[h],
{
    let handle = FluidHandle::from(ContiguousArenaIndex::from_raw_parts(h.index, h.generation));
    w.fluids().get(handle)
}

} // verus!
