//! The model handle: a dispersion model bound to a structure.

use crate::error::DFTD3Error;
use crate::structure::DFTD3Structure;
use vstd::prelude::*;

verus! {

/// Owner of one engine dispersion model. It depends on the structure that
/// it was created from and does not own it.
#[derive(Debug)]
pub struct DFTD3Model {
    ptr: usize,
    structure: usize,
}

impl DFTD3Model {
    /// The engine handle.
    pub closed spec fn handle(&self) -> usize {
        self.ptr
    }

    /// Handle of the structure that the model is bound to.
    pub closed spec fn bound_to(&self) -> usize {
        self.structure
    }

    /// The engine handle, for the calls that take this model.
    pub fn get_c_ptr(&self) -> (ptr: usize)
        ensures
            ptr == self.handle(),
    {
        self.ptr
    }

    /// Handle of the structure that the model is bound to.
    pub fn get_structure_ptr(&self) -> (ptr: usize)
        ensures
            ptr == self.bound_to(),
    {
        self.structure
    }

    /// Gives up the model and hands out its handle, to be deleted by the
    /// engine.
    pub fn release(self) -> (ptr: usize)
        ensures
            ptr == self.handle(),
    {
        self.ptr
    }

    /// Create new D3 dispersion model (failable).
    ///
    /// `ptr` and `error` are what the engine's constructor returned for the
    /// handle of `structure` and the sink that guarded it.
    pub fn new_f(structure: &DFTD3Structure, ptr: usize, error: DFTD3Error) -> (result: Result<
        Self,
        DFTD3Error,
    >)
        ensures
            if error@.flagged() {
                result matches Err(e) && e@ == error@.folded()
            } else {
                result matches Ok(m) && m.handle() == ptr && m.bound_to() == structure.handle()
            },
    {
        error.bridge(DFTD3Model { ptr, structure: structure.get_c_ptr() })
    }

    /// Create new D3 dispersion model.
    pub fn new(structure: &DFTD3Structure, ptr: usize, error: DFTD3Error) -> (model: Self)
        requires
            !error@.flagged(),
        ensures
            model.handle() == ptr,
            model.bound_to() == structure.handle(),
    {
        DFTD3Model { ptr, structure: structure.get_c_ptr() }
    }

    /// Set realspace cutoffs (quantities in Bohr) (failable).
    ///
    /// The cutoffs go to the engine as they are; `error` is the sink that
    /// guarded the call.
    pub fn set_realspace_cutoff_f(&self, error: DFTD3Error) -> (result: Result<(), DFTD3Error>)
        ensures
            if error@.flagged() {
                result matches Err(e) && e@ == error@.folded()
            } else {
                result is Ok
            },
    {
        error.bridge(())
    }

    /// Set realspace cutoffs (quantities in Bohr).
    pub fn set_realspace_cutoff(&self, error: DFTD3Error)
        requires
            !error@.flagged(),
    {
    }
}

} // verus!
