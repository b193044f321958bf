//! The counterpoise-parameter handle: parameters of the geometric
//! counterpoise correction, looked up by method and basis.

use crate::error::{DFTD3Error, ErrorView};
use crate::name::{c_string, embedded_nul_text, has_nul, terminated};
use crate::structure::DFTD3Structure;
use vstd::prelude::*;

verus! {

/// The arguments of the engine's counterpoise lookup.
pub struct GcpCall {
    pub structure: usize,
    pub method: Vec<u8>,
    pub basis: Vec<u8>,
}

/// True iff one of the two names cannot be handed to the engine.
pub open spec fn gcp_name_fault(method: Seq<char>, basis: Seq<char>) -> bool {
    has_nul(vstd::utf8::encode_utf8(method)) || has_nul(vstd::utf8::encode_utf8(basis))
}

/// Owner of one engine counterpoise parameter set. It depends on the
/// structure that it was loaded for and does not own it.
#[derive(Debug)]
pub struct DFTD3GCP {
    ptr: usize,
    structure: usize,
}

impl DFTD3GCP {
    /// The engine handle.
    pub closed spec fn handle(&self) -> usize {
        self.ptr
    }

    /// Handle of the structure that the parameters were loaded for.
    pub closed spec fn bound_to(&self) -> usize {
        self.structure
    }

    /// The engine handle, for the calls that take these parameters.
    pub fn get_c_ptr(&self) -> (ptr: usize)
        ensures
            ptr == self.handle(),
    {
        self.ptr
    }

    /// Handle of the structure that the parameters were loaded for.
    pub fn get_structure_ptr(&self) -> (ptr: usize)
        ensures
            ptr == self.bound_to(),
    {
        self.structure
    }

    /// Gives up the parameters and hands out their handle, to be deleted by
    /// the engine.
    pub fn release(self) -> (ptr: usize)
        ensures
            ptr == self.handle(),
    {
        self.ptr
    }

    /// What is marshalled before the engine may look up counterpoise
    /// parameters: the handle of the structure and both names as
    /// NUL-terminated bytes. A name with a NUL byte fails here, with nothing
    /// to hand to the engine.
    pub fn load_request(structure: &DFTD3Structure, method: &str, basis: &str) -> (result: Result<
        GcpCall,
        DFTD3Error,
    >)
        ensures
            if gcp_name_fault(method@, basis@) {
                result matches Err(e) && e@ == ErrorView::Rust(embedded_nul_text())
            } else {
                result matches Ok(call) && call.structure == structure.handle() && call.method@
                    == terminated(method@) && call.basis@ == terminated(basis@)
            },
    {
        let method_bytes = match c_string(method) {
            Err(e) => {
                return Err(e);
            },
            Ok(bytes) => bytes,
        };
        let basis_bytes = match c_string(basis) {
            Err(e) => {
                return Err(e);
            },
            Ok(bytes) => bytes,
        };
        Ok(GcpCall { structure: structure.get_c_ptr(), method: method_bytes, basis: basis_bytes })
    }

    /// Load geometric counter-poise parameters from internal storage
    /// (failable).
    ///
    /// `ptr` and `error` are what the engine's lookup returned and the sink
    /// that guarded it. They are looked at only if both names can be handed
    /// to the engine.
    pub fn load_gcp_param_f(
        structure: &DFTD3Structure,
        method: &str,
        basis: &str,
        ptr: usize,
        error: DFTD3Error,
    ) -> (result: Result<Self, DFTD3Error>)
        ensures
            if gcp_name_fault(method@, basis@) {
                result matches Err(e) && e@ == ErrorView::Rust(embedded_nul_text())
            } else if error@.flagged() {
                result matches Err(e) && e@ == error@.folded()
            } else {
                result matches Ok(g) && g.handle() == ptr && g.bound_to() == structure.handle()
            },
    {
        match Self::load_request(structure, method, basis) {
            Err(e) => Err(e),
            Ok(call) => error.bridge(DFTD3GCP { ptr, structure: call.structure }),
        }
    }

    /// Load geometric counter-poise parameters from internal storage.
    pub fn load_gcp_param(
        structure: &DFTD3Structure,
        method: &str,
        basis: &str,
        ptr: usize,
        error: DFTD3Error,
    ) -> (gcp: Self)
        requires
            !gcp_name_fault(method@, basis@),
            !error@.flagged(),
        ensures
            gcp.handle() == ptr,
            gcp.bound_to() == structure.handle(),
    {
        DFTD3GCP { ptr, structure: structure.get_c_ptr() }
    }

    /// Set realspace cutoffs (quantities in Bohr) (failable).
    ///
    /// The cutoffs go to the engine as they are; `error` is the sink that
    /// guarded the call.
    pub fn set_realspace_cutoff_f(&self, error: DFTD3Error) -> (result: Result<(), DFTD3Error>)
        ensures
            if error@.flagged() {
                result matches Err(e) && e@ == error@.folded()
            } else {
                result is Ok
            },
    {
        error.bridge(())
    }

    /// Set realspace cutoffs (quantities in Bohr).
    pub fn set_realspace_cutoff(&self, error: DFTD3Error)
        requires
            !error@.flagged(),
    {
    }
}

} // verus!
