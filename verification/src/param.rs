//! The damping-parameter handle: one parameterization of a damping function,
//! built from explicit coefficients or looked up by the name of a method.

use crate::error::{DFTD3Error, ErrorView};
use crate::name::{c_string, embedded_nul_text, has_nul, terminated};
use vstd::prelude::*;

verus! {

/// The damping functions that the engine knows.
#[derive(Clone, Copy, Debug, PartialEq, Eq, Structural)]
pub enum Damping {
    Zero,
    Rational,
    MZero,
    MRational,
    OptimizedPower,
}

impl Damping {
    /// Number of coefficients that the explicit constructor of the variant
    /// takes.
    pub open spec fn arity(self) -> nat {
        match self {
            Damping::Zero | Damping::Rational | Damping::MRational => 6,
            Damping::MZero | Damping::OptimizedPower => 7,
        }
    }

    /// Number of coefficients that the explicit constructor of the variant
    /// takes.
    pub fn coefficient_count(self) -> (count: usize)
        ensures
            count == self.arity(),
    {
        match self {
            Damping::Zero | Damping::Rational | Damping::MRational => 6,
            Damping::MZero | Damping::OptimizedPower => 7,
        }
    }
}

/// The arguments of an engine lookup by method name.
pub struct LoadCall {
    pub method: Vec<u8>,
    pub atm: bool,
}

/// Owner of one engine parameter set. It is not changed after creation.
#[derive(Debug)]
pub struct DFTD3Param {
    ptr: usize,
    damping: Damping,
}

/// What the constructor of a parameter set returns for the state of the
/// sink that guarded the engine call: the error if the sink is flagged, else
/// the owner of the handle that the engine returned.
pub open spec fn param_built(
    damping: Damping,
    ptr: usize,
    error: ErrorView,
    result: Result<DFTD3Param, DFTD3Error>,
) -> bool {
    if error.flagged() {
        result matches Err(e) && e@ == error.folded()
    } else {
        result matches Ok(p) && p.handle() == ptr && p.damping() == damping
    }
}

/// As [`param_built`], for a lookup by name: a name with a NUL byte fails
/// locally, whatever the engine answered.
pub open spec fn param_loaded(
    method: Seq<char>,
    damping: Damping,
    ptr: usize,
    error: ErrorView,
    result: Result<DFTD3Param, DFTD3Error>,
) -> bool {
    if has_nul(vstd::utf8::encode_utf8(method)) {
        result matches Err(e) && e@ == ErrorView::Rust(embedded_nul_text())
    } else {
        param_built(damping, ptr, error, result)
    }
}

impl DFTD3Param {
    /// The engine handle.
    pub closed spec fn handle(&self) -> usize {
        self.ptr
    }

    /// The damping function that the set parameterizes.
    pub closed spec fn damping(&self) -> Damping {
        self.damping
    }

    /// The engine handle, for the calls that take this parameter set.
    pub fn get_c_ptr(&self) -> (ptr: usize)
        ensures
            ptr == self.handle(),
    {
        self.ptr
    }

    /// The damping function that the set parameterizes.
    pub fn get_damping(&self) -> (damping: Damping)
        ensures
            damping == self.damping(),
    {
        self.damping
    }

    /// Gives up the parameter set and hands out its handle, to be deleted
    /// by the engine.
    pub fn release(self) -> (ptr: usize)
        ensures
            ptr == self.handle(),
    {
        self.ptr
    }

    /// What is marshalled before the engine may look up a method: the name
    /// as NUL-terminated bytes and the switch of the three-body term. A name
    /// with a NUL byte fails here, with nothing to hand to the engine.
    pub fn load_request(method: &str, atm: bool) -> (result: Result<LoadCall, DFTD3Error>)
        ensures
            if has_nul(vstd::utf8::encode_utf8(method@)) {
                result matches Err(e) && e@ == ErrorView::Rust(embedded_nul_text())
            } else {
                result matches Ok(call) && call.method@ == terminated(method@) && call.atm == atm
            },
    {
        match c_string(method) {
            Err(e) => Err(e),
            Ok(bytes) => Ok(LoadCall { method: bytes, atm }),
        }
    }

    fn built(damping: Damping, ptr: usize, error: DFTD3Error) -> (result: Result<
        Self,
        DFTD3Error,
    >)
        ensures
            param_built(damping, ptr, error@, result),
    {
        error.bridge(DFTD3Param { ptr, damping })
    }

    fn loaded(method: &str, damping: Damping, ptr: usize, error: DFTD3Error) -> (result: Result<
        Self,
        DFTD3Error,
    >)
        ensures
            param_loaded(method@, damping, ptr, error@, result),
    {
        match c_string(method) {
            Err(e) => Err(e),
            Ok(_) => Self::built(damping, ptr, error),
        }
    }

    /// Create new zero damping parameters (failable).
    ///
    /// `ptr` and `error` are what the engine's constructor returned and the
    /// sink that guarded it.
    pub fn new_zero_damping_f(ptr: usize, error: DFTD3Error) -> (result: Result<Self, DFTD3Error>)
        ensures
            param_built(Damping::Zero, ptr, error@, result),
    {
        Self::built(Damping::Zero, ptr, error)
    }

    /// Create new zero damping parameters.
    pub fn new_zero_damping(ptr: usize, error: DFTD3Error) -> (param: Self)
        requires
            !error@.flagged(),
        ensures
            param.handle() == ptr,
            param.damping() == Damping::Zero,
    {
        DFTD3Param { ptr, damping: Damping::Zero }
    }

    /// Load zero damping parameters from internal storage (failable).
    ///
    /// `ptr` and `error` are what the engine's lookup returned and the sink
    /// that guarded it. They are looked at only if the name can be handed to
    /// the engine.
    pub fn load_zero_damping_f(method: &str, atm: bool, ptr: usize, error: DFTD3Error) -> (result:
        Result<Self, DFTD3Error>)
        ensures
            param_loaded(method@, Damping::Zero, ptr, error@, result),
    {
        Self::loaded(method, Damping::Zero, ptr, error)
    }

    /// Load zero damping parameters from internal storage.
    pub fn load_zero_damping(method: &str, atm: bool, ptr: usize, error: DFTD3Error) -> (param:
        Self)
        requires
            !has_nul(vstd::utf8::encode_utf8(method@)),
            !error@.flagged(),
        ensures
            param.handle() == ptr,
            param.damping() == Damping::Zero,
    {
        DFTD3Param { ptr, damping: Damping::Zero }
    }

    /// Create new rational damping parameters (failable).
    ///
    /// `ptr` and `error` are what the engine's constructor returned and the
    /// sink that guarded it.
    pub fn new_rational_damping_f(ptr: usize, error: DFTD3Error) -> (result: Result<Self, DFTD3Error>)
        ensures
            param_built(Damping::Rational, ptr, error@, result),
    {
        Self::built(Damping::Rational, ptr, error)
    }

    /// Create new rational damping parameters.
    pub fn new_rational_damping(ptr: usize, error: DFTD3Error) -> (param: Self)
        requires
            !error@.flagged(),
        ensures
            param.handle() == ptr,
            param.damping() == Damping::Rational,
    {
        DFTD3Param { ptr, damping: Damping::Rational }
    }

    /// Load rational damping parameters from internal storage (failable).
    ///
    /// `ptr` and `error` are what the engine's lookup returned and the sink
    /// that guarded it. They are looked at only if the name can be handed to
    /// the engine.
    pub fn load_rational_damping_f(method: &str, atm: bool, ptr: usize, error: DFTD3Error) -> (result:
        Result<Self, DFTD3Error>)
        ensures
            param_loaded(method@, Damping::Rational, ptr, error@, result),
    {
        Self::loaded(method, Damping::Rational, ptr, error)
    }

    /// Load rational damping parameters from internal storage.
    pub fn load_rational_damping(method: &str, atm: bool, ptr: usize, error: DFTD3Error) -> (param:
        Self)
        requires
            !has_nul(vstd::utf8::encode_utf8(method@)),
            !error@.flagged(),
        ensures
            param.handle() == ptr,
            param.damping() == Damping::Rational,
    {
        DFTD3Param { ptr, damping: Damping::Rational }
    }

    /// Create new modified zero damping parameters (failable).
    ///
    /// `ptr` and `error` are what the engine's constructor returned and the
    /// sink that guarded it.
    pub fn new_mzero_damping_f(ptr: usize, error: DFTD3Error) -> (result: Result<Self, DFTD3Error>)
        ensures
            param_built(Damping::MZero, ptr, error@, result),
    {
        Self::built(Damping::MZero, ptr, error)
    }

    /// Create new modified zero damping parameters.
    pub fn new_mzero_damping(ptr: usize, error: DFTD3Error) -> (param: Self)
        requires
            !error@.flagged(),
        ensures
            param.handle() == ptr,
            param.damping() == Damping::MZero,
    {
        DFTD3Param { ptr, damping: Damping::MZero }
    }

    /// Load modified zero damping parameters from internal storage (failable).
    ///
    /// `ptr` and `error` are what the engine's lookup returned and the sink
    /// that guarded it. They are looked at only if the name can be handed to
    /// the engine.
    pub fn load_mzero_damping_f(method: &str, atm: bool, ptr: usize, error: DFTD3Error) -> (result:
        Result<Self, DFTD3Error>)
        ensures
            param_loaded(method@, Damping::MZero, ptr, error@, result),
    {
        Self::loaded(method, Damping::MZero, ptr, error)
    }

    /// Load modified zero damping parameters from internal storage.
    pub fn load_mzero_damping(method: &str, atm: bool, ptr: usize, error: DFTD3Error) -> (param:
        Self)
        requires
            !has_nul(vstd::utf8::encode_utf8(method@)),
            !error@.flagged(),
        ensures
            param.handle() == ptr,
            param.damping() == Damping::MZero,
    {
        DFTD3Param { ptr, damping: Damping::MZero }
    }

    /// Create new modified rational damping parameters (failable).
    ///
    /// `ptr` and `error` are what the engine's constructor returned and the
    /// sink that guarded it.
    pub fn new_mrational_damping_f(ptr: usize, error: DFTD3Error) -> (result: Result<Self, DFTD3Error>)
        ensures
            param_built(Damping::MRational, ptr, error@, result),
    {
        Self::built(Damping::MRational, ptr, error)
    }

    /// Create new modified rational damping parameters.
    pub fn new_mrational_damping(ptr: usize, error: DFTD3Error) -> (param: Self)
        requires
            !error@.flagged(),
        ensures
            param.handle() == ptr,
            param.damping() == Damping::MRational,
    {
        DFTD3Param { ptr, damping: Damping::MRational }
    }

    /// Load modified rational damping parameters from internal storage (failable).
    ///
    /// `ptr` and `error` are what the engine's lookup returned and the sink
    /// that guarded it. They are looked at only if the name can be handed to
    /// the engine.
    pub fn load_mrational_damping_f(method: &str, atm: bool, ptr: usize, error: DFTD3Error) -> (result:
        Result<Self, DFTD3Error>)
        ensures
            param_loaded(method@, Damping::MRational, ptr, error@, result),
    {
        Self::loaded(method, Damping::MRational, ptr, error)
    }

    /// Load modified rational damping parameters from internal storage.
    pub fn load_mrational_damping(method: &str, atm: bool, ptr: usize, error: DFTD3Error) -> (param:
        Self)
        requires
            !has_nul(vstd::utf8::encode_utf8(method@)),
            !error@.flagged(),
        ensures
            param.handle() == ptr,
            param.damping() == Damping::MRational,
    {
        DFTD3Param { ptr, damping: Damping::MRational }
    }

    /// Create new optimized damping parameters (failable).
    ///
    /// `ptr` and `error` are what the engine's constructor returned and the
    /// sink that guarded it.
    pub fn new_optimizedpower_damping_f(ptr: usize, error: DFTD3Error) -> (result: Result<Self, DFTD3Error>)
        ensures
            param_built(Damping::OptimizedPower, ptr, error@, result),
    {
        Self::built(Damping::OptimizedPower, ptr, error)
    }

    /// Create new optimized damping parameters.
    pub fn new_optimizedpower_damping(ptr: usize, error: DFTD3Error) -> (param: Self)
        requires
            !error@.flagged(),
        ensures
            param.handle() == ptr,
            param.damping() == Damping::OptimizedPower,
    {
        DFTD3Param { ptr, damping: Damping::OptimizedPower }
    }

    /// Load optimized damping parameters from internal storage (failable).
    ///
    /// `ptr` and `error` are what the engine's lookup returned and the sink
    /// that guarded it. They are looked at only if the name can be handed to
    /// the engine.
    pub fn load_optimizedpower_damping_f(method: &str, atm: bool, ptr: usize, error: DFTD3Error) -> (result:
        Result<Self, DFTD3Error>)
        ensures
            param_loaded(method@, Damping::OptimizedPower, ptr, error@, result),
    {
        Self::loaded(method, Damping::OptimizedPower, ptr, error)
    }

    /// Load optimized damping parameters from internal storage.
    pub fn load_optimizedpower_damping(method: &str, atm: bool, ptr: usize, error: DFTD3Error) -> (param:
        Self)
        requires
            !has_nul(vstd::utf8::encode_utf8(method@)),
            !error@.flagged(),
        ensures
            param.handle() == ptr,
            param.damping() == Damping::OptimizedPower,
    {
        DFTD3Param { ptr, damping: Damping::OptimizedPower }
    }
}

} // verus!
