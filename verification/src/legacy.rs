//! The decisions of the flat calling convention: a caller that hands over
//! plain arrays and two names, and wants energy, gradient and stress of the
//! dispersion correction with the three-body term switched on.

use crate::text::decode_text;
use crate::param::Damping;
use vstd::prelude::*;
use vstd::string::*;
use vstd::utf8::*;

verus! {

/// The damping function that a name of the flat calling convention stands
/// for, case as given; `None` for a name that it does not know.
pub open spec fn damping_named(corr: Seq<char>) -> Option<Damping> {
    if corr == "zero"@ || corr == "d3zero"@ || corr == "d3(zero)"@ || corr == "d3"@ {
        Some(Damping::Zero)
    } else if corr == "bj"@ || corr == "d3bj"@ || corr == "d3(bj)"@ || corr == "rational"@ {
        Some(Damping::Rational)
    } else {
        None
    }
}

/// The atomic numbers as unsigned integers, each converted as `as` does.
pub open spec fn widened(num: Seq<i32>) -> Seq<usize> {
    Seq::new(num.len(), |i: int| num[i] as usize)
}

/// What the flat calling convention asks of the core: a structure of
/// `natoms` atoms with the given atomic numbers, the method whose
/// parameters are looked up, the damping function, and the switch of the
/// three-body term.
pub struct LegacyPlan {
    pub natoms: usize,
    pub numbers: Vec<usize>,
    pub method: String,
    pub damping: Damping,
    pub atm: bool,
}

/// True iff two texts are the same.
pub fn same_text(a: &str, b: &str) -> (same: bool)
    ensures
        same == (a@ == b@),
{
    let x = a.as_bytes();
    let y = b.as_bytes();
    proof {
        encode_utf8_decode_utf8(a@);
        encode_utf8_decode_utf8(b@);
    }
    if x.len() != y.len() {
        return false;
    }
    let mut i: usize = 0;
    while i < x.len()
        invariant
            0 <= i <= x@.len(),
            x@.len() == y@.len(),
            x@ == a.spec_bytes(),
            y@ == b.spec_bytes(),
            forall|j: int| 0 <= j < i ==> x@[j] == y@[j],
        decreases x@.len() - i,
    {
        if x[i] != y[i] {
            return false;
        }
        i += 1;
    }
    assert(x@ =~= y@);
    true
}

/// Resolves the name of a damping function as the flat calling convention
/// spells it.
pub fn damping_by_name(corr: &str) -> (damping: Option<Damping>)
    ensures
        damping == damping_named(corr@),
{
    if same_text(corr, "zero") || same_text(corr, "d3zero") || same_text(corr, "d3(zero)")
        || same_text(corr, "d3") {
        Some(Damping::Zero)
    } else if same_text(corr, "bj") || same_text(corr, "d3bj") || same_text(corr, "d3(bj)")
        || same_text(corr, "rational") {
        Some(Damping::Rational)
    } else {
        None
    }
}

/// Converts atomic numbers from the engine's integers to unsigned ones.
pub fn widen_numbers(num: &[i32]) -> (out: Vec<usize>)
    ensures
        out@ == widened(num@),
{
    let mut out: Vec<usize> = Vec::new();
    let mut i: usize = 0;
    while i < num.len()
        invariant
            0 <= i <= num@.len(),
            out@.len() == i,
            forall|j: int| 0 <= j < i ==> out@[j] == num@[j] as usize,
        decreases num@.len() - i,
    {
        out.push(#[verifier::truncate] (num[i] as usize));
        i += 1;
    }
    assert(out@ =~= widened(num@));
    out
}

/// Why the flat calling convention cannot go on.
#[derive(Clone, Copy, Debug, PartialEq, Eq, Structural)]
pub enum LegacyFault {
    /// The name of the method is not UTF-8.
    MethodNotText,
    /// The name of the damping function is not UTF-8.
    DampingNotText,
    /// The name of the damping function is none of those that the
    /// convention knows.
    UnknownDamping,
}

/// What the flat calling convention makes of its arguments: the fault, or
/// the plan with the three-body term switched on.
pub open spec fn legacy_planned(
    num: Seq<i32>,
    method: Seq<u8>,
    corr: Seq<u8>,
    result: Result<LegacyPlan, LegacyFault>,
) -> bool {
    if !valid_utf8(method) {
        result == Err::<LegacyPlan, LegacyFault>(LegacyFault::MethodNotText)
    } else if !valid_utf8(corr) {
        result == Err::<LegacyPlan, LegacyFault>(LegacyFault::DampingNotText)
    } else {
        match damping_named(decode_utf8(corr)) {
            None => result == Err::<LegacyPlan, LegacyFault>(LegacyFault::UnknownDamping),
            Some(damping) => result matches Ok(plan) && plan.natoms == num.len()
                && plan.numbers@ == widened(num) && plan.method@ == decode_utf8(method)
                && plan.damping == damping && plan.atm,
        }
    }
}

/// Reads the arguments of the flat calling convention: the atomic numbers,
/// one per atom, and the names of the method and of the damping function as
/// bytes. Names that are not text and a damping function that is not known
/// are told apart, so that the caller can fail on each as it sees fit.
pub fn legacy_plan(num: &[i32], method: &[u8], corr: &[u8]) -> (result: Result<
    LegacyPlan,
    LegacyFault,
>)
    ensures
        legacy_planned(num@, method@, corr@, result),
{
    let method_name = match decode_text(method) {
        None => {
            return Err(LegacyFault::MethodNotText);
        },
        Some(name) => name,
    };
    let corr_name = match decode_text(corr) {
        None => {
            return Err(LegacyFault::DampingNotText);
        },
        Some(name) => name,
    };
    match damping_by_name(corr_name.as_str()) {
        None => Err(LegacyFault::UnknownDamping),
        Some(damping) => Ok(
            LegacyPlan {
                natoms: num.len(),
                numbers: widen_numbers(num),
                method: method_name,
                damping,
                atm: true,
            },
        ),
    }
}

/// The plan of the flat calling convention for arguments that it accepts:
/// both names are text and the damping function is known.
pub fn calc_dftd3_atm_rest_(num: &[i32], method: &[u8], corr: &[u8]) -> (plan: LegacyPlan)
    requires
        valid_utf8(method@),
        valid_utf8(corr@),
        damping_named(decode_utf8(corr@)) is Some,
    ensures
        plan.natoms == num@.len(),
        plan.numbers@ == widened(num@),
        plan.method@ == decode_utf8(method@),
        Some(plan.damping) == damping_named(decode_utf8(corr@)),
        plan.atm,
{
    match legacy_plan(num, method, corr) {
        Ok(plan) => plan,
        Err(_) => vstd::pervasive::unreached(),
    }
}

} // verus!
