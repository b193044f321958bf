//! The evaluation entry points: dispersion energy with its derivatives, its
//! pairwise decomposition, and the counterpoise correction.
//!
//! Each entry point borrows its handles and changes none of them. Its result
//! is a function of what the engine wrote and of the state of the sink that
//! guarded the call, so the same answer of the engine gives the same result.

use crate::error::{DFTD3Error, ErrorView};
use crate::gcp::DFTD3GCP;
use crate::model::DFTD3Model;
use crate::param::DFTD3Param;
use crate::structure::{DFTD3Structure, TENSOR_LEN};
use crate::text::{dimension_message, dimension_text};
use vstd::prelude::*;

verus! {

/// The buffers that the engine fills with an energy and its derivatives:
/// the energy (Hartree), the gradient, three entries per atom
/// (Hartree/Bohr), and the stress tensor, flattened row by row.
pub struct Derivatives<T> {
    pub energy: T,
    pub gradient: Vec<T>,
    pub sigma: Vec<T>,
}

/// The buffers that the engine fills with a pairwise decomposition: the
/// two-body and the three-body contributions, each one entry per pair of
/// atoms, row by row.
pub struct PairEnergies<T> {
    pub pair_energy2: Vec<T>,
    pub pair_energy3: Vec<T>,
}

/// The arguments of the engine's dispersion evaluation.
pub struct DispersionCall<T> {
    pub structure: usize,
    pub model: usize,
    pub param: usize,
    pub buffers: Derivatives<T>,
}

/// The arguments of the engine's pairwise evaluation.
pub struct PairwiseCall<T> {
    pub structure: usize,
    pub model: usize,
    pub param: usize,
    pub buffers: PairEnergies<T>,
}

/// The arguments of the engine's counterpoise evaluation.
pub struct CounterpoiseCall<T> {
    pub structure: usize,
    pub gcp: usize,
    pub buffers: Derivatives<T>,
}

/// `len` copies of `value`.
pub open spec fn filled_seq<T>(value: T, len: nat) -> Seq<T> {
    Seq::new(len, |i: int| value)
}

/// Fresh derivative buffers for `natoms` atoms.
pub open spec fn fresh_derivatives<T>(natoms: nat, zero: T, buffers: Derivatives<T>) -> bool {
    &&& buffers.energy == zero
    &&& buffers.gradient@ == filled_seq(zero, 3 * natoms)
    &&& buffers.sigma@ == filled_seq(zero, TENSOR_LEN as nat)
}

/// The first derivative buffer whose length does not fit the atom count,
/// with the message that names it; `None` if both fit.
pub open spec fn derivatives_fault(natoms: nat, gradient_len: nat, sigma_len: nat) -> Option<
    Seq<char>,
> {
    if gradient_len != 3 * natoms {
        Some(dimension_text("gradient"@, 3 * natoms, gradient_len))
    } else if sigma_len != TENSOR_LEN {
        Some(dimension_text("sigma"@, TENSOR_LEN as nat, sigma_len))
    } else {
        None
    }
}

/// The first pairwise buffer whose length is not the square of the atom
/// count, with the message that names it; `None` if both fit.
pub open spec fn pairs_fault(natoms: nat, len2: nat, len3: nat) -> Option<Seq<char>> {
    if len2 != natoms * natoms {
        Some(dimension_text("pair_energy2"@, natoms * natoms, len2))
    } else if len3 != natoms * natoms {
        Some(dimension_text("pair_energy3"@, natoms * natoms, len3))
    } else {
        None
    }
}

/// What an evaluation of an energy with its derivatives returns. A flagged
/// sink gives the error and no buffer. On a clear sink, buffers that do not
/// fit the atom count give a local error, and buffers that fit are handed
/// out as they are.
pub open spec fn derivatives_result<T>(
    natoms: nat,
    buffers: Derivatives<T>,
    error: ErrorView,
    result: Result<(T, Vec<T>, Vec<T>), DFTD3Error>,
) -> bool {
    if error.flagged() {
        result matches Err(e) && e@ == error.folded()
    } else {
        match derivatives_fault(natoms, buffers.gradient@.len(), buffers.sigma@.len()) {
            Some(text) => result matches Err(e) && e@ == ErrorView::Rust(text),
            None => result == Ok::<(T, Vec<T>, Vec<T>), DFTD3Error>(
                (buffers.energy, buffers.gradient, buffers.sigma),
            ),
        }
    }
}

/// What an evaluation of the pairwise decomposition returns, in the same
/// way.
pub open spec fn pairs_result<T>(
    natoms: nat,
    buffers: PairEnergies<T>,
    error: ErrorView,
    result: Result<(Vec<T>, Vec<T>), DFTD3Error>,
) -> bool {
    if error.flagged() {
        result matches Err(e) && e@ == error.folded()
    } else {
        match pairs_fault(natoms, buffers.pair_energy2@.len(), buffers.pair_energy3@.len()) {
            Some(text) => result matches Err(e) && e@ == ErrorView::Rust(text),
            None => result == Ok::<(Vec<T>, Vec<T>), DFTD3Error>(
                (buffers.pair_energy2, buffers.pair_energy3),
            ),
        }
    }
}

/// Two evaluations that got the same answer from the engine, buffers and
/// sink, give the same result: the same values, or errors of the same
/// content.
pub proof fn lemma_derivatives_repeatable<T>(
    natoms: nat,
    buffers: Derivatives<T>,
    error: ErrorView,
    first: Result<(T, Vec<T>, Vec<T>), DFTD3Error>,
    second: Result<(T, Vec<T>, Vec<T>), DFTD3Error>,
)
    requires
        derivatives_result(natoms, buffers, error, first),
        derivatives_result(natoms, buffers, error, second),
    ensures
        match (first, second) {
            (Ok(a), Ok(b)) => a == b,
            (Err(a), Err(b)) => a@ == b@,
            _ => false,
        },
{
}

/// As [`lemma_derivatives_repeatable`], for the pairwise decomposition.
pub proof fn lemma_pairs_repeatable<T>(
    natoms: nat,
    buffers: PairEnergies<T>,
    error: ErrorView,
    first: Result<(Vec<T>, Vec<T>), DFTD3Error>,
    second: Result<(Vec<T>, Vec<T>), DFTD3Error>,
)
    requires
        pairs_result(natoms, buffers, error, first),
        pairs_result(natoms, buffers, error, second),
    ensures
        match (first, second) {
            (Ok(a), Ok(b)) => a == b,
            (Err(a), Err(b)) => a@ == b@,
            _ => false,
        },
{
}

/// An evaluation that succeeds hands out a gradient of exactly three
/// entries per atom and a stress tensor of exactly nine, and the sink that
/// guarded it is clear.
pub proof fn lemma_derivatives_shape<T>(
    natoms: nat,
    buffers: Derivatives<T>,
    error: ErrorView,
    result: Result<(T, Vec<T>, Vec<T>), DFTD3Error>,
)
    requires
        derivatives_result(natoms, buffers, error, result),
        result is Ok,
    ensures
        !error.flagged(),
        result->Ok_0.1@.len() == 3 * natoms,
        result->Ok_0.2@.len() == 9,
{
}

/// A buffer of `len` copies of `value`.
pub fn filled<T: Copy>(value: T, len: usize) -> (buffer: Vec<T>)
    ensures
        buffer@ == filled_seq(value, len as nat),
{
    let mut buffer: Vec<T> = Vec::new();
    let mut i: usize = 0;
    while i < len
        invariant
            0 <= i <= len,
            buffer@.len() == i,
            forall|j: int| 0 <= j < i ==> buffer@[j] == value,
        decreases len - i,
    {
        buffer.push(value);
        i += 1;
    }
    assert(buffer@ =~= filled_seq(value, len as nat));
    buffer
}

/// Allocates the derivative buffers of a structure, every entry `zero`.
pub fn derivative_buffers<T: Copy>(structure: &DFTD3Structure, zero: T) -> (buffers: Derivatives<
    T,
>)
    ensures
        fresh_derivatives(structure.natoms() as nat, zero, buffers),
{
    let natoms: usize = structure.get_natoms();
    Derivatives { energy: zero, gradient: filled(zero, 3 * natoms), sigma: filled(zero, TENSOR_LEN) }
}

fn finish_derivatives<T>(natoms: usize, buffers: Derivatives<T>, error: DFTD3Error) -> (result:
    Result<(T, Vec<T>, Vec<T>), DFTD3Error>)
    ensures
        derivatives_result(natoms as nat, buffers, error@, result),
{
    if error.check() {
        return error.bridge((buffers.energy, buffers.gradient, buffers.sigma));
    }
    let expected: u128 = 3 * (natoms as u128);
    if buffers.gradient.len() as u128 != expected {
        return Err(
            DFTD3Error::Rust(dimension_message("gradient", expected, buffers.gradient.len())),
        );
    }
    if buffers.sigma.len() != TENSOR_LEN {
        return Err(DFTD3Error::Rust(dimension_message("sigma", 9, buffers.sigma.len())));
    }
    Ok((buffers.energy, buffers.gradient, buffers.sigma))
}

/// What is allocated and marshalled before the engine may evaluate the
/// dispersion energy: the three handles and buffers of three entries per
/// atom for the gradient and of nine for the stress tensor.
pub fn get_dispersion_request<T: Copy>(
    structure: &DFTD3Structure,
    model: &DFTD3Model,
    param: &DFTD3Param,
    zero: T,
) -> (call: DispersionCall<T>)
    ensures
        call.structure == structure.handle(),
        call.model == model.handle(),
        call.param == param.handle(),
        fresh_derivatives(structure.natoms() as nat, zero, call.buffers),
{
    DispersionCall {
        structure: structure.get_c_ptr(),
        model: model.get_c_ptr(),
        param: param.get_c_ptr(),
        buffers: derivative_buffers(structure, zero),
    }
}

/// Evaluate the dispersion energy and its derivatives (failable).
///
/// `buffers` are the buffers of the request after the engine wrote to them,
/// `error` is the sink that guarded the call. An `Ok` holds the energy, a
/// gradient of exactly three entries per atom and a stress tensor of
/// exactly nine.
pub fn get_dispersion_f<T>(
    structure: &DFTD3Structure,
    model: &DFTD3Model,
    param: &DFTD3Param,
    buffers: Derivatives<T>,
    error: DFTD3Error,
) -> (result: Result<(T, Vec<T>, Vec<T>), DFTD3Error>)
    ensures
        derivatives_result(structure.natoms() as nat, buffers, error@, result),
        result matches Ok(values) ==> values.1@.len() == 3 * structure.natoms() && values.2@.len()
            == TENSOR_LEN,
{
    finish_derivatives(structure.get_natoms(), buffers, error)
}

/// Evaluate the dispersion energy and its derivatives.
pub fn get_dispersion<T>(
    structure: &DFTD3Structure,
    model: &DFTD3Model,
    param: &DFTD3Param,
    buffers: Derivatives<T>,
    error: DFTD3Error,
) -> (values: (T, Vec<T>, Vec<T>))
    requires
        !error@.flagged(),
        derivatives_fault(
            structure.natoms() as nat,
            buffers.gradient@.len(),
            buffers.sigma@.len(),
        ) is None,
    ensures
        values == (buffers.energy, buffers.gradient, buffers.sigma),
        values.1@.len() == 3 * structure.natoms(),
        values.2@.len() == TENSOR_LEN,
{
    (buffers.energy, buffers.gradient, buffers.sigma)
}

/// What is allocated and marshalled before the engine may evaluate the
/// pairwise decomposition: the three handles and two buffers of one entry
/// per pair of atoms.
pub fn get_pairwise_dispersion_request<T: Copy>(
    structure: &DFTD3Structure,
    model: &DFTD3Model,
    param: &DFTD3Param,
    zero: T,
) -> (call: PairwiseCall<T>)
    requires
        structure.natoms() * structure.natoms() <= usize::MAX,
    ensures
        call.structure == structure.handle(),
        call.model == model.handle(),
        call.param == param.handle(),
        call.buffers.pair_energy2@ == filled_seq(
            zero,
            (structure.natoms() * structure.natoms()) as nat,
        ),
        call.buffers.pair_energy3@ == call.buffers.pair_energy2@,
{
    let natoms: usize = structure.get_natoms();
    PairwiseCall {
        structure: structure.get_c_ptr(),
        model: model.get_c_ptr(),
        param: param.get_c_ptr(),
        buffers: PairEnergies {
            pair_energy2: filled(zero, natoms * natoms),
            pair_energy3: filled(zero, natoms * natoms),
        },
    }
}

/// Evaluate the pairwise representation of the dispersion energy
/// (failable).
///
/// `buffers` are the buffers of the request after the engine wrote to them,
/// `error` is the sink that guarded the call.
pub fn get_pairwise_dispersion_f<T>(
    structure: &DFTD3Structure,
    model: &DFTD3Model,
    param: &DFTD3Param,
    buffers: PairEnergies<T>,
    error: DFTD3Error,
) -> (result: Result<(Vec<T>, Vec<T>), DFTD3Error>)
    ensures
        pairs_result(structure.natoms() as nat, buffers, error@, result),
{
    if error.check() {
        return error.bridge((buffers.pair_energy2, buffers.pair_energy3));
    }
    let natoms: usize = structure.get_natoms();
    assert((natoms as u128) * (natoms as u128) <= u128::MAX) by (nonlinear_arith)
        requires
            natoms <= 0xffff_ffff_ffff_ffff,
    ;
    let expected: u128 = (natoms as u128) * (natoms as u128);
    if buffers.pair_energy2.len() as u128 != expected {
        return Err(
            DFTD3Error::Rust(
                dimension_message("pair_energy2", expected, buffers.pair_energy2.len()),
            ),
        );
    }
    if buffers.pair_energy3.len() as u128 != expected {
        return Err(
            DFTD3Error::Rust(
                dimension_message("pair_energy3", expected, buffers.pair_energy3.len()),
            ),
        );
    }
    Ok((buffers.pair_energy2, buffers.pair_energy3))
}

/// Evaluate the pairwise representation of the dispersion energy.
pub fn get_pairwise_dispersion<T>(
    structure: &DFTD3Structure,
    model: &DFTD3Model,
    param: &DFTD3Param,
    buffers: PairEnergies<T>,
    error: DFTD3Error,
) -> (values: (Vec<T>, Vec<T>))
    requires
        !error@.flagged(),
        pairs_fault(
            structure.natoms() as nat,
            buffers.pair_energy2@.len(),
            buffers.pair_energy3@.len(),
        ) is None,
    ensures
        values == (buffers.pair_energy2, buffers.pair_energy3),
        values.0@.len() == structure.natoms() * structure.natoms(),
        values.1@.len() == structure.natoms() * structure.natoms(),
{
    (buffers.pair_energy2, buffers.pair_energy3)
}

/// What is allocated and marshalled before the engine may evaluate the
/// counterpoise correction: the two handles and the derivative buffers.
pub fn get_counterpoise_request<T: Copy>(structure: &DFTD3Structure, gcp: &DFTD3GCP, zero: T) -> (call:
    CounterpoiseCall<T>)
    ensures
        call.structure == structure.handle(),
        call.gcp == gcp.handle(),
        fresh_derivatives(structure.natoms() as nat, zero, call.buffers),
{
    CounterpoiseCall {
        structure: structure.get_c_ptr(),
        gcp: gcp.get_c_ptr(),
        buffers: derivative_buffers(structure, zero),
    }
}

/// Evaluate the counterpoise correction (failable).
///
/// `buffers` are the buffers of the request after the engine wrote to them,
/// `error` is the sink that guarded the call. An `Ok` holds the energy, a
/// gradient of exactly three entries per atom and a stress tensor of
/// exactly nine.
pub fn get_counterpoise_f<T>(
    structure: &DFTD3Structure,
    gcp: &DFTD3GCP,
    buffers: Derivatives<T>,
    error: DFTD3Error,
) -> (result: Result<(T, Vec<T>, Vec<T>), DFTD3Error>)
    ensures
        derivatives_result(structure.natoms() as nat, buffers, error@, result),
        result matches Ok(values) ==> values.1@.len() == 3 * structure.natoms() && values.2@.len()
            == TENSOR_LEN,
{
    finish_derivatives(structure.get_natoms(), buffers, error)
}

/// Evaluate the counterpoise correction.
pub fn get_counterpoise<T>(
    structure: &DFTD3Structure,
    gcp: &DFTD3GCP,
    buffers: Derivatives<T>,
    error: DFTD3Error,
) -> (values: (T, Vec<T>, Vec<T>))
    requires
        !error@.flagged(),
        derivatives_fault(
            structure.natoms() as nat,
            buffers.gradient@.len(),
            buffers.sigma@.len(),
        ) is None,
    ensures
        values == (buffers.energy, buffers.gradient, buffers.sigma),
        values.1@.len() == 3 * structure.natoms(),
        values.2@.len() == TENSOR_LEN,
{
    (buffers.energy, buffers.gradient, buffers.sigma)
}

} // verus!
