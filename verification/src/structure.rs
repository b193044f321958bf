//! The structure handle: a molecular or periodic geometry held by the engine.

use crate::error::{DFTD3Error, ErrorView};
use crate::text::{dimension_message, dimension_text};
use vstd::prelude::*;

verus! {

/// Length of a flattened lattice or stress tensor.
pub const TENSOR_LEN: usize = 9;

/// Length of the periodicity flags.
pub const PERIODIC_LEN: usize = 3;

/// The first array whose length does not fit the atom count, with the
/// message that names it; `None` if all of them fit. The order is: atomic
/// numbers, positions, lattice.
pub open spec fn dimension_fault(
    natoms: nat,
    numbers_len: nat,
    positions_len: nat,
    lattice_len: nat,
) -> Option<Seq<char>> {
    if numbers_len != natoms {
        Some(dimension_text("numbers"@, natoms, numbers_len))
    } else {
        geometry_fault(natoms, positions_len, lattice_len)
    }
}

/// As [`dimension_fault`], for the arrays of a coordinate update.
pub open spec fn geometry_fault(natoms: nat, positions_len: nat, lattice_len: nat) -> Option<
    Seq<char>,
> {
    if positions_len != 3 * natoms {
        Some(dimension_text("positions"@, 3 * natoms, positions_len))
    } else if lattice_len != TENSOR_LEN {
        Some(dimension_text("lattice"@, TENSOR_LEN as nat, lattice_len))
    } else {
        None
    }
}

/// A structure is refused locally exactly when one of its arrays does not
/// fit: the atomic numbers are not one per atom, the positions are not three
/// per atom, or the lattice is not nine entries long.
pub proof fn lemma_fault_iff_mismatch(
    natoms: nat,
    numbers_len: nat,
    positions_len: nat,
    lattice_len: nat,
)
    ensures
        dimension_fault(natoms, numbers_len, positions_len, lattice_len) is Some <==> (numbers_len
            != natoms || positions_len != 3 * natoms || lattice_len != 9),
        geometry_fault(natoms, positions_len, lattice_len) is Some <==> (positions_len != 3
            * natoms || lattice_len != 9),
{
}

/// The atomic numbers as the engine takes them: each cut down to 32 bits.
pub open spec fn marshalled_numbers(numbers: Seq<usize>) -> Seq<i32> {
    Seq::new(numbers.len(), |i: int| numbers[i] as i32)
}

/// The integer arguments of the engine's structure constructor.
pub struct StructureCall {
    pub natoms: i32,
    pub numbers: Vec<i32>,
}

/// Checks the lengths of a coordinate array and a lattice against an atom
/// count.
pub fn check_geometry(natoms: usize, positions_len: usize, lattice_len: usize) -> (result: Result<
    (),
    DFTD3Error,
>)
    ensures
        match geometry_fault(natoms as nat, positions_len as nat, lattice_len as nat) {
            Some(text) => result matches Err(e) && e@ == ErrorView::Rust(text),
            None => result is Ok,
        },
{
    let expected: u128 = 3 * (natoms as u128);
    if positions_len as u128 != expected {
        return Err(DFTD3Error::Rust(dimension_message("positions", expected, positions_len)));
    }
    if lattice_len != TENSOR_LEN {
        return Err(DFTD3Error::Rust(dimension_message("lattice", 9, lattice_len)));
    }
    Ok(())
}

/// Checks the lengths of all arrays of a new structure against its atom
/// count.
pub fn check_dimensions(
    natoms: usize,
    numbers_len: usize,
    positions_len: usize,
    lattice_len: usize,
) -> (result: Result<(), DFTD3Error>)
    ensures
        match dimension_fault(
            natoms as nat,
            numbers_len as nat,
            positions_len as nat,
            lattice_len as nat,
        ) {
            Some(text) => result matches Err(e) && e@ == ErrorView::Rust(text),
            None => result is Ok,
        },
{
    if numbers_len != natoms {
        return Err(
            DFTD3Error::Rust(dimension_message("numbers", natoms as u128, numbers_len)),
        );
    }
    check_geometry(natoms, positions_len, lattice_len)
}

/// Converts atomic numbers to the engine's 32-bit integers.
pub fn marshal_numbers(numbers: &[usize]) -> (out: Vec<i32>)
    ensures
        out@ == marshalled_numbers(numbers@),
{
    let mut out: Vec<i32> = Vec::new();
    let mut i: usize = 0;
    while i < numbers.len()
        invariant
            0 <= i <= numbers@.len(),
            out@.len() == i,
            forall|j: int| 0 <= j < i ==> out@[j] == numbers@[j] as i32,
        decreases numbers@.len() - i,
    {
        out.push(#[verifier::truncate] (numbers[i] as i32));
        i += 1;
    }
    assert(out@ =~= marshalled_numbers(numbers@));
    out
}

/// Owner of one engine structure: its handle and its atom count, which is
/// fixed for the life of the structure.
#[derive(Debug)]
pub struct DFTD3Structure {
    ptr: usize,
    natoms: usize,
}

impl DFTD3Structure {
    #[verifier::type_invariant]
    spec fn fits(&self) -> bool {
        3 * self.natoms <= usize::MAX
    }

    /// The engine handle.
    pub closed spec fn handle(&self) -> usize {
        self.ptr
    }

    /// The atom count.
    pub closed spec fn natoms(&self) -> usize {
        self.natoms
    }

    /// Get number of atoms. Three coordinates per atom always fit a length.
    pub fn get_natoms(&self) -> (natoms: usize)
        ensures
            natoms == self.natoms(),
            3 * natoms <= usize::MAX,
    {
        proof {
            use_type_invariant(self);
        }
        self.natoms
    }

    /// The engine handle, for the calls that take this structure.
    pub fn get_c_ptr(&self) -> (ptr: usize)
        ensures
            ptr == self.handle(),
    {
        self.ptr
    }

    /// Gives up the structure and hands out its handle, to be deleted by
    /// the engine. No value of this type refers to the handle afterwards.
    pub fn release(self) -> (ptr: usize)
        ensures
            ptr == self.handle(),
    {
        self.ptr
    }

    /// What is checked and marshalled before the engine's structure
    /// constructor may be called (quantities in Bohr). Any array whose
    /// length does not fit fails here, with a local error and with nothing
    /// to hand to the engine.
    pub fn request<T>(
        natoms: usize,
        numbers: &[usize],
        positions: &[T],
        lattice: &[T],
        periodic: &[bool],
    ) -> (result: Result<StructureCall, DFTD3Error>)
        requires
            periodic@.len() == PERIODIC_LEN,
        ensures
            match dimension_fault(
                natoms as nat,
                numbers@.len(),
                positions@.len(),
                lattice@.len(),
            ) {
                Some(text) => result matches Err(e) && e@ == ErrorView::Rust(text),
                None => result matches Ok(call) && call.natoms == natoms as i32 && call.numbers@
                    == marshalled_numbers(numbers@),
            },
    {
        match check_dimensions(natoms, numbers.len(), positions.len(), lattice.len()) {
            Err(e) => Err(e),
            Ok(()) => Ok(
                StructureCall {
                    natoms: #[verifier::truncate] (natoms as i32),
                    numbers: marshal_numbers(numbers),
                },
            ),
        }
    }

    /// Create new molecular structure data (quantities in Bohr) (failable).
    ///
    /// `ptr` and `error` are what the engine's constructor returned and the
    /// sink that guarded it. They are looked at only if the arrays fit the
    /// atom count: otherwise the result is the local error of
    /// [`Self::request`], whatever they hold.
    pub fn new_f<T>(
        natoms: usize,
        numbers: &[usize],
        positions: &[T],
        lattice: &[T],
        periodic: &[bool],
        ptr: usize,
        error: DFTD3Error,
    ) -> (result: Result<Self, DFTD3Error>)
        requires
            periodic@.len() == PERIODIC_LEN,
        ensures
            match dimension_fault(
                natoms as nat,
                numbers@.len(),
                positions@.len(),
                lattice@.len(),
            ) {
                Some(text) => result matches Err(e) && e@ == ErrorView::Rust(text),
                None => if error@.flagged() {
                    result matches Err(e) && e@ == error@.folded()
                } else {
                    result matches Ok(s) && s.handle() == ptr && s.natoms() == natoms
                },
            },
    {
        match check_dimensions(natoms, numbers.len(), positions.len(), lattice.len()) {
            Err(e) => Err(e),
            Ok(()) => error.bridge(DFTD3Structure { ptr, natoms }),
        }
    }

    /// Create new molecular structure data (quantities in Bohr).
    ///
    /// # Arguments
    ///
    /// * `numbers` - numbers [natoms]
    /// * `positions` - positions [natoms][3]
    /// * `lattice` - lattice [3][3]
    /// * `periodic` - periodic [3]
    /// * `ptr`, `error` - the engine's answer, as for [`Self::new_f`]
    pub fn new<T>(
        natoms: usize,
        numbers: &[usize],
        positions: &[T],
        lattice: &[T],
        periodic: &[bool],
        ptr: usize,
        error: DFTD3Error,
    ) -> (structure: Self)
        requires
            periodic@.len() == PERIODIC_LEN,
            dimension_fault(natoms as nat, numbers@.len(), positions@.len(), lattice@.len())
                is None,
            !error@.flagged(),
        ensures
            structure.handle() == ptr,
            structure.natoms() == natoms,
    {
        let coordinates: usize = positions.len();
        assert(coordinates == 3 * natoms);
        DFTD3Structure { ptr, natoms }
    }

    /// What is checked before the engine may update the coordinates and the
    /// lattice of this structure.
    pub fn update_request<T>(&self, positions: &[T], lattice: &[T]) -> (result: Result<
        (),
        DFTD3Error,
    >)
        ensures
            match geometry_fault(self.natoms() as nat, positions@.len(), lattice@.len()) {
                Some(text) => result matches Err(e) && e@ == ErrorView::Rust(text),
                None => result is Ok,
            },
    {
        check_geometry(self.natoms, positions.len(), lattice.len())
    }

    /// Update coordinates and lattice parameters (quantities in Bohr)
    /// (failable). The handle and the atom count stay as they are.
    ///
    /// `error` is the sink that guarded the engine's update; it is looked
    /// at only if the arrays fit the atom count.
    pub fn update_f<T>(&self, positions: &[T], lattice: &[T], error: DFTD3Error) -> (result:
        Result<(), DFTD3Error>)
        ensures
            match geometry_fault(self.natoms() as nat, positions@.len(), lattice@.len()) {
                Some(text) => result matches Err(e) && e@ == ErrorView::Rust(text),
                None => if error@.flagged() {
                    result matches Err(e) && e@ == error@.folded()
                } else {
                    result is Ok
                },
            },
    {
        match check_geometry(self.natoms, positions.len(), lattice.len()) {
            Err(e) => Err(e),
            Ok(()) => error.bridge(()),
        }
    }

    /// Update coordinates and lattice parameters (quantities in Bohr).
    ///
    /// # Arguments
    ///
    /// * `positions` - positions [natoms][3]
    /// * `lattice` - lattice [3][3]
    /// * `error` - the sink that guarded the engine's update
    pub fn update<T>(&self, positions: &[T], lattice: &[T], error: DFTD3Error)
        requires
            geometry_fault(self.natoms() as nat, positions@.len(), lattice@.len()) is None,
            !error@.flagged(),
    {
    }
}

} // verus!
