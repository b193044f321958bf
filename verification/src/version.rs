//! The engine's version number, which packs major, minor and patch level
//! into one integer: `major * 10000 + minor * 100 + patch`.

use crate::text::{decimal, decimal_text};
use vstd::prelude::*;
use vstd::string::*;

verus! {

/// Major level of a packed version.
pub open spec fn major(version: nat) -> nat {
    version / 10000
}

/// Minor level of a packed version.
pub open spec fn minor(version: nat) -> nat {
    version / 100 % 100
}

/// Patch level of a packed version.
pub open spec fn patch(version: nat) -> nat {
    version % 100
}

/// The dotted form of a packed version.
pub open spec fn version_text(version: nat) -> Seq<char> {
    decimal_text(major(version)) + "."@ + decimal_text(minor(version)) + "."@ + decimal_text(
        patch(version),
    )
}

/// Get the version of the DFTD3 library in list of integers, from the
/// packed number that the engine reports.
pub fn get_api_version_compact(version: i32) -> (parts: [usize; 3])
    requires
        version >= 0,
    ensures
        parts[0] == major(version as nat),
        parts[1] == minor(version as nat),
        parts[2] == patch(version as nat),
{
    let version: usize = version as usize;
    [version / 10000, version / 100 % 100, version % 100]
}

/// Get the version of the DFTD3 library, from the packed number that the
/// engine reports.
pub fn get_api_version(version: i32) -> (text: String)
    requires
        version >= 0,
    ensures
        text@ == version_text(version as nat),
{
    let parts = get_api_version_compact(version);
    let text = decimal(parts[0] as u128);
    let text = text.concat(".");
    let text = text.concat(decimal(parts[1] as u128).as_str());
    let text = text.concat(".");
    let text = text.concat(decimal(parts[2] as u128).as_str());
    text
}

/// A packed version is the sum of its levels, each at its weight, whenever
/// minor and patch level stay below one hundred.
pub proof fn lemma_version_unpacks(a: nat, b: nat, c: nat)
    requires
        b < 100,
        c < 100,
    ensures
        major(a * 10000 + b * 100 + c) == a,
        minor(a * 10000 + b * 100 + c) == b,
        patch(a * 10000 + b * 100 + c) == c,
{
    assert((a * 10000 + b * 100 + c) / 10000 == a) by (nonlinear_arith)
        requires
            b < 100,
            c < 100,
    ;
    assert((a * 10000 + b * 100 + c) / 100 == a * 100 + b) by (nonlinear_arith)
        requires
            c < 100,
    ;
    assert((a * 100 + b) % 100 == b) by (nonlinear_arith)
        requires
            b < 100,
    ;
    assert((a * 10000 + b * 100 + c) % 100 == c) by (nonlinear_arith)
        requires
            c < 100,
    ;
}

} // verus!
