//! Method and basis names on their way to the engine, which takes text as
//! NUL-terminated bytes.

use crate::error::{DFTD3Error, ErrorView};
use vstd::prelude::*;
use vstd::string::*;

verus! {

/// True iff a NUL byte occurs in `bytes`.
pub open spec fn has_nul(bytes: Seq<u8>) -> bool {
    exists|i: int| 0 <= i < bytes.len() && bytes[i] == 0
}

/// Message of the local error for a name that holds a NUL byte.
pub open spec fn embedded_nul_text() -> Seq<char> {
    "Invalid name, it contains a NUL byte"@
}

/// The name as the engine takes it: its UTF-8 bytes, then the terminator.
pub open spec fn terminated(name: Seq<char>) -> Seq<u8> {
    vstd::utf8::encode_utf8(name).push(0u8)
}

/// What a name lookup may hand to the engine: the terminated name, unless
/// the name holds a NUL byte, which is rejected.
pub open spec fn name_marshalled(name: Seq<char>, result: Result<Vec<u8>, DFTD3Error>) -> bool {
    if has_nul(vstd::utf8::encode_utf8(name)) {
        result matches Err(e) && e@ == ErrorView::Rust(embedded_nul_text())
    } else {
        result matches Ok(bytes) && bytes@ == terminated(name)
    }
}

/// Converts a name to NUL-terminated bytes. A name with an embedded NUL
/// byte would reach the engine cut short, so it is rejected with a local
/// error.
pub fn c_string(name: &str) -> (result: Result<Vec<u8>, DFTD3Error>)
    ensures
        name_marshalled(name@, result),
{
    let bytes = name.as_bytes();
    let mut out: Vec<u8> = Vec::new();
    let mut i: usize = 0;
    while i < bytes.len()
        invariant
            0 <= i <= bytes@.len(),
            bytes@ == name.spec_bytes(),
            out@ == bytes@.take(i as int),
            forall|j: int| 0 <= j < i ==> bytes@[j] != 0,
        decreases bytes@.len() - i,
    {
        if bytes[i] == 0 {
            return Err(
                DFTD3Error::Rust(String::from_str("Invalid name, it contains a NUL byte")),
            );
        }
        out.push(bytes[i]);
        i += 1;
        assert(out@ =~= bytes@.take(i as int));
    }
    assert(bytes@.take(i as int) =~= bytes@);
    out.push(0u8);
    Ok(out)
}

} // verus!
