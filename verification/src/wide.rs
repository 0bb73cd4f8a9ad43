//! Platform-native wide text: conversion between UTF-16 code units and
//! portable strings, and the fixed-size wide-character buffers that snapshot
//! records carry.

use vstd::prelude::*;
use vstd::slice::{slice_subrange, slice_index_get};
use crate::error::Error;

verus! {

/// The UTF-16 code units that encode a string.
pub uninterp spec fn utf16_units(s: Seq<char>) -> Seq<u16>;

/// The string that a sequence of UTF-16 code units decodes to, with every
/// ill-formed sequence replaced by the replacement character.
pub uninterp spec fn utf16_lossy(units: Seq<u16>) -> Seq<char>;

/// Relies on widestring's `U16Str::to_string_lossy` (`U16Str::from_slice`
/// performs no conversion): the decoding is a function of the code units
/// alone, and an empty slice decodes to the empty string.
#[verifier::external_body]
fn decode_units_lossy(units: &[u16]) -> (r: String)
    ensures
        r@ == utf16_lossy(units@),
        units@.len() == 0 ==> r@.len() == 0,
{
    widestring::U16Str::from_slice(units).to_string_lossy()
}

/// Relies on widestring's `U16CString::from_str`: it encodes the string as
/// UTF-16 and fails exactly when a nul unit occurs among the encoded units,
/// reporting the position of the first nul and handing the units back. A nul
/// unit arises exactly from the nul character, since no other character's
/// UTF-16 encoding contains a zero unit.
#[verifier::external_body]
fn encode_nul_checked(s: &str) -> (r: Result<Vec<u16>, (usize, Vec<u16>)>)
    ensures
        match r {
            Ok(units) => {
                &&& units@ == utf16_units(s@)
                &&& !s@.contains('\0')
            },
            Err((pos, data)) => {
                &&& data@ == utf16_units(s@)
                &&& pos < data@.len()
                &&& data@[pos as int] == 0
                &&& forall|i: int| 0 <= i < pos ==> data@[i] != 0
                &&& s@.contains('\0')
            },
        },
{
    match widestring::U16CString::from_str(s) {
        Ok(c) => Ok(c.into_vec()),
        Err(e) => {
            let pos = e.nul_position();
            Err((pos, e.into_vec()))
        },
    }
}

/// Encodes a module name for a platform lookup call: the name's UTF-16 units.
/// Returns them exactly when the name carries no embedded nul character;
/// otherwise the nul-encoding error, with the offending position and units.
pub fn encode_wide_name(name: &str) -> (r: Result<Vec<u16>, Error>)
    ensures
        match r {
            Ok(units) => {
                &&& units@ == utf16_units(name@)
                &&& !name@.contains('\0')
            },
            Err(e) => {
                &&& name@.contains('\0')
                &&& e matches Error::NulErrorW { pos, data } && {
                    &&& data@ == utf16_units(name@)
                    &&& pos < data@.len()
                    &&& data@[pos as int] == 0
                    &&& forall|i: int| 0 <= i < pos ==> data@[i] != 0
                }
            },
        },
{
    match encode_nul_checked(name) {
        Ok(units) => Ok(units),
        Err((pos, data)) => Err(Error::NulErrorW { pos, data }),
    }
}

/// The number of code units before the first nul, or the whole length where
/// no nul occurs: the portion of a fixed-size buffer that carries the text.
pub open spec fn nul_prefix_len(units: Seq<u16>) -> nat
    decreases units.len(),
{
    if units.len() == 0 {
        0
    } else if units[0] == 0 {
        0
    } else {
        1 + nul_prefix_len(units.drop_first())
    }
}

/// The string a fixed-size wide-character buffer holds: the units before the
/// first nul (the whole buffer where no nul occurs), decoded lossily.
pub open spec fn spec_wide_string(units: Seq<u16>) -> Seq<char> {
    utf16_lossy(units.take(nul_prefix_len(units) as int))
}

/// The text portion never exceeds the buffer.
pub proof fn lemma_nul_prefix_len_bound(units: Seq<u16>)
    ensures
        nul_prefix_len(units) <= units.len(),
    decreases units.len(),
{
    if units.len() > 0 && units[0] != 0 {
        lemma_nul_prefix_len_bound(units.drop_first());
    }
}

proof fn lemma_nul_prefix_len_characterization(units: Seq<u16>, n: int)
    requires
        0 <= n <= units.len(),
        forall|j: int| 0 <= j < n ==> units[j] != 0,
        n < units.len() ==> units[n] == 0,
    ensures
        n == nul_prefix_len(units),
    decreases units.len(),
{
    if units.len() == 0 {
    } else if units[0] == 0 {
        assert(n == 0);
    } else {
        assert(n >= 1);
        let rest = units.drop_first();
        assert(forall|j: int| 0 <= j < n - 1 ==> rest[j] == units[j + 1] && rest[j] != 0);
        lemma_nul_prefix_len_characterization(rest, n - 1);
    }
}

/// Scans a fixed-size wide-character buffer for its terminator: the number of
/// units before the first nul, or the buffer's whole length if none occurs.
pub fn wide_prefix_len(units: &[u16]) -> (r: usize)
    ensures
        r == nul_prefix_len(units@),
{
    let len: usize = units.len();
    let mut i: usize = 0;
    while i < len
        invariant
            0 <= i <= len,
            len == units@.len(),
            forall|j: int| 0 <= j < i ==> units@[j] != 0,
        decreases len - i,
    {
        if *slice_index_get(units, i) == 0 {
            proof {
                lemma_nul_prefix_len_characterization(units@, i as int);
            }
            return i;
        }
        i = i + 1;
    }
    proof {
        lemma_nul_prefix_len_characterization(units@, len as int);
    }
    len
}

/// Decodes the first `len` units of a wide-character buffer.
pub fn decode_wide_prefix(units: &[u16], len: usize) -> (r: String)
    requires
        len <= units@.len(),
    ensures
        r@ == utf16_lossy(units@.take(len as int)),
{
    let prefix = slice_subrange(units, 0, len);
    proof {
        assert(prefix@ =~= units@.take(len as int));
    }
    decode_units_lossy(prefix)
}

/// The total conversion of a fixed-size wide-character buffer to a string:
/// the units before the first nul are decoded; a buffer with no nul is taken
/// whole, and one that starts with a nul gives the empty string.
pub fn wide_buffer_to_string(units: &[u16]) -> (r: String)
    ensures
        r@ == spec_wide_string(units@),
{
    let n = wide_prefix_len(units);
    proof {
        lemma_nul_prefix_len_bound(units@);
    }
    decode_wide_prefix(units, n)
}

} // verus!
