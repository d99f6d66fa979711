//! The value source: decoding each law's input shape from the start of a
//! fuzz-supplied byte buffer, through the `arbitrary` crate.
//!
//! Booleans decode from one byte each, in order, taking the byte's low
//! bit; the source zero-fills once the buffer is exhausted, so a boolean
//! decode never fails. A [`RawByte`](crate::subject_raw::RawByte) instead
//! takes whole bytes from the buffer and reports insufficient data when
//! too few remain.

use vstd::prelude::*;

use crate::subject_raw::RawByte;

verus! {

/// The low bit of a byte, which decides a decoded boolean.
pub open spec fn low_bit(b: u8) -> bool {
    b & 1 == 1
}

/// The boolean decoded at byte position `i` of a buffer: the value
/// source reads a zero byte once the buffer is exhausted.
pub open spec fn bool_at(data: Seq<u8>, i: int) -> bool {
    if 0 <= i < data.len() {
        low_bit(data[i])
    } else {
        false
    }
}

/// The one-element boolean array holding `b`.
pub open spec fn array1(b: bool) -> [bool; 1] {
    vstd::array::spec_array_fill_for_copy_type::<bool, 1>(b)
}

/// The raw byte decoded from a buffer, or `None` when it is empty.
pub open spec fn raw_single(data: Seq<u8>) -> Option<RawByte> {
    if data.len() >= 1 {
        Some(RawByte { value: data[0] })
    } else {
        None
    }
}

/// The pair of raw bytes decoded from a buffer, or `None` when fewer
/// than two bytes remain.
pub open spec fn raw_pair(data: Seq<u8>) -> Option<(RawByte, RawByte)> {
    if data.len() >= 2 {
        Some((RawByte { value: data[0] }, RawByte { value: data[1] }))
    } else {
        None
    }
}

/// The triple of raw bytes decoded from a buffer, or `None` when fewer
/// than three bytes remain.
pub open spec fn raw_triple(data: Seq<u8>) -> Option<(RawByte, RawByte, RawByte)> {
    if data.len() >= 3 {
        Some((RawByte { value: data[0] }, RawByte { value: data[1] }, RawByte { value: data[2] }))
    } else {
        None
    }
}

/// Relies on `<bool as arbitrary::Arbitrary>::arbitrary`: it reads one
/// byte (a zero once the data is exhausted) and takes its low bit; it
/// never fails.
#[verifier::external_body]
pub(crate) fn decode_bool(data: &[u8]) -> (r: bool)
    ensures
        r == bool_at(data@, 0),
{
    let mut u = arbitrary::Unstructured::new(data);
    <bool as arbitrary::Arbitrary>::arbitrary(&mut u).unwrap_or(false)
}

/// Relies on `<(bool, bool) as arbitrary::Arbitrary>::arbitrary`: the
/// tuple implementation decodes the components in order, one byte each,
/// and never fails for booleans.
#[verifier::external_body]
pub(crate) fn decode_bool_pair(data: &[u8]) -> (r: (bool, bool))
    ensures
        r == (bool_at(data@, 0), bool_at(data@, 1)),
{
    let mut u = arbitrary::Unstructured::new(data);
    <(bool, bool) as arbitrary::Arbitrary>::arbitrary(&mut u).unwrap_or((false, false))
}

/// Relies on `<(bool, bool, bool) as arbitrary::Arbitrary>::arbitrary`:
/// the components decode in order, one byte each, and never fail.
#[verifier::external_body]
pub(crate) fn decode_bool_triple(data: &[u8]) -> (r: (bool, bool, bool))
    ensures
        r == (bool_at(data@, 0), bool_at(data@, 1), bool_at(data@, 2)),
{
    let mut u = arbitrary::Unstructured::new(data);
    <(bool, bool, bool) as arbitrary::Arbitrary>::arbitrary(&mut u).unwrap_or((false, false, false))
}

/// Relies on `<[bool; 1] as arbitrary::Arbitrary>::arbitrary`: the array
/// implementation decodes its single element like a plain boolean and
/// never fails.
#[verifier::external_body]
pub(crate) fn decode_bools(data: &[u8]) -> (r: [bool; 1])
    ensures
        r == array1(bool_at(data@, 0)),
{
    let mut u = arbitrary::Unstructured::new(data);
    <[bool; 1] as arbitrary::Arbitrary>::arbitrary(&mut u).unwrap_or([false])
}

/// Relies on `<([bool; 1], [bool; 1]) as arbitrary::Arbitrary>::arbitrary`:
/// two one-element arrays decode in order, one byte each, never failing.
#[verifier::external_body]
pub(crate) fn decode_bools_pair(data: &[u8]) -> (r: ([bool; 1], [bool; 1]))
    ensures
        r == (array1(bool_at(data@, 0)), array1(bool_at(data@, 1))),
{
    let mut u = arbitrary::Unstructured::new(data);
    <([bool; 1], [bool; 1]) as arbitrary::Arbitrary>::arbitrary(&mut u).unwrap_or(([false], [false]))
}

/// Relies on the `arbitrary` tuple implementation for three one-element
/// arrays: the elements decode in order, one byte each, never failing.
#[verifier::external_body]
pub(crate) fn decode_bools_triple(data: &[u8]) -> (r: ([bool; 1], [bool; 1], [bool; 1]))
    ensures
        r == (array1(bool_at(data@, 0)), array1(bool_at(data@, 1)), array1(bool_at(data@, 2))),
{
    let mut u = arbitrary::Unstructured::new(data);
    <([bool; 1], [bool; 1], [bool; 1]) as arbitrary::Arbitrary>::arbitrary(&mut u)
        .unwrap_or(([false], [false], [false]))
}

/// Relies on `arbitrary::Unstructured::bytes`: it fails without consuming
/// anything when fewer bytes remain than requested, and otherwise hands
/// out exactly the requested prefix.
#[verifier::external_body]
pub(crate) fn decode_raw(data: &[u8]) -> (r: Option<RawByte>)
    ensures
        r == raw_single(data@),
{
    let mut u = arbitrary::Unstructured::new(data);
    match u.bytes(1) {
        Ok(b) => Some(RawByte { value: b[0] }),
        Err(_) => None,
    }
}

/// Relies on `arbitrary::Unstructured::bytes`, requesting two bytes: it
/// fails when fewer than two remain.
#[verifier::external_body]
pub(crate) fn decode_raw_pair(data: &[u8]) -> (r: Option<(RawByte, RawByte)>)
    ensures
        r == raw_pair(data@),
{
    let mut u = arbitrary::Unstructured::new(data);
    match u.bytes(2) {
        Ok(b) => Some((RawByte { value: b[0] }, RawByte { value: b[1] })),
        Err(_) => None,
    }
}

/// Relies on `arbitrary::Unstructured::bytes`, requesting three bytes: it
/// fails when fewer than three remain.
#[verifier::external_body]
pub(crate) fn decode_raw_triple(data: &[u8]) -> (r: Option<(RawByte, RawByte, RawByte)>)
    ensures
        r == raw_triple(data@),
{
    let mut u = arbitrary::Unstructured::new(data);
    match u.bytes(3) {
        Ok(b) => Some((RawByte { value: b[0] }, RawByte { value: b[1] }, RawByte { value: b[2] })),
        Err(_) => None,
    }
}

} // verus!
