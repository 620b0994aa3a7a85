//! TXT-record lookup results, decoded entries, and the rules that turn the
//! framework's raw answers into them.

use vstd::prelude::*;
use vstd::slice::slice_to_vec;
use vstd::string::StringExecFns;

use crate::error::NetworkError;

verus! {

/// Result of looking up a key in a TXT record.
#[derive(Debug, Clone, Copy, PartialEq, Eq, Structural)]
pub enum TxtRecordFindResult {
    Invalid,
    NotPresent,
    NoValue,
    EmptyValue,
    NonEmptyValue,
    Unknown(i32),
}

/// The lookup result that a raw code stands for.
pub open spec fn spec_find_result(raw: i32) -> TxtRecordFindResult {
    match raw {
        0 => TxtRecordFindResult::Invalid,
        1 => TxtRecordFindResult::NotPresent,
        2 => TxtRecordFindResult::NoValue,
        3 => TxtRecordFindResult::EmptyValue,
        4 => TxtRecordFindResult::NonEmptyValue,
        other => TxtRecordFindResult::Unknown(other),
    }
}

impl TxtRecordFindResult {
    /// Decode a raw lookup-result code.
    pub fn from_raw(raw: i32) -> (r: Self)
        ensures
            r == spec_find_result(raw),
    {
        match raw {
            0 => Self::Invalid,
            1 => Self::NotPresent,
            2 => Self::NoValue,
            3 => Self::EmptyValue,
            4 => Self::NonEmptyValue,
            other => Self::Unknown(other),
        }
    }
}

/// One decoded TXT-record entry.
#[derive(Debug, Clone, PartialEq, Eq)]
pub struct TxtRecordEntry {
    pub key: String,
    pub status: TxtRecordFindResult,
    pub value: Option<Vec<u8>>,
}

/// Result of looking up a single TXT-record key.
#[derive(Debug, Clone, PartialEq, Eq)]
pub struct TxtRecordLookup {
    pub status: TxtRecordFindResult,
    pub value: Option<Vec<u8>>,
}

/// The view of an optional byte vector.
pub open spec fn optional_vec_view(v: Option<Vec<u8>>) -> Option<Seq<u8>> {
    match v {
        Some(b) => Some(b@),
        None => None,
    }
}

/// The value of a looked-up key: a non-empty buffer is the value; without
/// one, an `EmptyValue` status stands for the empty value and any other
/// status for no value.
pub open spec fn spec_lookup_value(status: TxtRecordFindResult, bytes: Option<Seq<u8>>) -> Option<Seq<u8>> {
    match bytes {
        Some(b) if b.len() > 0 => Some(b),
        _ => if status == TxtRecordFindResult::EmptyValue { Some(Seq::empty()) } else { None },
    }
}

/// The value of an enumerated entry: a buffer, even an empty one, is the
/// value; without one, an `EmptyValue` status stands for the empty value and
/// any other status for no value.
pub open spec fn spec_entry_value(status: TxtRecordFindResult, bytes: Option<Seq<u8>>) -> Option<Seq<u8>> {
    match bytes {
        Some(b) => Some(b),
        None => if status == TxtRecordFindResult::EmptyValue { Some(Seq::empty()) } else { None },
    }
}

/// The view of an optional byte slice.
pub open spec fn optional_slice_view(bytes: Option<&[u8]>) -> Option<Seq<u8>> {
    match bytes {
        Some(b) => Some(b@),
        None => None,
    }
}

/// The value that a key lookup reports, given its status and the buffer the
/// framework handed back (if any).
pub fn lookup_value(status: TxtRecordFindResult, bytes: Option<&[u8]>) -> (v: Option<Vec<u8>>)
    ensures
        optional_vec_view(v) == spec_lookup_value(status, optional_slice_view(bytes)),
{
    if let Some(b) = bytes {
        if b.len() > 0 {
            return Some(slice_to_vec(b));
        }
    }
    if status == TxtRecordFindResult::EmptyValue {
        let empty: Vec<u8> = Vec::new();
        assert(empty@ =~= Seq::<u8>::empty());
        Some(empty)
    } else {
        None
    }
}

/// The lookup result for the raw status `found` and the buffer the framework
/// handed back (if any).
pub fn lookup_from_parts(found: i32, bytes: Option<&[u8]>) -> (l: TxtRecordLookup)
    ensures
        l.status == spec_find_result(found),
        optional_vec_view(l.value) == spec_lookup_value(spec_find_result(found), optional_slice_view(bytes)),
{
    let status = TxtRecordFindResult::from_raw(found);
    TxtRecordLookup { status, value: lookup_value(status, bytes) }
}

/// The entry for `key` with raw status `found` and the value buffer the
/// framework handed over (if any).
pub fn entry_from_parts(key: String, found: i32, value: Option<&[u8]>) -> (e: TxtRecordEntry)
    ensures
        e.key@ == key@,
        e.status == spec_find_result(found),
        optional_vec_view(e.value) == spec_entry_value(spec_find_result(found), optional_slice_view(value)),
{
    let status = TxtRecordFindResult::from_raw(found);
    let value = match value {
        Some(b) => Some(slice_to_vec(b)),
        None => {
            if status == TxtRecordFindResult::EmptyValue {
                let empty: Vec<u8> = Vec::new();
                assert(empty@ =~= Seq::<u8>::empty());
                Some(empty)
            } else {
                None
            }
        },
    };
    TxtRecordEntry { key, status, value }
}

/// Check the raw bytes a TXT record is created from: they must not be empty.
pub fn check_record_bytes(bytes: &[u8]) -> (r: Result<(), NetworkError>)
    ensures
        r is Ok <==> bytes@.len() > 0,
        r matches Err(e) ==> e matches NetworkError::InvalidArgument(m) && m@ == "TXT record bytes must not be empty"@,
{
    if bytes.len() == 0 {
        return Err(NetworkError::InvalidArgument(String::from_str("TXT record bytes must not be empty")));
    }
    Ok(())
}

/// The raw codes of `TxtRecordFindResult` as the framework defines them: 0 to `Invalid`, 1 to
/// `NotPresent`, 2 to `NoValue`, 3 to `EmptyValue`, 4 to `NonEmptyValue`; each named value
/// comes from exactly one code, and every other code is kept, unchanged, in `Unknown`.
pub proof fn lemma_find_result_codes(raw: i32)
    ensures
        (spec_find_result(raw) == TxtRecordFindResult::Invalid) <==> raw == 0,
        (spec_find_result(raw) == TxtRecordFindResult::NotPresent) <==> raw == 1,
        (spec_find_result(raw) == TxtRecordFindResult::NoValue) <==> raw == 2,
        (spec_find_result(raw) == TxtRecordFindResult::EmptyValue) <==> raw == 3,
        (spec_find_result(raw) == TxtRecordFindResult::NonEmptyValue) <==> raw == 4,
        (spec_find_result(raw) is Unknown) <==> !(raw == 0 || raw == 1 || raw == 2 || raw == 3 || raw == 4),
        !(raw == 0 || raw == 1 || raw == 2 || raw == 3 || raw == 4) ==> spec_find_result(raw) == TxtRecordFindResult::Unknown(raw),
{
}

} // verus!
