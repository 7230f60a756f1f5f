use vstd::prelude::*;

use crate::codec::{
    bytes_outcome, decode_record, encode_record, record_decoding, record_encoding, record_outcome,
};
use crate::error::HarnessError;
use crate::record::{record_eq, Record, RecordView};
use crate::registry::{canonical, canonical_values_are_encodable, resolve};

verus! {

/// What a run yields once both codec outcomes are known.
///
/// A decoding failure comes first. A decoded value that differs from the
/// expected one is a mismatch, reported with the case's identifier. Only
/// then does the encoding of the expected value count: it is the output,
/// or the failure.
pub open spec fn settle_spec(
    id: u8,
    decoded: Result<RecordView, HarnessError>,
    expected: RecordView,
    encoded: Result<Seq<u8>, HarnessError>,
) -> Result<Seq<u8>, HarnessError> {
    match decoded {
        Err(e) => Err(e),
        Ok(d) => if record_eq(d, expected) {
            encoded
        } else {
            Err(HarnessError::RoundTripMismatch { id })
        },
    }
}

/// What a run of case `id` on `input` yields when `expected` is its
/// canonical value.
pub open spec fn case_spec(id: u8, input: Seq<u8>, expected: RecordView) -> Result<
    Seq<u8>,
    HarnessError,
> {
    settle_spec(id, record_decoding(input), expected, record_encoding(expected))
}

/// What the harness yields for `id` and `input`.
pub open spec fn run_spec(id: u8, input: Seq<u8>) -> Result<Seq<u8>, HarnessError> {
    match canonical(id) {
        Some(v) => case_spec(id, input, v),
        None => Err(HarnessError::UnsupportedCase { id }),
    }
}

/// Judges one run from the two codec outcomes: `decoded`, what the input
/// decoded to, and `encoded`, the encoding of `expected`.
pub fn settle(
    id: u8,
    decoded: Result<Record, HarnessError>,
    expected: &Record,
    encoded: Result<Vec<u8>, HarnessError>,
) -> (r: Result<Vec<u8>, HarnessError>)
    ensures
        bytes_outcome(r) == settle_spec(
            id,
            record_outcome(decoded),
            expected@,
            bytes_outcome(encoded),
        ),
{
    match decoded {
        Err(e) => Err(e),
        Ok(d) => {
            if d == *expected {
                encoded
            } else {
                Err(HarnessError::RoundTripMismatch { id })
            }
        },
    }
}

/// Runs case `id` on `input` against the canonical value `expected`:
/// decodes the input, compares, and returns the encoding of `expected`.
///
/// The output is the encoding of `expected`, never that of the decoded
/// value. Fed the encoding of `expected`, the run succeeds and returns the
/// same bytes; bytes that come out decode to `expected`.
pub fn run_case(id: u8, input: &[u8], expected: &Record) -> (r: Result<Vec<u8>, HarnessError>)
    ensures
        bytes_outcome(r) == case_spec(id, input@, expected@),
        record_encoding(expected@) == Ok::<Seq<u8>, HarnessError>(input@) ==> (r matches Ok(out)
            && out@ == input@),
        r matches Ok(out) ==> record_decoding(out@) == Ok::<RecordView, HarnessError>(expected@),
{
    let decoded = decode_record(input);
    let encoded = encode_record(expected);
    settle(id, decoded, expected, encoded)
}

/// Runs the harness: resolves `id`, decodes `input` as the case's type,
/// compares the decoded value with the canonical one, and returns the
/// encoding of the canonical value.
///
/// Fed the encoding of the canonical value, the run succeeds and returns
/// the same bytes; whatever bytes come out decode to the canonical value.
/// The failures are `UnsupportedCase`, `DecodeError` and
/// `RoundTripMismatch`: every registered value encodes.
pub fn run_test(id: u8, input: &[u8]) -> (r: Result<Vec<u8>, HarnessError>)
    ensures
        bytes_outcome(r) == run_spec(id, input@),
        r != Err::<Vec<u8>, HarnessError>(HarnessError::EncodeError),
        canonical(id) matches Some(v) && record_encoding(v) == Ok::<Seq<u8>, HarnessError>(input@)
            ==> (r matches Ok(out) && out@ == input@),
        r matches Ok(out) ==> canonical(id) matches Some(v) && record_decoding(out@) == Ok::<
            RecordView,
            HarnessError,
        >(v),
{
    proof {
        canonical_values_are_encodable(id);
    }
    match resolve(id) {
        Ok(expected) => run_case(id, input, &expected),
        Err(e) => Err(e),
    }
}

} // verus!
