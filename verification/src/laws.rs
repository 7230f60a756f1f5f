use vstd::prelude::*;

use crate::codec::{record_decoding, record_encoding};
use crate::error::HarnessError;
use crate::oracle::run_spec;
use crate::record::record_eq;
use crate::registry::{canonical, canonical_values_are_encodable};

verus! {

/// An identifier that the registry does not hold is rejected as an
/// unsupported case, whatever the input: no case stands in for it.
pub proof fn unknown_id_is_rejected(id: u8, input: Seq<u8>)
    requires
        canonical(id) is None,
    ensures
        run_spec(id, input) == Err::<Seq<u8>, HarnessError>(HarnessError::UnsupportedCase { id }),
{
}

/// For a registered case, input that does not decode is rejected with a
/// decoding error: nothing is made up in place of the value.
pub proof fn undecodable_input_is_rejected(id: u8, input: Seq<u8>)
    requires
        canonical(id) is Some,
        record_decoding(input) is Err,
    ensures
        run_spec(id, input) == Err::<Seq<u8>, HarnessError>(HarnessError::DecodeError),
{
}

/// For a registered case, input that encodes a value other than the
/// canonical one is a mismatch, reported with the case's identifier.
pub proof fn mismatch_is_detected(id: u8, input: Seq<u8>)
    requires
        canonical(id) is Some,
        record_decoding(input) is Ok,
        !record_eq(record_decoding(input)->Ok_0, canonical(id)->Some_0),
    ensures
        run_spec(id, input) == Err::<Seq<u8>, HarnessError>(
            HarnessError::RoundTripMismatch { id },
        ),
{
}

/// A run succeeds exactly on input that decodes to the canonical value of
/// a registered case, and its output is then the encoding of the canonical
/// value, not of what was decoded.
pub proof fn run_succeeds_exactly_on_canonical_input(id: u8, input: Seq<u8>)
    ensures
        run_spec(id, input) is Ok <==> (canonical(id) is Some && record_decoding(input) is Ok
            && record_eq(record_decoding(input)->Ok_0, canonical(id)->Some_0)),
        run_spec(id, input) is Ok ==> run_spec(id, input) == record_encoding(
            canonical(id)->Some_0,
        ),
{
    canonical_values_are_encodable(id);
}

/// A run fails in three ways only -- unsupported case, decoding error,
/// mismatch -- and never for want of an encoding of the canonical value.
pub proof fn run_never_fails_to_encode(id: u8, input: Seq<u8>)
    ensures
        run_spec(id, input) != Err::<Seq<u8>, HarnessError>(HarnessError::EncodeError),
{
    canonical_values_are_encodable(id);
}

/// Two runs on the same identifier and the same input yield the same
/// outcome, byte for byte.
pub proof fn runs_are_deterministic(
    id: u8,
    input: Seq<u8>,
    first: Result<Seq<u8>, HarnessError>,
    second: Result<Seq<u8>, HarnessError>,
)
    requires
        first == run_spec(id, input),
        second == run_spec(id, input),
    ensures
        first == second,
{
}

} // verus!
