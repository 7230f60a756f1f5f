use vstd::prelude::*;
use vstd::utf8::encode_utf8;

use crate::error::HarnessError;
use crate::record::{is_nan, is_nan_bits, Record, RecordView};

verus! {

/// The error type of the codec's calls, `std::io::Error`. Nothing is known
/// of a value of it here; the library maps it to its own error.
#[verifier::external_type_specification]
#[verifier::external_body]
pub struct ExIoError(std::io::Error);

/// What `borsh::from_slice` makes of `bytes` when asked for a tuple of a
/// `String`, a `u128`, a `u64` and a `Vec<i32>`: the four fields, or `None`
/// where it reports an error.
pub uninterp spec fn borsh_decoding(bytes: Seq<u8>) -> Option<(Seq<char>, u128, u64, Seq<i32>)>;

/// The bytes that `borsh::to_vec` writes for a tuple of a `String`, a
/// `u128`, a `u64` and a `Vec<i32>`, where it writes any.
pub uninterp spec fn borsh_encoding(name: Seq<char>, age: u128, prob: u64, data: Seq<i32>) -> Seq<u8>;

/// The codec writes the length of a text, in bytes of UTF-8, and the length
/// of a list as 32-bit numbers: it encodes exactly the texts and lists
/// whose lengths fit.
pub open spec fn lengths_fit(name: Seq<char>, data: Seq<i32>) -> bool {
    &&& encode_utf8(name).len() <= u32::MAX
    &&& data.len() <= u32::MAX
}

/// Calls `borsh::from_slice` for a tuple of the four field types.
///
/// Trusted: the outcome is a function of the bytes alone, named
/// [`borsh_decoding`]; an error of the call is its `None`.
#[verifier::external_body]
fn from_slice_fields(input: &[u8]) -> (r: Result<(String, u128, u64, Vec<i32>), std::io::Error>)
    ensures
        match r {
            Ok(f) => borsh_decoding(input@) == Some((f.0@, f.1, f.2, f.3@)),
            Err(_) => borsh_decoding(input@) is None,
        },
{
    borsh::from_slice::<(String, u128, u64, Vec<i32>)>(input)
}

/// Calls `borsh::to_vec` on the tuple of the four fields.
///
/// Trusted: the call succeeds exactly where the lengths of the text and of
/// the list fit in 32 bits. The bytes it then returns are a function of the
/// fields alone, named [`borsh_encoding`], and `borsh::from_slice` reads
/// them back as the same four fields.
#[verifier::external_body]
fn to_vec_fields(name: &String, age: u128, prob: u64, data: &Vec<i32>) -> (r: Result<
    Vec<u8>,
    std::io::Error,
>)
    ensures
        r is Ok <==> lengths_fit(name@, data@),
        r matches Ok(bytes) ==> bytes@ == borsh_encoding(name@, age, prob, data@),
        r matches Ok(bytes) ==> borsh_decoding(bytes@) == Some((name@, age, prob, data@)),
{
    borsh::to_vec(&(name, age, prob, data))
}

/// The record that `bytes` encode.
///
/// The double travels as its bit pattern: the codec writes a double as the
/// eight bytes of its pattern, lowest first, which is what it writes for
/// the pattern taken as a `u64`. So the bytes must decode as the four
/// fields, and the pattern among them must be that of a number: the codec
/// admits no NaN, neither when it reads a double nor when it writes one.
pub open spec fn record_decoding(bytes: Seq<u8>) -> Result<RecordView, HarnessError> {
    match borsh_decoding(bytes) {
        Some(f) => if is_nan_bits(f.2) {
            Err(HarnessError::DecodeError)
        } else {
            Ok(RecordView { name: f.0, age: f.1, prob: f.2, data: f.3 })
        },
        None => Err(HarnessError::DecodeError),
    }
}

/// Whether `v` has an encoding: its double is a number, and its text and
/// its list are no longer than the codec can write down.
pub open spec fn encodable(v: RecordView) -> bool {
    &&& !is_nan_bits(v.prob)
    &&& lengths_fit(v.name, v.data)
}

/// The bytes that encode `v`.
pub open spec fn record_encoding(v: RecordView) -> Result<Seq<u8>, HarnessError> {
    if encodable(v) {
        Ok(borsh_encoding(v.name, v.age, v.prob, v.data))
    } else {
        Err(HarnessError::EncodeError)
    }
}

/// A decoding outcome as mathematical values.
pub open spec fn record_outcome(r: Result<Record, HarnessError>) -> Result<RecordView, HarnessError> {
    match r {
        Ok(rec) => Ok(rec@),
        Err(e) => Err(e),
    }
}

/// An encoding outcome as mathematical values.
pub open spec fn bytes_outcome(r: Result<Vec<u8>, HarnessError>) -> Result<Seq<u8>, HarnessError> {
    match r {
        Ok(bytes) => Ok(bytes@),
        Err(e) => Err(e),
    }
}

/// Decodes `input` as a record.
///
/// Fails with `DecodeError` where the codec rejects the bytes -- truncated,
/// malformed or followed by more -- and where the double is a NaN.
pub fn decode_record(input: &[u8]) -> (r: Result<Record, HarnessError>)
    ensures
        record_outcome(r) == record_decoding(input@),
{
    match from_slice_fields(input) {
        Ok(fields) => {
            let (name, age, prob, data) = fields;
            if is_nan(prob) {
                Err(HarnessError::DecodeError)
            } else {
                Ok(Record { name, age, prob, data })
            }
        },
        Err(_) => Err(HarnessError::DecodeError),
    }
}

/// Encodes `rec`.
///
/// Fails with `EncodeError` exactly where `rec` is not encodable: its
/// double is a NaN, or its text or list is too long. Bytes that come out
/// decode to `rec` again.
pub fn encode_record(rec: &Record) -> (r: Result<Vec<u8>, HarnessError>)
    ensures
        bytes_outcome(r) == record_encoding(rec@),
        r matches Ok(bytes) ==> record_decoding(bytes@) == Ok::<RecordView, HarnessError>(rec@),
{
    if is_nan(rec.prob) {
        return Err(HarnessError::EncodeError);
    }
    match to_vec_fields(&rec.name, rec.age, rec.prob, &rec.data) {
        Ok(bytes) => Ok(bytes),
        Err(_) => Err(HarnessError::EncodeError),
    }
}

} // verus!
