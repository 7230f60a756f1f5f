use vstd::prelude::*;
use vstd::utf8::{is_ascii_chars, is_ascii_chars_encode_utf8};

use crate::codec::encodable;
use crate::error::HarnessError;
use crate::record::{record_eq, Record, RecordView};

verus! {

/// The wide integer of the canonical record of case zero.
pub const CASE_ZERO_AGE: u128 = 541212312321534534;

/// The double of the canonical record of case zero, as its bit pattern:
/// the double nearest to sixty-nine hundredths.
pub const CASE_ZERO_PROB: u64 = 0x3fe6_147a_e147_ae14;

/// The registry: the canonical value of case `id`, or `None` where no case
/// has that identifier. The set of cases is fixed; each has one value.
pub open spec fn canonical(id: u8) -> Option<RecordView> {
    if id == 0 {
        Some(
            RecordView {
                name: seq!['c', 'c', 'c', 'c', 'c'],
                age: CASE_ZERO_AGE,
                prob: CASE_ZERO_PROB,
                data: seq![31i32, 69i32],
            },
        )
    } else {
        None
    }
}

/// Looks up the canonical value of case `id`.
///
/// Fails with `UnsupportedCase` exactly where the registry has no such
/// case; there is no default.
pub fn resolve(id: u8) -> (r: Result<Record, HarnessError>)
    ensures
        match r {
            Ok(rec) => canonical(id) == Some(rec@),
            Err(e) => canonical(id) is None && e == (HarnessError::UnsupportedCase { id }),
        },
{
    match id {
        0 => {
            let name = "ccccc".to_owned();
            let data: Vec<i32> = vec![31, 69];
            proof {
                reveal_strlit("ccccc");
                assert(name@ =~= seq!['c', 'c', 'c', 'c', 'c']);
                assert(data@ =~= seq![31i32, 69i32]);
            }
            Ok(Record { name, age: CASE_ZERO_AGE, prob: CASE_ZERO_PROB, data })
        },
        _ => Err(HarnessError::UnsupportedCase { id }),
    }
}

/// Every registered value has an encoding: its double is a number, and
/// its text and list are short.
pub proof fn canonical_values_are_encodable(id: u8)
    ensures
        canonical(id) matches Some(v) ==> encodable(v),
{
    if id == 0 {
        let name = canonical(id)->Some_0.name;
        assert(is_ascii_chars(name));
        is_ascii_chars_encode_utf8(name);
    }
}

/// A record equals a registered value exactly where every field is the
/// same, the double bit for bit: no registered double is a zero or a NaN,
/// the only numbers that equality of doubles treats otherwise.
pub proof fn canonical_equality_is_exact(id: u8, other: RecordView)
    ensures
        canonical(id) matches Some(v) ==> (record_eq(other, v) <==> other == v),
{
}

} // verus!
