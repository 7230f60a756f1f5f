//! A conformance harness for a binary codec: one call takes a case
//! identifier and a byte buffer, decodes the buffer as the value type of that
//! case, compares the decoded value with the case's canonical value, and
//! hands back the canonical value's own encoding.
//!
//! The codec itself is the `borsh` crate. Everything around it -- the
//! registry of cases, the comparison, the order in which failures are
//! reported -- is verified here.

pub mod codec;
pub mod error;
pub mod laws;
pub mod oracle;
pub mod record;
pub mod registry;

pub use codec::{decode_record, encode_record};
pub use error::HarnessError;
pub use oracle::{run_case, run_test, settle};
pub use record::{is_nan, is_zero, same_number, Record};
pub use registry::resolve;
