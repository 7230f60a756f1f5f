use vstd::prelude::*;

verus! {

/// Bit pattern of positive infinity in IEEE-754 binary64: all eleven exponent
/// bits set, fraction zero.
pub const INFINITY_BITS: u64 = 0x7ff0_0000_0000_0000;

/// Two to the power 63: the weight of the sign bit of a binary64 pattern.
pub const SIGN_WEIGHT: u64 = 0x8000_0000_0000_0000;

/// The pattern without its sign bit.
pub open spec fn magnitude(bits: u64) -> int {
    bits as int % SIGN_WEIGHT as int
}

/// The pattern encodes a NaN: its magnitude lies above that of infinity.
pub open spec fn is_nan_bits(bits: u64) -> bool {
    magnitude(bits) > INFINITY_BITS
}

/// The pattern encodes zero, of either sign.
pub open spec fn is_zero_bits(bits: u64) -> bool {
    magnitude(bits) == 0
}

/// Equality of two doubles given by their patterns, as IEEE-754 defines it:
/// a NaN equals nothing, the two zeros equal each other, and any other
/// number has exactly one pattern.
pub open spec fn same_number_bits(a: u64, b: u64) -> bool {
    &&& !is_nan_bits(a)
    &&& !is_nan_bits(b)
    &&& (a == b || (is_zero_bits(a) && is_zero_bits(b)))
}

/// Whether `bits` is the pattern of a NaN.
pub fn is_nan(bits: u64) -> (r: bool)
    ensures
        r == is_nan_bits(bits),
{
    bits % SIGN_WEIGHT > INFINITY_BITS
}

/// Whether `bits` is the pattern of positive or negative zero.
pub fn is_zero(bits: u64) -> (r: bool)
    ensures
        r == is_zero_bits(bits),
{
    bits % SIGN_WEIGHT == 0
}

/// Whether the doubles with patterns `a` and `b` compare equal.
pub fn same_number(a: u64, b: u64) -> (r: bool)
    ensures
        r == same_number_bits(a, b),
{
    !is_nan(a) && !is_nan(b) && (a == b || (is_zero(a) && is_zero(b)))
}

/// The value type of the registered cases: a text, a wide unsigned integer,
/// a double and a list of signed integers.
///
/// The double is held as its IEEE-754 binary64 bit pattern, so that the
/// harness compares and carries it exactly.
#[derive(Debug)]
pub struct Record {
    pub name: String,
    pub age: u128,
    /// Bit pattern of the double.
    pub prob: u64,
    pub data: Vec<i32>,
}

/// What a [`Record`] holds, as mathematical values.
pub struct RecordView {
    pub name: Seq<char>,
    pub age: u128,
    pub prob: u64,
    pub data: Seq<i32>,
}

impl View for Record {
    type V = RecordView;

    open spec fn view(&self) -> RecordView {
        RecordView { name: self.name@, age: self.age, prob: self.prob, data: self.data@ }
    }
}

/// Field-by-field equality of two records, the double compared as a number.
pub open spec fn record_eq(a: RecordView, b: RecordView) -> bool {
    &&& a.name == b.name
    &&& a.age == b.age
    &&& same_number_bits(a.prob, b.prob)
    &&& a.data == b.data
}

impl Clone for Record {
    fn clone(&self) -> (r: Record)
        ensures
            r@ == self@,
    {
        let data = self.data.clone();
        assert(data@ =~= self.data@);
        Record { name: self.name.clone(), age: self.age, prob: self.prob, data }
    }
}

impl PartialEq for Record {
    fn eq(&self, other: &Record) -> (r: bool) {
        let same_data = self.data == other.data;
        assert(same_data == (self.data@ == other.data@)) by {
            if same_data {
                assert(self.data@ =~= other.data@);
            }
        }
        self.name == other.name && self.age == other.age && same_number(self.prob, other.prob)
            && same_data
    }
}

impl vstd::std_specs::cmp::PartialEqSpecImpl for Record {
    open spec fn obeys_eq_spec() -> bool {
        true
    }

    open spec fn eq_spec(&self, other: &Record) -> bool {
        record_eq(self@, other@)
    }
}

} // verus!
