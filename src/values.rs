use vstd::prelude::*;
use vstd::std_specs::iter::IteratorSpec;

verus! {

/// Mask of the exponent field of an IEEE-754 binary64 bit pattern.
pub const EXPONENT_MASK: u64 = 0x7ff0_0000_0000_0000;

/// Mask of the fraction field of an IEEE-754 binary64 bit pattern.
pub const FRACTION_MASK: u64 = 0x000f_ffff_ffff_ffff;

/// Mask of everything but the sign bit of an IEEE-754 binary64 bit pattern.
pub const MAGNITUDE_MASK: u64 = 0x7fff_ffff_ffff_ffff;

/// Whether the binary64 bit pattern encodes a NaN.
pub open spec fn is_nan_bits(bits: u64) -> bool {
    bits & EXPONENT_MASK == EXPONENT_MASK && bits & FRACTION_MASK != 0
}

/// Whether the binary64 bit pattern encodes positive or negative zero.
pub open spec fn is_zero_bits(bits: u64) -> bool {
    bits & MAGNITUDE_MASK == 0
}

/// IEEE-754 equality of two binary64 values given by their bit patterns:
/// NaN equals nothing, the two zeros are equal, otherwise the bits decide.
pub open spec fn float_bits_eq(a: u64, b: u64) -> bool {
    !is_nan_bits(a) && !is_nan_bits(b) && (a == b || (is_zero_bits(a) && is_zero_bits(b)))
}

/// An attribute name together with its value.
#[derive(Clone, Debug)]
pub struct AttributePair {
    key: std::borrow::Cow<'static, str>,
    value: AttributeValue,
}

/// Values for attributes.
///
/// Essentially a string, but kept as an enum to avoid unnecessary allocation.
#[derive(Clone, Debug)]
pub enum AttributeValue {
    /// This attribute exists, but no value is set
    Empty,
    Boolean(bool),
    Integer(i64),
    /// A binary64 floating-point number, held as its IEEE-754 bit pattern
    Decimal(u64),
    Constant(&'static str),
    String(String),
}

impl AttributeValue {
    /// The text of a string-like value (`Constant` or `String`).
    pub open spec fn text_view(&self) -> Option<Seq<char>> {
        match self {
            AttributeValue::Constant(s) => Some(s@),
            AttributeValue::String(s) => Some(s@),
            _ => None,
        }
    }

    /// Equality by content across representations.
    pub open spec fn same_value(&self, other: &AttributeValue) -> bool {
        match (self, other) {
            (AttributeValue::Empty, AttributeValue::Empty) => true,
            (AttributeValue::Boolean(a), AttributeValue::Boolean(b)) => a == b,
            (AttributeValue::Integer(a), AttributeValue::Integer(b)) => a == b,
            (AttributeValue::Decimal(a), AttributeValue::Decimal(b)) => float_bits_eq(*a, *b),
            _ => self.text_view() is Some && self.text_view() == other.text_view(),
        }
    }
}

fn float_bits_equal(a: u64, b: u64) -> (r: bool)
    ensures
        r == float_bits_eq(a, b),
{
    let a_nan = a & EXPONENT_MASK == EXPONENT_MASK && a & FRACTION_MASK != 0;
    let b_nan = b & EXPONENT_MASK == EXPONENT_MASK && b & FRACTION_MASK != 0;
    !a_nan && !b_nan && (a == b || (a & MAGNITUDE_MASK == 0 && b & MAGNITUDE_MASK == 0))
}

impl PartialEq for AttributeValue {
    fn eq(&self, other: &AttributeValue) -> (r: bool)
        ensures
            r == self.same_value(other),
    {
        match (self, other) {
            (AttributeValue::Empty, AttributeValue::Empty) => true,
            (AttributeValue::Boolean(a), AttributeValue::Boolean(b)) => *a == *b,
            (AttributeValue::Integer(a), AttributeValue::Integer(b)) => *a == *b,
            (AttributeValue::Decimal(a), AttributeValue::Decimal(b)) => float_bits_equal(*a, *b),
            (AttributeValue::Constant(a), AttributeValue::Constant(b)) => str_eq(a, b),
            (AttributeValue::Constant(a), AttributeValue::String(b)) => str_eq(a, b.as_str()),
            (AttributeValue::String(a), AttributeValue::Constant(b)) => str_eq(a.as_str(), b),
            (AttributeValue::String(a), AttributeValue::String(b)) => str_eq(a.as_str(), b.as_str()),
            _ => false,
        }
    }
}

impl vstd::std_specs::cmp::PartialEqSpecImpl for AttributeValue {
    open spec fn obeys_eq_spec() -> bool {
        true
    }

    open spec fn eq_spec(&self, other: &AttributeValue) -> bool {
        self.same_value(other)
    }
}

impl Eq for AttributeValue {}

/// The variant families of [`AttributeValue`]; `Constant` and `String` are
/// one family, the string-like values.
pub enum ValueKind {
    Empty,
    Boolean,
    Integer,
    Decimal,
    Text,
}

/// What [`AttributeValue`]'s `Hash` feeds to the hasher.
pub enum HashData {
    Nothing,
    Flag(bool),
    Signed(i64),
    Bits(u64),
    Text(Seq<char>),
}

impl AttributeValue {
    /// The variant family of the value.
    pub open spec fn kind(&self) -> ValueKind {
        match self {
            AttributeValue::Empty => ValueKind::Empty,
            AttributeValue::Boolean(_) => ValueKind::Boolean,
            AttributeValue::Integer(_) => ValueKind::Integer,
            AttributeValue::Decimal(_) => ValueKind::Decimal,
            AttributeValue::Constant(_) => ValueKind::Text,
            AttributeValue::String(_) => ValueKind::Text,
        }
    }

    /// The data that `hash` hands to the hasher: the text for both
    /// string-like variants, the bit pattern for a decimal, with one pattern
    /// for both zeros since they are equal.
    pub open spec fn hash_data(&self) -> HashData {
        match self {
            AttributeValue::Empty => HashData::Nothing,
            AttributeValue::Boolean(b) => HashData::Flag(*b),
            AttributeValue::Integer(i) => HashData::Signed(*i),
            AttributeValue::Decimal(f) => HashData::Bits(
                if is_zero_bits(*f) {
                    0
                } else {
                    *f
                },
            ),
            AttributeValue::Constant(s) => HashData::Text(s@),
            AttributeValue::String(s) => HashData::Text(s@),
        }
    }
}

/// A `Constant` and a `String` with the same text are equal, in both
/// directions, and hash the same data.
pub proof fn law_constant_matches_string(c: &'static str, s: String)
    requires
        c@ == s@,
    ensures
        AttributeValue::Constant(c).same_value(&AttributeValue::String(s)),
        AttributeValue::String(s).same_value(&AttributeValue::Constant(c)),
        AttributeValue::Constant(c).hash_data() == AttributeValue::String(s).hash_data(),
{
}

/// Values of different kinds are never equal, whatever they hold.
pub proof fn law_kinds_never_equal(a: AttributeValue, b: AttributeValue)
    requires
        a.kind() != b.kind(),
    ensures
        !a.same_value(&b),
{
}

/// Equal values hash the same data.
pub proof fn law_equal_values_hash_alike(a: AttributeValue, b: AttributeValue)
    requires
        a.same_value(&b),
    ensures
        a.hash_data() == b.hash_data(),
{
}

/// Relies on bool's `Hash`: it feeds the value to the hasher and returns.
pub assume_specification<H: core::hash::Hasher>[ <bool as core::hash::Hash>::hash ](
    data: &bool,
    state: &mut H,
);

/// Relies on i64's `Hash`: it feeds the value to the hasher and returns.
pub assume_specification<H: core::hash::Hasher>[ <i64 as core::hash::Hash>::hash ](
    data: &i64,
    state: &mut H,
);

/// Relies on u64's `Hash`: it feeds the value to the hasher and returns.
pub assume_specification<H: core::hash::Hasher>[ <u64 as core::hash::Hash>::hash ](
    data: &u64,
    state: &mut H,
);

/// Relies on str's `Hash`: it feeds the characters' bytes to the hasher and returns.
pub assume_specification<H: core::hash::Hasher>[ <str as core::hash::Hash>::hash ](
    data: &str,
    state: &mut H,
);

/// What `hash` hands to the hasher, borrowed from the value.
pub enum HashKey<'a> {
    Nothing,
    Flag(bool),
    Signed(i64),
    Bits(u64),
    Text(&'a str),
}

impl<'a> HashKey<'a> {
    /// The data this key stands for.
    pub open spec fn data(&self) -> HashData {
        match self {
            HashKey::Nothing => HashData::Nothing,
            HashKey::Flag(b) => HashData::Flag(*b),
            HashKey::Signed(i) => HashData::Signed(*i),
            HashKey::Bits(f) => HashData::Bits(*f),
            HashKey::Text(s) => HashData::Text(s@),
        }
    }
}

impl AttributeValue {
    /// The key that `hash` feeds to the hasher.
    pub fn hash_key(&self) -> (r: HashKey<'_>)
        ensures
            r.data() == self.hash_data(),
    {
        match self {
            AttributeValue::Empty => HashKey::Nothing,
            AttributeValue::Boolean(b) => HashKey::Flag(*b),
            AttributeValue::Integer(i) => HashKey::Signed(*i),
            AttributeValue::Decimal(f) => {
                if *f & MAGNITUDE_MASK == 0 {
                    HashKey::Bits(0)
                } else {
                    HashKey::Bits(*f)
                }
            },
            AttributeValue::Constant(s) => HashKey::Text(s),
            AttributeValue::String(s) => HashKey::Text(s.as_str()),
        }
    }
}

/// Hashes the key that `hash_key` gives, so that equal values hash alike.
impl core::hash::Hash for AttributeValue {
    fn hash<H: core::hash::Hasher>(&self, state: &mut H) {
        match self.hash_key() {
            HashKey::Nothing => {},
            HashKey::Flag(b) => b.hash(state),
            HashKey::Signed(i) => i.hash(state),
            HashKey::Bits(f) => f.hash(state),
            HashKey::Text(s) => s.hash(state),
        }
    }
}

/// Character-wise equality of two strings.
pub fn str_eq(a: &str, b: &str) -> (r: bool)
    ensures
        r == (a@ == b@),
{
    broadcast use vstd::string::next_postcondition, vstd::string::axiom_spec_iter;

    let mut ia = a.chars();
    let mut ib = b.chars();
    let ghost mut k: int = 0;
    loop
        invariant
            0 <= k <= a@.len(),
            k <= b@.len(),
            ia.remaining() == a@.skip(k),
            ib.remaining() == b@.skip(k),
            a@.take(k) == b@.take(k),
        decreases a@.len() - k,
    {
        let ca = ia.next();
        let cb = ib.next();
        match (ca, cb) {
            (Some(x), Some(y)) => {
                if x != y {
                    assert(a@[k] != b@[k]);
                    return false;
                }
                assert(a@.take(k + 1) == a@.take(k).push(x));
                assert(b@.take(k + 1) == b@.take(k).push(y));
                proof {
                    k = k + 1;
                }
                assert(a@.skip(k) == a@.skip(k - 1).drop_first());
                assert(b@.skip(k) == b@.skip(k - 1).drop_first());
            },
            (None, None) => {
                assert(a@ == a@.take(k));
                assert(b@ == b@.take(k));
                return true;
            },
            _ => {
                assert(a@.len() != b@.len());
                return false;
            },
        }
    }
}

} // verus!
