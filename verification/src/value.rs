//! The payload carried by tokens and by literal nodes of the syntax tree.

use vstd::prelude::*;
use vstd::slice::slice_to_vec;

use crate::numeric::bits_are_nan;
use crate::numeric::bits_are_zero;
use crate::numeric::is_nan_bits;
use crate::numeric::is_zero_bits;

verus! {

/// Payload of a token or literal node.
///
/// A numeric payload holds the 64-bit pattern of an IEEE-754
/// double-precision value rather than a native float, so that the
/// surrounding logic can be stated and checked bit-exactly; the arithmetic
/// on such payloads lives in `numeric`. Text-like payloads hold the bytes
/// of the matched source text.
#[derive(Debug)]
pub enum LiteralValue {
    Number(u64),
    Text(Vec<u8>),
    Boolean(bool),
    Identifier(Vec<u8>),
    Keyword(Vec<u8>),
    Symbol(Vec<u8>),
    EOF,
    Absent,
}

/// Mathematical model of a `LiteralValue`: byte payloads become sequences.
pub enum ValueV {
    Number(u64),
    Text(Seq<u8>),
    Boolean(bool),
    Identifier(Seq<u8>),
    Keyword(Seq<u8>),
    Symbol(Seq<u8>),
    EOF,
    Absent,
}

impl View for LiteralValue {
    type V = ValueV;

    open spec fn view(&self) -> ValueV {
        match self {
            LiteralValue::Number(b) => ValueV::Number(*b),
            LiteralValue::Text(t) => ValueV::Text(t@),
            LiteralValue::Boolean(b) => ValueV::Boolean(*b),
            LiteralValue::Identifier(t) => ValueV::Identifier(t@),
            LiteralValue::Keyword(t) => ValueV::Keyword(t@),
            LiteralValue::Symbol(t) => ValueV::Symbol(t@),
            LiteralValue::EOF => ValueV::EOF,
            LiteralValue::Absent => ValueV::Absent,
        }
    }
}

/// Byte-wise comparison of two owned byte strings.
pub fn bytes_eq(a: &Vec<u8>, b: &Vec<u8>) -> (r: bool)
    ensures
        r == (a@ == b@),
{
    if a.len() != b.len() {
        assert(a@ != b@) by {
            assert(a@.len() != b@.len());
        }
        return false;
    }
    let n = a.len();
    let mut i: usize = 0;
    while i < n
        invariant
            n == a@.len() == b@.len(),
            i <= n,
            forall|k: int| 0 <= k < i ==> a@[k] == b@[k],
        decreases n - i,
    {
        if a[i] != b[i] {
            return false;
        }
        i += 1;
    }
    assert(a@ =~= b@);
    true
}

impl LiteralValue {
    pub fn new_number(num: u64) -> (r: Self)
        ensures
            r@ == ValueV::Number(num),
    {
        LiteralValue::Number(num)
    }

    pub fn new_string(text: &[u8]) -> (r: Self)
        ensures
            r@ == ValueV::Text(text@),
    {
        LiteralValue::Text(slice_to_vec(text))
    }

    pub fn new_bool(val: bool) -> (r: Self)
        ensures
            r@ == ValueV::Boolean(val),
    {
        LiteralValue::Boolean(val)
    }

    pub fn new_identifier(id: &[u8]) -> (r: Self)
        ensures
            r@ == ValueV::Identifier(id@),
    {
        LiteralValue::Identifier(slice_to_vec(id))
    }

    pub fn new_keyword(key: &[u8]) -> (r: Self)
        ensures
            r@ == ValueV::Keyword(key@),
    {
        LiteralValue::Keyword(slice_to_vec(key))
    }

    pub fn new_symbol(sym: &[u8]) -> (r: Self)
        ensures
            r@ == ValueV::Symbol(sym@),
    {
        LiteralValue::Symbol(slice_to_vec(sym))
    }

    pub fn eof() -> (r: Self)
        ensures
            r@ == ValueV::EOF,
    {
        LiteralValue::EOF
    }

    pub fn absent() -> (r: Self)
        ensures
            r@ == ValueV::Absent,
    {
        LiteralValue::Absent
    }
}

impl Clone for LiteralValue {
    /// Cloning keeps the model of the value.
    fn clone(&self) -> (r: Self)
        ensures
            r@ == self@,
    {
        match self {
            LiteralValue::Number(b) => LiteralValue::Number(*b),
            LiteralValue::Text(t) => LiteralValue::Text(clone_bytes(t)),
            LiteralValue::Boolean(b) => LiteralValue::Boolean(*b),
            LiteralValue::Identifier(t) => LiteralValue::Identifier(clone_bytes(t)),
            LiteralValue::Keyword(t) => LiteralValue::Keyword(clone_bytes(t)),
            LiteralValue::Symbol(t) => LiteralValue::Symbol(clone_bytes(t)),
            LiteralValue::EOF => LiteralValue::EOF,
            LiteralValue::Absent => LiteralValue::Absent,
        }
    }
}

/// Copy of a byte string with the same model.
pub fn clone_bytes(v: &Vec<u8>) -> (r: Vec<u8>)
    ensures
        r@ == v@,
{
    let r = v.clone();
    assert(r@ =~= v@);
    r
}

/// Equality of two numeric payloads as the IEEE-754 values they denote:
/// a NaN pattern equals nothing (not even itself), the two zeros equal
/// each other, and every other value has exactly one bit pattern.
pub open spec fn number_eq_bits(a: u64, b: u64) -> bool {
    &&& !is_nan_bits(a)
    &&& !is_nan_bits(b)
    &&& (a == b || (is_zero_bits(a) && is_zero_bits(b)))
}

/// Structural equality of two value models, per variant: numeric payloads
/// compare as the values they denote, byte payloads byte for byte, and
/// values of different variants are never equal.
pub open spec fn value_eq(a: ValueV, b: ValueV) -> bool {
    match (a, b) {
        (ValueV::Number(x), ValueV::Number(y)) => number_eq_bits(x, y),
        (ValueV::Text(x), ValueV::Text(y)) => x == y,
        (ValueV::Boolean(x), ValueV::Boolean(y)) => x == y,
        (ValueV::Identifier(x), ValueV::Identifier(y)) => x == y,
        (ValueV::Keyword(x), ValueV::Keyword(y)) => x == y,
        (ValueV::Symbol(x), ValueV::Symbol(y)) => x == y,
        (ValueV::EOF, ValueV::EOF) => true,
        (ValueV::Absent, ValueV::Absent) => true,
        _ => false,
    }
}

impl PartialEq for LiteralValue {
    /// Structural equality, per variant; values of different variants are
    /// never equal. Numeric payloads compare as the IEEE-754 values they
    /// denote: any NaN payload is unequal even to itself, and the two
    /// zeros are equal.
    fn eq(&self, other: &Self) -> (r: bool) {
        match (self, other) {
            (LiteralValue::Number(a), LiteralValue::Number(b)) => !bits_are_nan(*a)
                && !bits_are_nan(*b) && (a == b || (bits_are_zero(*a) && bits_are_zero(*b))),
            (LiteralValue::Text(a), LiteralValue::Text(b)) => bytes_eq(a, b),
            (LiteralValue::Boolean(a), LiteralValue::Boolean(b)) => a == b,
            (LiteralValue::Identifier(a), LiteralValue::Identifier(b)) => bytes_eq(a, b),
            (LiteralValue::Keyword(a), LiteralValue::Keyword(b)) => bytes_eq(a, b),
            (LiteralValue::Symbol(a), LiteralValue::Symbol(b)) => bytes_eq(a, b),
            (LiteralValue::EOF, LiteralValue::EOF) => true,
            (LiteralValue::Absent, LiteralValue::Absent) => true,
            _ => false,
        }
    }
}

impl vstd::std_specs::cmp::PartialEqSpecImpl for LiteralValue {
    open spec fn obeys_eq_spec() -> bool {
        true
    }

    open spec fn eq_spec(&self, other: &Self) -> bool {
        value_eq(self@, other@)
    }
}

} // verus!
