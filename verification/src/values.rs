//! The values that contract code hands to the ledger and gets back from it,
//! and the types that an asset may declare for its tokens.

use crate::table::TableKey;
use crate::types::{principal_eq, PrincipalData, PrincipalView};
use vstd::prelude::*;
use vstd::std_specs::cmp::PartialEqSpecImpl;

verus! {

/// A value of contract code.
#[derive(Debug, Eq)]
pub enum Value {
    Int(i128),
    UInt(u128),
    Bool(bool),
    Buffer(Vec<u8>),
    Principal(PrincipalData),
    /// `none`, or `some` value.
    Optional(Option<Box<Value>>),
    /// A response: whether it is `ok`, and what it carries.
    Response(bool, Box<Value>),
}

/// What a `Value` stands for.
pub enum ValueView {
    Int(i128),
    UInt(u128),
    Bool(bool),
    Buffer(Seq<u8>),
    Principal(PrincipalView),
    Optional(Option<Box<ValueView>>),
    Response(bool, Box<ValueView>),
}

/// The mathematical value of a `Value`.
pub open spec fn value_view(value: Value) -> ValueView
    decreases value,
{
    match value {
        Value::Int(i) => ValueView::Int(i),
        Value::UInt(u) => ValueView::UInt(u),
        Value::Bool(b) => ValueView::Bool(b),
        Value::Buffer(bytes) => ValueView::Buffer(bytes@),
        Value::Principal(p) => ValueView::Principal(p@),
        Value::Optional(None) => ValueView::Optional(None),
        Value::Optional(Some(inner)) => ValueView::Optional(Some(Box::new(value_view(*inner)))),
        Value::Response(committed, data) => ValueView::Response(
            committed,
            Box::new(value_view(*data)),
        ),
    }
}

impl View for Value {
    type V = ValueView;

    open spec fn view(&self) -> ValueView {
        value_view(*self)
    }
}

/// Compares two byte strings.
pub fn byte_vec_eq(a: &Vec<u8>, b: &Vec<u8>) -> (r: bool)
    ensures
        r == (a@ == b@),
{
    if a.len() != b.len() {
        return false;
    }
    let mut i: usize = 0;
    while i < a.len()
        invariant
            0 <= i <= a@.len(),
            a@.len() == b@.len(),
            forall|j: int| 0 <= j < i ==> a@[j] == b@[j],
        decreases a@.len() - i,
    {
        if a[i] != b[i] {
            return false;
        }
        i += 1;
    }
    assert(a@ =~= b@);
    true
}

/// A copy of a byte string.
pub fn byte_vec_clone(a: &Vec<u8>) -> (r: Vec<u8>)
    ensures
        r@ == a@,
{
    let mut r: Vec<u8> = Vec::new();
    let mut i: usize = 0;
    while i < a.len()
        invariant
            0 <= i <= a@.len(),
            r@ == a@.take(i as int),
        decreases a@.len() - i,
    {
        r.push(a[i]);
        assert(a@.take(i as int).push(a@[i as int]) =~= a@.take(i + 1));
        i += 1;
    }
    assert(a@.take(i as int) =~= a@);
    r
}

/// Whether two values are the same value.
pub fn value_eq(a: &Value, b: &Value) -> (r: bool)
    ensures
        r == (a@ == b@),
    decreases a,
{
    match (a, b) {
        (Value::Int(x), Value::Int(y)) => *x == *y,
        (Value::UInt(x), Value::UInt(y)) => *x == *y,
        (Value::Bool(x), Value::Bool(y)) => *x == *y,
        (Value::Buffer(x), Value::Buffer(y)) => byte_vec_eq(x, y),
        (Value::Principal(x), Value::Principal(y)) => principal_eq(x, y),
        (Value::Optional(None), Value::Optional(None)) => true,
        (Value::Optional(Some(x)), Value::Optional(Some(y))) => value_eq(x, y),
        (Value::Response(cx, x), Value::Response(cy, y)) => *cx == *cy && value_eq(x, y),
        _ => false,
    }
}

/// A copy of a value.
pub fn value_clone(a: &Value) -> (r: Value)
    ensures
        r@ == a@,
    decreases a,
{
    match a {
        Value::Int(x) => Value::Int(*x),
        Value::UInt(x) => Value::UInt(*x),
        Value::Bool(x) => Value::Bool(*x),
        Value::Buffer(x) => Value::Buffer(byte_vec_clone(x)),
        Value::Principal(x) => Value::Principal(x.clone()),
        Value::Optional(None) => Value::Optional(None),
        Value::Optional(Some(x)) => Value::Optional(Some(Box::new(value_clone(x)))),
        Value::Response(c, x) => Value::Response(*c, Box::new(value_clone(x))),
    }
}

impl PartialEq for Value {
    fn eq(&self, other: &Self) -> (r: bool) {
        value_eq(self, other)
    }
}

impl PartialEqSpecImpl for Value {
    open spec fn obeys_eq_spec() -> bool {
        true
    }

    open spec fn eq_spec(&self, other: &Self) -> bool {
        self@ == other@
    }
}

impl Clone for Value {
    fn clone(&self) -> (r: Self)
        ensures
            r@ == self@,
    {
        value_clone(self)
    }
}

impl TableKey for Value {
    fn key_eq(&self, other: &Self) -> (r: bool) {
        value_eq(self, other)
    }

    fn key_clone(&self) -> (r: Self) {
        value_clone(self)
    }
}

impl Value {
    /// The response `(ok true)`.
    pub open spec fn spec_okay_true() -> ValueView {
        ValueView::Response(true, Box::new(ValueView::Bool(true)))
    }

    /// The response `(err code)`, with an unsigned code.
    pub open spec fn spec_err_uint(code: u128) -> ValueView {
        ValueView::Response(false, Box::new(ValueView::UInt(code)))
    }

    /// The response `(ok true)`.
    pub fn okay_true() -> (r: Value)
        ensures
            r@ == Self::spec_okay_true(),
    {
        proof {
            reveal_with_fuel(value_view, 2);
        }
        Value::Response(true, Box::new(Value::Bool(true)))
    }

    /// The response `(err code)`, with an unsigned code.
    pub fn err_uint(code: u128) -> (r: Value)
        ensures
            r@ == Self::spec_err_uint(code),
    {
        proof {
            reveal_with_fuel(value_view, 2);
        }
        Value::Response(false, Box::new(Value::UInt(code)))
    }

    /// `(some data)`.
    pub fn some(data: Value) -> (r: Value)
        ensures
            r@ == ValueView::Optional(Some(Box::new(data@))),
    {
        Value::Optional(Some(Box::new(data)))
    }

    /// `none`.
    pub fn none() -> (r: Value)
        ensures
            r@ == ValueView::Optional(None),
    {
        Value::Optional(None)
    }
}

/// The type that an asset declares for what identifies its tokens.
#[derive(Clone, Copy, Debug, PartialEq, Eq, Structural)]
pub enum TypeSignature {
    IntType,
    UIntType,
    BoolType,
    /// Byte strings of at most that length.
    BufferType(u32),
    PrincipalType,
}

impl TypeSignature {
    /// Whether a value is of this type.
    pub open spec fn spec_admits(&self, value: ValueView) -> bool {
        match (*self, value) {
            (TypeSignature::IntType, ValueView::Int(_)) => true,
            (TypeSignature::UIntType, ValueView::UInt(_)) => true,
            (TypeSignature::BoolType, ValueView::Bool(_)) => true,
            (TypeSignature::BufferType(max_len), ValueView::Buffer(bytes)) => bytes.len()
                <= max_len,
            (TypeSignature::PrincipalType, ValueView::Principal(_)) => true,
            _ => false,
        }
    }

    /// Whether a value is of this type.
    pub fn admits(&self, value: &Value) -> (r: bool)
        ensures
            r == self.spec_admits(value@),
    {
        match (*self, value) {
            (TypeSignature::IntType, Value::Int(_)) => true,
            (TypeSignature::UIntType, Value::UInt(_)) => true,
            (TypeSignature::BoolType, Value::Bool(_)) => true,
            (TypeSignature::BufferType(max_len), Value::Buffer(bytes)) => bytes.len()
                <= max_len as usize,
            (TypeSignature::PrincipalType, Value::Principal(_)) => true,
            _ => false,
        }
    }

    /// The number of bytes that a value of this type takes in storage, at most.
    pub open spec fn spec_size(&self) -> nat {
        match *self {
            TypeSignature::IntType => 16,
            TypeSignature::UIntType => 16,
            TypeSignature::BoolType => 1,
            TypeSignature::BufferType(max_len) => 4 + max_len as nat,
            TypeSignature::PrincipalType => 148,
        }
    }

    /// The number of bytes that a value of this type takes in storage, at most.
    pub fn size(&self) -> (r: u64)
        ensures
            r == self.spec_size(),
    {
        match *self {
            TypeSignature::IntType => 16,
            TypeSignature::UIntType => 16,
            TypeSignature::BoolType => 1,
            TypeSignature::BufferType(max_len) => 4 + max_len as u64,
            TypeSignature::PrincipalType => 148,
        }
    }
}

} // verus!
