//! Values as they cross the boundary, and the slots they are written to.
//!
//! Every operation that produces a value writes it into a slot that the caller supplies.
//! A reader that is asked for the wrong variant reports failure and leaves its slot as
//! it was.

use vstd::prelude::*;

verus! {

/// A value of the machine.
///
/// `Object` refers to an object of the machine's pool by the pool's identifier and owns
/// nothing. `Float` carries the IEEE 754 bit pattern of a 64-bit float, so that two
/// values are equal exactly when they are the same variant with the same bits.
#[derive(Clone, Copy, Debug, PartialEq, Eq, Structural)]
pub enum Value {
    Object(usize),
    Null,
    Bool(bool),
    Int(i64),
    Float(u64),
}

/// The tag that identifies a variant to the host: `B`, `F`, `I`, `N` or `O`.
pub open spec fn type_tag(v: Value) -> u8 {
    match v {
        Value::Bool(_) => 66u8,
        Value::Float(_) => 70u8,
        Value::Int(_) => 73u8,
        Value::Null => 78u8,
        Value::Object(_) => 79u8,
    }
}

/// The value that stands for `v`, where an absent one stands for `Null`.
pub open spec fn or_null(v: Option<Value>) -> Value {
    match v {
        Some(v) => v,
        None => Value::Null,
    }
}

impl Value {
    /// The pool identifier that an `Object` refers to.
    pub open spec fn object_id(self) -> Option<usize> {
        match self {
            Value::Object(id) => Some(id),
            _ => None,
        }
    }

    pub fn is_object(&self) -> (b: bool)
        ensures
            b == (*self is Object),
    {
        match *self {
            Value::Object(_) => true,
            _ => false,
        }
    }

    /// The value itself, or `Null` where the host passed none.
    pub fn from_optional(v: Option<Value>) -> (r: Value)
        ensures
            r == or_null(v),
    {
        match v {
            Some(v) => v,
            None => Value::Null,
        }
    }
}

pub fn hexagon_ort_value_create_from_null(ret_place: &mut Value)
    ensures
        *final(ret_place) == Value::Null,
{
    *ret_place = Value::Null;
}

/// Any nonzero `v` is `true`.
pub fn hexagon_ort_value_create_from_bool(ret_place: &mut Value, v: u32)
    ensures
        *final(ret_place) == Value::Bool(v != 0),
{
    *ret_place = Value::Bool(v != 0);
}

pub fn hexagon_ort_value_create_from_i64(ret_place: &mut Value, v: i64)
    ensures
        *final(ret_place) == Value::Int(v),
{
    *ret_place = Value::Int(v);
}

/// `bits` is the bit pattern of the float.
pub fn hexagon_ort_value_create_from_f64(ret_place: &mut Value, bits: u64)
    ensures
        *final(ret_place) == Value::Float(bits),
{
    *ret_place = Value::Float(bits);
}

/// Wraps the identifier under which the pool holds an object: an interned string, a
/// pinned proxy or a pinned function.
pub fn hexagon_ort_value_create_from_object(ret_place: &mut Value, id: usize)
    ensures
        *final(ret_place) == Value::Object(id),
{
    *ret_place = Value::Object(id);
}

/// Status 0 and the integer in the slot for an `Int`; status 1 and the slot untouched
/// for anything else.
pub fn hexagon_ort_value_read_i64(ret_place: &mut i64, v: &Value) -> (status: i32)
    ensures
        match *v {
            Value::Int(n) => status == 0 && *final(ret_place) == n,
            _ => status == 1 && *final(ret_place) == *old(ret_place),
        },
{
    match *v {
        Value::Int(n) => {
            *ret_place = n;
            0
        },
        _ => 1,
    }
}

/// Status 0 and the float's bit pattern in the slot for a `Float`; status 1 and the slot
/// untouched for anything else.
pub fn hexagon_ort_value_read_f64(ret_place: &mut u64, v: &Value) -> (status: i32)
    ensures
        match *v {
            Value::Float(bits) => status == 0 && *final(ret_place) == bits,
            _ => status == 1 && *final(ret_place) == *old(ret_place),
        },
{
    match *v {
        Value::Float(bits) => {
            *ret_place = bits;
            0
        },
        _ => 1,
    }
}

/// Status 0 for `Null`, 1 for anything else.
pub fn hexagon_ort_value_read_null(v: &Value) -> (status: i32)
    ensures
        status == (if *v is Null { 0i32 } else { 1i32 }),
{
    match *v {
        Value::Null => 0,
        _ => 1,
    }
}

/// Status 0 and 1 or 0 in the slot for a `Bool`; status 1 and the slot untouched for
/// anything else.
pub fn hexagon_ort_value_read_bool(ret_place: &mut i32, v: &Value) -> (status: i32)
    ensures
        match *v {
            Value::Bool(b) => status == 0 && *final(ret_place) == (if b { 1i32 } else { 0i32 }),
            _ => status == 1 && *final(ret_place) == *old(ret_place),
        },
{
    match *v {
        Value::Bool(b) => {
            *ret_place = if b { 1 } else { 0 };
            0
        },
        _ => 1,
    }
}

pub fn hexagon_ort_value_get_type(v: &Value) -> (tag: u8)
    ensures
        tag == type_tag(*v),
{
    match *v {
        Value::Bool(_) => 66,
        Value::Float(_) => 70,
        Value::Int(_) => 73,
        Value::Null => 78,
        Value::Object(_) => 79,
    }
}

/// The identifier to look up in the pool for a handle to the object, or `None` where the
/// value refers to no object.
pub fn hexagon_ort_value_to_object_handle(v: &Value) -> (id: Option<usize>)
    ensures
        id == v.object_id(),
{
    match *v {
        Value::Object(id) => Some(id),
        _ => None,
    }
}

/// Whether `v` is a string of the pool: 1 where it is an object and `referent_is_string`
/// says so of the object it refers to, else 0. The flag is not looked at for a value
/// that is no object.
pub fn hexagon_ort_value_is_string(v: &Value, referent_is_string: bool) -> (r: u32)
    ensures
        r == (if *v is Object && referent_is_string { 1u32 } else { 0u32 }),
{
    if !v.is_object() {
        return 0;
    }
    if referent_is_string { 1 } else { 0 }
}

/// The tag tells the variant, and so which reader succeeds: each tag belongs to one
/// variant only.
pub proof fn lemma_tag_tells_variant(v: Value)
    ensures
        type_tag(v) == 73u8 <==> v is Int,
        type_tag(v) == 70u8 <==> v is Float,
        type_tag(v) == 66u8 <==> v is Bool,
        type_tag(v) == 78u8 <==> v is Null,
        type_tag(v) == 79u8 <==> v is Object,
{
}

} // verus!
