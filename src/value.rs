use vstd::prelude::*;

use crate::error::{EvalError, MismatchContext};

verus! {

/// The type tag of a scalar value.
#[derive(Clone, Copy, PartialEq, Eq, Structural, Debug)]
pub enum ValueType {
    Integer,
    Float,
    Boolean,
    Text,
}

/// A scalar value. A float is held as its IEEE-754 single-precision bit pattern:
/// this library never computes with floats itself, it hands them to a `FloatUnit`.
#[derive(Debug, PartialEq, Eq)]
pub enum Primitive {
    Integer(i32),
    Float(u32),
    Boolean(bool),
    Text(String),
}

pub open spec fn type_of(p: Primitive) -> ValueType {
    match p {
        Primitive::Integer(_) => ValueType::Integer,
        Primitive::Float(_) => ValueType::Float,
        Primitive::Boolean(_) => ValueType::Boolean,
        Primitive::Text(_) => ValueType::Text,
    }
}

pub open spec fn numeric(p: Primitive) -> bool {
    p is Integer || p is Float
}

impl Primitive {
    /// An exact copy of the value.
    pub fn duplicate(&self) -> (r: Primitive)
        ensures
            r == *self,
    {
        match self {
            Primitive::Integer(v) => Primitive::Integer(*v),
            Primitive::Float(v) => Primitive::Float(*v),
            Primitive::Boolean(v) => Primitive::Boolean(*v),
            Primitive::Text(s) => Primitive::Text(s.clone()),
        }
    }

    pub fn type_tag(&self) -> (r: ValueType)
        ensures
            r == type_of(*self),
    {
        match self {
            Primitive::Integer(_) => ValueType::Integer,
            Primitive::Float(_) => ValueType::Float,
            Primitive::Boolean(_) => ValueType::Boolean,
            Primitive::Text(_) => ValueType::Text,
        }
    }

    /// The name of the value's type, as diagnostics print it.
    pub fn type_string(&self) -> (r: String)
        ensures
            r@ == type_label(type_of(*self)),
    {
        self.type_tag().name()
    }

    pub fn is_numeric(&self) -> (r: bool)
        ensures
            r == numeric(*self),
    {
        match self {
            Primitive::Integer(_) => true,
            Primitive::Float(_) => true,
            _ => false,
        }
    }

    pub fn is_integer(&self) -> (r: bool)
        ensures
            r == (*self is Integer),
    {
        match self {
            Primitive::Integer(_) => true,
            _ => false,
        }
    }

    pub fn is_float(&self) -> (r: bool)
        ensures
            r == (*self is Float),
    {
        match self {
            Primitive::Float(_) => true,
            _ => false,
        }
    }

    pub fn is_boolean(&self) -> (r: bool)
        ensures
            r == (*self is Boolean),
    {
        match self {
            Primitive::Boolean(_) => true,
            _ => false,
        }
    }

    pub fn is_text(&self) -> (r: bool)
        ensures
            r == (*self is Text),
    {
        match self {
            Primitive::Text(_) => true,
            _ => false,
        }
    }

    pub fn get_int_value(&self) -> (r: Result<i32, EvalError>)
        ensures
            match *self {
                Primitive::Integer(v) => r == Ok::<i32, EvalError>(v),
                _ => r == Err::<i32, EvalError>(accessor_error(ValueType::Integer, *self)),
            },
    {
        match self {
            Primitive::Integer(v) => Ok(*v),
            _ => Err(accessor_mismatch(ValueType::Integer, self)),
        }
    }

    pub fn get_float_value(&self) -> (r: Result<u32, EvalError>)
        ensures
            match *self {
                Primitive::Float(v) => r == Ok::<u32, EvalError>(v),
                _ => r == Err::<u32, EvalError>(accessor_error(ValueType::Float, *self)),
            },
    {
        match self {
            Primitive::Float(v) => Ok(*v),
            _ => Err(accessor_mismatch(ValueType::Float, self)),
        }
    }

    pub fn get_boolean_value(&self) -> (r: Result<bool, EvalError>)
        ensures
            match *self {
                Primitive::Boolean(v) => r == Ok::<bool, EvalError>(v),
                _ => r == Err::<bool, EvalError>(accessor_error(ValueType::Boolean, *self)),
            },
    {
        match self {
            Primitive::Boolean(v) => Ok(*v),
            _ => Err(accessor_mismatch(ValueType::Boolean, self)),
        }
    }

    pub fn get_string_value(&self) -> (r: Result<&str, EvalError>)
        ensures
            match *self {
                Primitive::Text(s) => r is Ok && r->Ok_0@ == s@,
                _ => r == Err::<&str, EvalError>(accessor_error(ValueType::Text, *self)),
            },
    {
        match self {
            Primitive::Text(s) => Ok(s.as_str()),
            _ => Err(accessor_mismatch(ValueType::Text, self)),
        }
    }
}

/// The error of a typed accessor asked for `wanted` on a value of another type.
pub open spec fn accessor_error(wanted: ValueType, p: Primitive) -> EvalError {
    EvalError::TypeMismatch {
        context: MismatchContext::Value(wanted),
        first: type_of(p),
        second: None,
    }
}

fn accessor_mismatch(wanted: ValueType, p: &Primitive) -> (r: EvalError)
    ensures
        r == accessor_error(wanted, *p),
{
    EvalError::TypeMismatch {
        context: MismatchContext::Value(wanted),
        first: p.type_tag(),
        second: None,
    }
}

pub open spec fn type_label(t: ValueType) -> Seq<char> {
    match t {
        ValueType::Integer => seq!['I', 'n', 't', 'e', 'g', 'e', 'r'],
        ValueType::Float => seq!['F', 'l', 'o', 'a', 't'],
        ValueType::Boolean => seq!['B', 'o', 'o', 'l', 'e', 'a', 'n'],
        ValueType::Text => seq!['S', 't', 'r', 'i', 'n', 'g'],
    }
}

impl ValueType {
    pub fn name(&self) -> (r: String)
        ensures
            r@ == type_label(*self),
    {
        let r = match self {
            ValueType::Integer => "Integer",
            ValueType::Float => "Float",
            ValueType::Boolean => "Boolean",
            ValueType::Text => "String",
        };
        proof {
            reveal_strlit("Integer");
            reveal_strlit("Float");
            reveal_strlit("Boolean");
            reveal_strlit("String");
        }
        r.to_owned()
    }
}

} // verus!
