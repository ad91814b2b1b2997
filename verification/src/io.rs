//! What travels between entities: typed values, the inputs that carry them,
//! and the keys that a map writes.
use vstd::prelude::*;

use crate::entity::EntityId;
use crate::scalar::{num, origin, Scalar, Vector, ZERO};

verus! {

/// What kind of value an input carries.
#[derive(Debug, Clone, Copy, PartialEq, Eq, Structural)]
pub enum FieldType {
    Void,
    Bool,
    Int,
    Float,
    String,
    Vector,
    /// Whatever the sender had.
    Input,
}

/// A value of one of the kinds.
#[derive(Debug)]
pub enum Variant {
    Void,
    Bool(bool),
    Int(i32),
    Float(Scalar),
    String(String),
    Vector(Vector),
}

impl Variant {
    pub open spec fn truth(&self) -> bool {
        match *self {
            Variant::Bool(b) => b,
            _ => false,
        }
    }

    pub open spec fn count(&self) -> i32 {
        match *self {
            Variant::Int(i) => i,
            _ => 0i32,
        }
    }

    pub open spec fn number(&self) -> Scalar {
        match *self {
            Variant::Float(x) => x,
            _ => num(ZERO),
        }
    }

    pub open spec fn arrow(&self) -> Vector {
        match *self {
            Variant::Vector(v) => v,
            _ => origin(),
        }
    }

    /// The truth value carried; `false` for any other kind.
    pub fn bool(&self) -> (r: bool)
        ensures
            r == self.truth(),
    {
        match self {
            Variant::Bool(b) => *b,
            _ => false,
        }
    }

    /// The integer carried; `0` for any other kind.
    pub fn integer(&self) -> (r: i32)
        ensures
            r == self.count(),
    {
        match self {
            Variant::Int(i) => *i,
            _ => 0,
        }
    }

    /// The number carried; `0` for any other kind.
    pub fn float(&self) -> (r: Scalar)
        ensures
            r == self.number(),
    {
        match self {
            Variant::Float(x) => *x,
            _ => num(ZERO),
        }
    }

    /// The vector carried; zero for any other kind.
    pub fn vector(&self) -> (r: Vector)
        ensures
            r == self.arrow(),
    {
        match self {
            Variant::Vector(v) => *v,
            _ => origin(),
        }
    }

    /// Another value of the same kind that holds the same.
    pub fn copied(&self) -> (r: Variant)
        ensures
            r == *self,
    {
        match self {
            Variant::Void => Variant::Void,
            Variant::Bool(b) => Variant::Bool(*b),
            Variant::Int(i) => Variant::Int(*i),
            Variant::Float(x) => Variant::Float(*x),
            Variant::String(s) => Variant::String(s.clone()),
            Variant::Vector(v) => Variant::Vector(*v),
        }
    }
}

/// An input on its way into an entity.
#[derive(Debug)]
pub struct Input<'a> {
    pub name: &'a str,
    pub value: Variant,
    /// The value written out as text.
    pub text: String,
    /// Who set things going.
    pub activator: Option<EntityId>,
    /// Who sent it.
    pub caller: Option<EntityId>,
    /// Which of the sender's connections it came through.
    pub output_id: u32,
}

/// What a map wrote for a key: the text, and the numbers that it reads as.
#[derive(Debug)]
pub struct Value {
    pub text: String,
    /// The number that the text starts with.
    pub number: Scalar,
    /// A tenth of that number.
    pub tenth: Scalar,
    /// A hundredth of that number.
    pub hundredth: Scalar,
    /// The integer that the text starts with, as a number.
    pub whole: Scalar,
    /// The three numbers that the text starts with.
    pub vector: Vector,
}

} // verus!
