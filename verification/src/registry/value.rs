//! GraphQL values as resolvers and validators read them.

use vstd::prelude::*;

verus! {

/// A number. A float is held by its bits.
#[derive(Clone, Copy, Debug, PartialEq, Eq, Structural)]
pub enum Number {
    PosInt(u64),
    NegInt(i64),
    Float(u64),
}

/// A GraphQL value.
#[derive(Debug)]
pub enum GraphqlValue {
    Null,
    Variable(String),
    Number(Number),
    String(String),
    Boolean(bool),
    Enum(String),
    List(Vec<GraphqlValue>),
    Object(Vec<(String, GraphqlValue)>),
}

/// The base of a type: a name, or a list of a type.
#[derive(Debug)]
pub enum BaseType {
    Named(String),
    List(Box<Type>),
}

/// A type as the schema definition language spells it.
#[derive(Debug)]
pub struct Type {
    pub base: BaseType,
    pub nullable: bool,
}

impl Number {
    /// The number as an unsigned integer, if it is one.
    pub fn as_u64(&self) -> (value: Option<u64>)
        ensures
            value == match *self {
                Number::PosInt(n) => Some(n),
                _ => None,
            },
    {
        match self {
            Number::PosInt(n) => Some(*n),
            _ => None,
        }
    }
}

impl BaseType {
    /// The name at the bottom of the type, under all lists.
    pub open spec fn base_name(self) -> Seq<char>
        decreases self,
    {
        match self {
            BaseType::Named(name) => name@,
            BaseType::List(inner) => inner.base.base_name(),
        }
    }

    /// The name at the bottom of the type, under all lists.
    pub fn to_base_type_str(&self) -> (name: &str)
        ensures
            name@ == self.base_name(),
        decreases self,
    {
        match self {
            BaseType::Named(name) => name.as_str(),
            BaseType::List(inner) => inner.base.to_base_type_str(),
        }
    }
}

} // verus!
