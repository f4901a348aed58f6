//! The schema in the shape that guests of the interface revision 0.14
//! are handed.

use vstd::prelude::*;

verus! {

/// The id of a definition.
pub type DefinitionId = u32;

/// The schema.
#[derive(Debug)]
pub struct Schema<'a> {
    pub type_definitions: Vec<TypeDefinition<'a>>,
    pub directives: Vec<Directive<'a>>,
    pub root_types: RootTypes,
}

/// The root types of the schema, as far as it has them.
#[derive(Clone, Copy, Debug)]
pub struct RootTypes {
    pub query_id: Option<DefinitionId>,
    pub mutation_id: Option<DefinitionId>,
    pub subscription_id: Option<DefinitionId>,
}

/// A type definition.
#[derive(Debug)]
pub enum TypeDefinition<'a> {
    Scalar(ScalarDefinition<'a>),
    Object(ObjectDefinition<'a>),
    Interface(InterfaceDefinition<'a>),
    Union(UnionDefinition<'a>),
    Enum(EnumDefinition<'a>),
    InputObject(InputObjectDefinition<'a>),
}

#[derive(Debug)]
pub struct ScalarDefinition<'a> {
    pub id: DefinitionId,
    pub name: &'a str,
    pub specified_by_url: Option<&'a str>,
    pub directives: Vec<Directive<'a>>,
}

#[derive(Debug)]
pub struct ObjectDefinition<'a> {
    pub id: DefinitionId,
    pub name: &'a str,
    pub interfaces: Vec<DefinitionId>,
    pub fields: Vec<FieldDefinition<'a>>,
    pub directives: Vec<Directive<'a>>,
}

#[derive(Debug)]
pub struct InterfaceDefinition<'a> {
    pub id: DefinitionId,
    pub name: &'a str,
    pub interfaces: Vec<DefinitionId>,
    pub fields: Vec<FieldDefinition<'a>>,
    pub directives: Vec<Directive<'a>>,
}

#[derive(Debug)]
pub struct UnionDefinition<'a> {
    pub id: DefinitionId,
    pub name: &'a str,
    pub member_types: Vec<DefinitionId>,
    pub directives: Vec<Directive<'a>>,
}

#[derive(Debug)]
pub struct EnumDefinition<'a> {
    pub id: DefinitionId,
    pub name: &'a str,
    pub values: Vec<EnumValue<'a>>,
    pub directives: Vec<Directive<'a>>,
}

#[derive(Debug)]
pub struct InputObjectDefinition<'a> {
    pub id: DefinitionId,
    pub name: &'a str,
    pub input_fields: Vec<InputValueDefinition<'a>>,
    pub directives: Vec<Directive<'a>>,
}

#[derive(Debug)]
pub struct FieldDefinition<'a> {
    pub id: DefinitionId,
    pub name: &'a str,
    pub ty: Ty,
    pub arguments: Vec<InputValueDefinition<'a>>,
    pub directives: Vec<Directive<'a>>,
}

/// A type: the wrappings around a definition, from the outside in.
#[derive(Debug)]
pub struct Ty {
    pub wrapping: Vec<WrappingType>,
    pub definition_id: DefinitionId,
}

/// One wrapping of a type.
#[derive(Clone, Copy, Debug, PartialEq, Eq, Structural)]
pub enum WrappingType {
    NonNull,
    List,
}

#[derive(Debug)]
pub struct InputValueDefinition<'a> {
    pub id: DefinitionId,
    pub name: &'a str,
    pub ty: Ty,
    pub directives: Vec<Directive<'a>>,
}

#[derive(Debug)]
pub struct EnumValue<'a> {
    pub name: &'a str,
    pub directives: Vec<Directive<'a>>,
}

/// A directive with its serialized arguments.
#[derive(Debug)]
pub struct Directive<'a> {
    pub name: &'a str,
    pub arguments: Vec<u8>,
}

/// What a host of guests of this revision provides.
pub trait Host {
}

/// A wrapping as the gateway's schema holds it.
#[derive(Clone, Copy, Debug, PartialEq, Eq, Structural)]
pub enum SchemaWrappingType {
    NonNull,
    List,
}

/// A type as the gateway's schema holds it.
pub struct SchemaType {
    pub wrapping: Vec<SchemaWrappingType>,
    pub definition_id: DefinitionId,
}

impl WrappingType {
    /// The wrapping for a wrapping of the gateway's schema.
    pub open spec fn of(wrapping: SchemaWrappingType) -> WrappingType {
        match wrapping {
            SchemaWrappingType::NonNull => WrappingType::NonNull,
            SchemaWrappingType::List => WrappingType::List,
        }
    }

}

impl From<SchemaWrappingType> for WrappingType {
    fn from(wrapping: SchemaWrappingType) -> (converted: WrappingType) {
        match wrapping {
            SchemaWrappingType::NonNull => WrappingType::NonNull,
            SchemaWrappingType::List => WrappingType::List,
        }
    }
}

impl vstd::std_specs::convert::FromSpecImpl<SchemaWrappingType> for WrappingType {
    open spec fn obeys_from_spec() -> bool {
        true
    }

    open spec fn from_spec(wrapping: SchemaWrappingType) -> WrappingType {
        WrappingType::of(wrapping)
    }
}

impl From<&SchemaType> for Ty {
    /// The type for a type of the gateway's schema: the same definition
    /// under the same wrappings.
    fn from(ty: &SchemaType) -> (converted: Ty)
        ensures
            converted.definition_id == ty.definition_id,
            converted.wrapping@.len() == ty.wrapping@.len(),
            forall|i: int|
                0 <= i < ty.wrapping@.len() ==> #[trigger] converted.wrapping@[i] == WrappingType::of(ty.wrapping@[i]),
    {
        let mut wrapping: Vec<WrappingType> = Vec::new();
        let mut index: usize = 0;
        while index < ty.wrapping.len()
            invariant
                index <= ty.wrapping@.len(),
                wrapping@.len() == index,
                forall|i: int| 0 <= i < index ==> #[trigger] wrapping@[i] == WrappingType::of(ty.wrapping@[i]),
            decreases ty.wrapping@.len() - index,
        {
            wrapping.push(WrappingType::from(ty.wrapping[index]));
            index += 1;
        }
        Ty { wrapping, definition_id: ty.definition_id }
    }
}

impl vstd::std_specs::convert::FromSpecImpl<&SchemaType> for Ty {
    open spec fn obeys_from_spec() -> bool {
        false
    }

    open spec fn from_spec(ty: &SchemaType) -> Ty {
        arbitrary()
    }
}

impl Ty {
    /// Whether a value of the type may be null: its outermost wrapping is
    /// not `NonNull`.
    pub fn is_nullable(&self) -> (nullable: bool)
        ensures
            nullable == (self.wrapping@.len() == 0 || self.wrapping@[0] != WrappingType::NonNull),
    {
        if self.wrapping.len() == 0 {
            true
        } else {
            match self.wrapping[0] {
                WrappingType::NonNull => false,
                WrappingType::List => true,
            }
        }
    }
}

} // verus!
