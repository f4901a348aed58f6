//! The types of a federated graph.

use vstd::prelude::*;

verus! {

/// The id of a string of the federated graph.
#[derive(Clone, Copy, Debug, PartialEq, Eq, Structural)]
pub struct StringId(pub u32);

/// The id of a subgraph.
#[derive(Clone, Copy, Debug, PartialEq, Eq, Structural)]
pub struct SubgraphId(pub u32);

/// The id of a scalar definition.
#[derive(Clone, Copy, Debug, PartialEq, Eq, Structural)]
pub struct ScalarDefinitionId(pub u32);

/// The id of a type definition.
#[derive(Clone, Copy, Debug, PartialEq, Eq, Structural)]
pub struct TypeDefinitionId(pub u32);

/// The id of an object.
#[derive(Clone, Copy, Debug, PartialEq, Eq, Structural)]
pub struct ObjectId(pub u32);

/// The id of an interface.
#[derive(Clone, Copy, Debug, PartialEq, Eq, Structural)]
pub struct InterfaceId(pub u32);

/// The id of a union.
#[derive(Clone, Copy, Debug, PartialEq, Eq, Structural)]
pub struct UnionId(pub u32);

/// The id of an enum.
#[derive(Clone, Copy, Debug, PartialEq, Eq, Structural)]
pub struct EnumId(pub u32);

/// The id of an enum definition.
#[derive(Clone, Copy, Debug, PartialEq, Eq, Structural)]
pub struct EnumDefinitionId(pub u32);

/// The id of an input object.
#[derive(Clone, Copy, Debug, PartialEq, Eq, Structural)]
pub struct InputObjectId(pub u32);

/// The id of a field.
#[derive(Clone, Copy, Debug, PartialEq, Eq, Structural)]
pub struct FieldId(pub u32);

/// The id of an input value definition.
#[derive(Clone, Copy, Debug, PartialEq, Eq, Structural)]
pub struct InputValueDefinitionId(pub u32);

/// The id of an enum value.
#[derive(Clone, Copy, Debug, PartialEq, Eq, Structural)]
pub struct EnumValueId(pub u32);

/// How a type wraps its definition: whether the innermost type is
/// required, and the lists around it from the inside out, each required or
/// not.
#[derive(Clone, Debug, PartialEq, Eq)]
pub struct Wrapping {
    pub inner_is_required: bool,
    pub list_wrappings: Vec<bool>,
}

/// A type: a definition and its wrapping.
#[derive(Clone, PartialEq, Eq)]
pub struct Type {
    pub wrapping: Wrapping,
    pub definition: Definition,
}

/// What a type refers to.
#[derive(Clone, Copy, Debug, PartialEq, Eq, Structural)]
pub enum Definition {
    Scalar(TypeDefinitionId),
    Object(ObjectId),
    Interface(InterfaceId),
    Union(UnionId),
    Enum(EnumId),
    InputObject(InputObjectId),
}

/// A subgraph of the federated graph.
pub struct Subgraph {
    pub name: StringId,
}

/// The part of the federated graph that names its subgraphs.
pub struct FederatedGraph {
    pub strings: Vec<String>,
    pub subgraphs: Vec<Subgraph>,
}

impl Definition {
    /// The id of the enum, if the definition is one.
    pub fn as_enum(&self) -> (id: Option<EnumId>)
        ensures
            id == match *self {
                Definition::Enum(v) => Some(v),
                _ => None,
            },
    {
        if let Definition::Enum(v) = self {
            Some(*v)
        } else {
            None
        }
    }
}

impl FederatedGraph {
    /// Every subgraph's name is a string of the graph.
    pub open spec fn wf(&self) -> bool {
        forall|i: int| 0 <= i < self.subgraphs@.len() ==> (#[trigger] self.subgraphs@[i]).name.0 < self.strings@.len()
    }

    /// The name of the subgraph `id`.
    pub open spec fn subgraph_name(&self, id: SubgraphId) -> Seq<char> {
        self.strings@[self.subgraphs@[id.0 as int].name.0 as int]@
    }
}

} // verus!
