//! Where in the schema a build error arose.

use vstd::prelude::*;
use vstd::string::*;
use crate::federated_graph;
use crate::federated_graph::FederatedGraph;
use crate::schema::enum_value::EnumValueId;
use crate::schema::StringId;

verus! {

/// The id of a scalar definition.
#[derive(Clone, Copy, Debug, PartialEq, Eq, Structural)]
pub struct ScalarDefinitionId(pub u32);

/// The id of an object definition.
#[derive(Clone, Copy, Debug, PartialEq, Eq, Structural)]
pub struct ObjectDefinitionId(pub u32);

/// The id of an interface definition.
#[derive(Clone, Copy, Debug, PartialEq, Eq, Structural)]
pub struct InterfaceDefinitionId(pub u32);

/// The id of a union definition.
#[derive(Clone, Copy, Debug, PartialEq, Eq, Structural)]
pub struct UnionDefinitionId(pub u32);

/// The id of an enum definition.
#[derive(Clone, Copy, Debug, PartialEq, Eq, Structural)]
pub struct EnumDefinitionId(pub u32);

/// The id of an input object definition.
#[derive(Clone, Copy, Debug, PartialEq, Eq, Structural)]
pub struct InputObjectDefinitionId(pub u32);

/// The id of a field definition.
#[derive(Clone, Copy, Debug, PartialEq, Eq, Structural)]
pub struct FieldDefinitionId(pub u32);

/// The id of an input value definition.
#[derive(Clone, Copy, Debug, PartialEq, Eq, Structural)]
pub struct InputValueDefinitionId(pub u32);

/// The object or interface that a field belongs to.
#[derive(Clone, Copy, Debug, PartialEq, Eq, Structural)]
pub enum EntityDefinitionId {
    Interface(InterfaceDefinitionId),
    Object(ObjectDefinitionId),
}

/// A definition that has nothing but a name.
pub struct NamedRecord {
    pub name_id: StringId,
}

/// A field: its name and the entity it belongs to.
pub struct FieldDefinitionRecord {
    pub name_id: StringId,
    pub parent_entity_id: EntityDefinitionId,
}

/// The definitions of the schema under construction.
pub struct Graph {
    pub scalar_definitions: Vec<NamedRecord>,
    pub object_definitions: Vec<NamedRecord>,
    pub interface_definitions: Vec<NamedRecord>,
    pub union_definitions: Vec<NamedRecord>,
    pub enum_definitions: Vec<NamedRecord>,
    pub input_object_definitions: Vec<NamedRecord>,
    pub field_definitions: Vec<FieldDefinitionRecord>,
    pub input_value_definitions: Vec<NamedRecord>,
    pub enum_values: Vec<NamedRecord>,
}

/// The strings and the federated graph that the schema is built from.
pub struct BuildContext {
    pub strings: Vec<String>,
    pub federated_graph: FederatedGraph,
}

/// The state of a schema build.
pub struct GraphContext<'a> {
    pub ctx: &'a BuildContext,
    pub graph: &'a Graph,
}

/// A place in the schema: a definition, by its id in the schema and in the
/// federated graph, or the schema directive of a subgraph.
#[derive(Debug, Copy, Clone)]
pub enum SchemaLocation {
    SchemaDirective(federated_graph::SubgraphId),
    Scalar(ScalarDefinitionId, federated_graph::ScalarDefinitionId),
    Object(ObjectDefinitionId, federated_graph::ObjectId),
    Interface(InterfaceDefinitionId, federated_graph::InterfaceId),
    Union(UnionDefinitionId, federated_graph::UnionId),
    Enum(EnumDefinitionId, federated_graph::EnumDefinitionId),
    InputObject(InputObjectDefinitionId, federated_graph::InputObjectId),
    Field(FieldDefinitionId, federated_graph::FieldId),
    InputValue(InputValueDefinitionId, federated_graph::InputValueDefinitionId),
    EnumValue(EnumValueId, federated_graph::EnumValueId),
}

/// Whether the names of `records` are strings of the build.
pub open spec fn names_resolve(records: Seq<NamedRecord>, strings: Seq<String>) -> bool {
    forall|i: int| 0 <= i < records.len() ==> (#[trigger] records[i]).name_id.0 < strings.len()
}

/// The name of record `index` of `records`.
pub open spec fn name_of(records: Seq<NamedRecord>, index: u32, strings: Seq<String>) -> Seq<char> {
    strings[records[index as int].name_id.0 as int]@
}

impl<'a> GraphContext<'a> {
    /// Every name and every parent that a definition holds resolves.
    pub open spec fn wf(&self) -> bool {
        let strings = self.ctx.strings@;
        &&& self.ctx.federated_graph.wf()
        &&& names_resolve(self.graph.scalar_definitions@, strings)
        &&& names_resolve(self.graph.object_definitions@, strings)
        &&& names_resolve(self.graph.interface_definitions@, strings)
        &&& names_resolve(self.graph.union_definitions@, strings)
        &&& names_resolve(self.graph.enum_definitions@, strings)
        &&& names_resolve(self.graph.input_object_definitions@, strings)
        &&& names_resolve(self.graph.input_value_definitions@, strings)
        &&& names_resolve(self.graph.enum_values@, strings)
        &&& forall|i: int|
            0 <= i < self.graph.field_definitions@.len() ==> {
                &&& (#[trigger] self.graph.field_definitions@[i]).name_id.0 < strings.len()
                &&& match self.graph.field_definitions@[i].parent_entity_id {
                    EntityDefinitionId::Interface(id) => id.0 < self.graph.interface_definitions@.len(),
                    EntityDefinitionId::Object(id) => id.0 < self.graph.object_definitions@.len(),
                }
            }
    }

    /// The name of the entity `id`.
    pub open spec fn entity_name(&self, id: EntityDefinitionId) -> Seq<char> {
        match id {
            EntityDefinitionId::Interface(id) => name_of(self.graph.interface_definitions@, id.0, self.ctx.strings@),
            EntityDefinitionId::Object(id) => name_of(self.graph.object_definitions@, id.0, self.ctx.strings@),
        }
    }
}

fn names_resolve_in(records: &Vec<NamedRecord>, strings: &Vec<String>) -> (resolve: bool)
    ensures
        resolve == names_resolve(records@, strings@),
{
    let mut index: usize = 0;
    while index < records.len()
        invariant
            index <= records@.len(),
            forall|i: int| 0 <= i < index ==> (#[trigger] records@[i]).name_id.0 < strings@.len(),
        decreases records@.len() - index,
    {
        if records[index].name_id.0 as usize >= strings.len() {
            return false;
        }
        index += 1;
    }
    true
}

impl<'a> GraphContext<'a> {
    /// Checks that every name and every parent that a definition holds
    /// resolves.
    pub fn is_well_formed(&self) -> (well_formed: bool)
        ensures
            well_formed == self.wf(),
    {
        let strings = &self.ctx.strings;
        let graph = self.graph;
        let federated = &self.ctx.federated_graph;
        let mut index: usize = 0;
        while index < federated.subgraphs.len()
            invariant
                index <= federated.subgraphs@.len(),
                federated == &self.ctx.federated_graph,
                forall|i: int|
                    0 <= i < index ==> (#[trigger] federated.subgraphs@[i]).name.0 < federated.strings@.len(),
            decreases federated.subgraphs@.len() - index,
        {
            if federated.subgraphs[index].name.0 as usize >= federated.strings.len() {
                return false;
            }
            index += 1;
        }
        if !(names_resolve_in(&graph.scalar_definitions, strings) && names_resolve_in(
            &graph.object_definitions,
            strings,
        ) && names_resolve_in(&graph.interface_definitions, strings) && names_resolve_in(
            &graph.union_definitions,
            strings,
        ) && names_resolve_in(&graph.enum_definitions, strings) && names_resolve_in(
            &graph.input_object_definitions,
            strings,
        ) && names_resolve_in(&graph.input_value_definitions, strings) && names_resolve_in(
            &graph.enum_values,
            strings,
        )) {
            return false;
        }
        let mut index: usize = 0;
        while index < graph.field_definitions.len()
            invariant
                index <= graph.field_definitions@.len(),
                graph == self.graph,
                strings == &self.ctx.strings,
                forall|i: int|
                    0 <= i < index ==> {
                        &&& (#[trigger] graph.field_definitions@[i]).name_id.0 < strings@.len()
                        &&& match graph.field_definitions@[i].parent_entity_id {
                            EntityDefinitionId::Interface(id) => id.0 < graph.interface_definitions@.len(),
                            EntityDefinitionId::Object(id) => id.0 < graph.object_definitions@.len(),
                        }
                    },
            decreases graph.field_definitions@.len() - index,
        {
            let field = &graph.field_definitions[index];
            if field.name_id.0 as usize >= strings.len() {
                return false;
            }
            let parent_resolves = match field.parent_entity_id {
                EntityDefinitionId::Interface(id) => (id.0 as usize) < graph.interface_definitions.len(),
                EntityDefinitionId::Object(id) => (id.0 as usize) < graph.object_definitions.len(),
            };
            if !parent_resolves {
                return false;
            }
            index += 1;
        }
        true
    }
}

impl SchemaLocation {
    /// Checks that the location names a definition of `context`.
    pub fn is_within(self, context: &GraphContext<'_>) -> (within: bool)
        ensures
            within == self.within(context),
    {
        let graph = context.graph;
        match self {
            SchemaLocation::SchemaDirective(id) => (id.0 as usize) < context.ctx.federated_graph.subgraphs.len(),
            SchemaLocation::Scalar(id, _) => (id.0 as usize) < graph.scalar_definitions.len(),
            SchemaLocation::Object(id, _) => (id.0 as usize) < graph.object_definitions.len(),
            SchemaLocation::Interface(id, _) => (id.0 as usize) < graph.interface_definitions.len(),
            SchemaLocation::Union(id, _) => (id.0 as usize) < graph.union_definitions.len(),
            SchemaLocation::Enum(id, _) => (id.0 as usize) < graph.enum_definitions.len(),
            SchemaLocation::InputObject(id, _) => (id.0 as usize) < graph.input_object_definitions.len(),
            SchemaLocation::Field(id, _) => (id.0 as usize) < graph.field_definitions.len(),
            SchemaLocation::InputValue(id, _) => (id.0 as usize) < graph.input_value_definitions.len(),
            SchemaLocation::EnumValue(id, _) => (id.0 as usize) < graph.enum_values.len(),
        }
    }

    /// Whether the location names a definition of `context`.
    pub open spec fn within(self, context: &GraphContext<'_>) -> bool {
        match self {
            SchemaLocation::SchemaDirective(id) => id.0 < context.ctx.federated_graph.subgraphs@.len(),
            SchemaLocation::Scalar(id, _) => id.0 < context.graph.scalar_definitions@.len(),
            SchemaLocation::Object(id, _) => id.0 < context.graph.object_definitions@.len(),
            SchemaLocation::Interface(id, _) => id.0 < context.graph.interface_definitions@.len(),
            SchemaLocation::Union(id, _) => id.0 < context.graph.union_definitions@.len(),
            SchemaLocation::Enum(id, _) => id.0 < context.graph.enum_definitions@.len(),
            SchemaLocation::InputObject(id, _) => id.0 < context.graph.input_object_definitions@.len(),
            SchemaLocation::Field(id, _) => id.0 < context.graph.field_definitions@.len(),
            SchemaLocation::InputValue(id, _) => id.0 < context.graph.input_value_definitions@.len(),
            SchemaLocation::EnumValue(id, _) => id.0 < context.graph.enum_values@.len(),
        }
    }

    /// The location as an error message names it: the name of the
    /// definition, a field as `Parent.field`, and a schema directive by the
    /// subgraph it stands in.
    pub open spec fn text(self, context: &GraphContext<'_>) -> Seq<char> {
        let strings = context.ctx.strings@;
        match self {
            SchemaLocation::SchemaDirective(id) => "subgraph named '"@ + context.ctx.federated_graph.subgraph_name(id)
                + "'"@,
            SchemaLocation::Scalar(id, _) => name_of(context.graph.scalar_definitions@, id.0, strings),
            SchemaLocation::Object(id, _) => name_of(context.graph.object_definitions@, id.0, strings),
            SchemaLocation::Interface(id, _) => name_of(context.graph.interface_definitions@, id.0, strings),
            SchemaLocation::Union(id, _) => name_of(context.graph.union_definitions@, id.0, strings),
            SchemaLocation::Enum(id, _) => name_of(context.graph.enum_definitions@, id.0, strings),
            SchemaLocation::InputObject(id, _) => name_of(context.graph.input_object_definitions@, id.0, strings),
            SchemaLocation::Field(id, _) => {
                let field = context.graph.field_definitions@[id.0 as int];
                context.entity_name(field.parent_entity_id) + "."@ + strings[field.name_id.0 as int]@
            },
            SchemaLocation::InputValue(id, _) => name_of(context.graph.input_value_definitions@, id.0, strings),
            SchemaLocation::EnumValue(id, _) => name_of(context.graph.enum_values@, id.0, strings),
        }
    }

    /// The location as an error message names it.
    pub fn to_string(self, context: &GraphContext<'_>) -> (text: String)
        requires
            context.wf(),
            self.within(context),
        ensures
            text@ == self.text(context),
    {
        let ctx = context.ctx;
        let graph = context.graph;
        match self {
            SchemaLocation::Enum(id, _) => name(&graph.enum_definitions, id.0, &ctx.strings),
            SchemaLocation::InputObject(id, _) => name(&graph.input_object_definitions, id.0, &ctx.strings),
            SchemaLocation::Interface(id, _) => name(&graph.interface_definitions, id.0, &ctx.strings),
            SchemaLocation::Object(id, _) => name(&graph.object_definitions, id.0, &ctx.strings),
            SchemaLocation::Scalar(id, _) => name(&graph.scalar_definitions, id.0, &ctx.strings),
            SchemaLocation::Union(id, _) => name(&graph.union_definitions, id.0, &ctx.strings),
            SchemaLocation::Field(id, _) => {
                let field = &graph.field_definitions[id.0 as usize];
                let mut text = match field.parent_entity_id {
                    EntityDefinitionId::Interface(id) => name(&graph.interface_definitions, id.0, &ctx.strings),
                    EntityDefinitionId::Object(id) => name(&graph.object_definitions, id.0, &ctx.strings),
                };
                text.append(".");
                text.append(ctx.strings[field.name_id.0 as usize].as_str());
                text
            },
            SchemaLocation::EnumValue(id, _) => name(&graph.enum_values, id.0, &ctx.strings),
            SchemaLocation::InputValue(id, _) => name(&graph.input_value_definitions, id.0, &ctx.strings),
            SchemaLocation::SchemaDirective(id) => {
                let subgraph = &ctx.federated_graph.subgraphs[id.0 as usize];
                let mut text = String::from_str("subgraph named '");
                text.append(ctx.federated_graph.strings[subgraph.name.0 as usize].as_str());
                text.append("'");
                text
            },
        }
    }
}

/// The name of record `index` of `records`.
fn name(records: &Vec<NamedRecord>, index: u32, strings: &Vec<String>) -> (text: String)
    requires
        index < records@.len(),
        names_resolve(records@, strings@),
    ensures
        text@ == name_of(records@, index, strings@),
{
    strings[records[index as usize].name_id.0 as usize].clone()
}

/// Why a schema could not be built.
#[derive(Debug)]
pub enum BuildError {
    InvalidUrl { url: String, err: String },
    ExtensionDirectiveArgumentsError { location: String, extension_id: String, err: String },
    RequiredFieldArgumentCoercionError { location: String, err: String },
    DefaultValueCoercionError { name: String, err: String },
    GraphFromSdlError(String),
    UnsupportedExtension { id: String },
    CouldNotLoadExtension { url: String, err: String },
    CouldNotParseExtension { id: String, err: String },
    MissingGraphQLDefinitions { id: String, directive: String },
    UnknownExtensionDirective { id: String, directive: String },
    UnknownExtensionDirectiveArgument { id: String, directive: String, argument: String },
}

impl BuildError {
    /// The message of the error.
    pub open spec fn spec_message(self) -> Seq<char> {
        match self {
            BuildError::InvalidUrl { url, err } => "Invalid URL '"@ + url@ + "': "@ + err@,
            BuildError::ExtensionDirectiveArgumentsError { location, extension_id, err } => "At "@ + location@
                + " for the extension '"@ + extension_id@ + "': "@ + err@,
            BuildError::RequiredFieldArgumentCoercionError { location, err } => "At "@ + location@
                + ", a required field argument is invalid: "@ + err@,
            BuildError::DefaultValueCoercionError { name, err } => "An input value named '"@ + name@
                + "' has an invalid default value: "@ + err@,
            BuildError::GraphFromSdlError(err) => err@,
            BuildError::UnsupportedExtension { id } => "Unsupported extension: "@ + id@,
            BuildError::CouldNotLoadExtension { url, err } => "Could not load extension at '"@ + url@ + "': "@
                + err@,
            BuildError::CouldNotParseExtension { id, err } => "Could not parse extension '"@ + id@
                + "' GraphQL definitions: "@ + err@,
            BuildError::MissingGraphQLDefinitions { id, directive } => "Extension '"@ + id@
                + "' does not define any GraphQL definitions, but a directive '"@ + directive@ + "' was found"@,
            BuildError::UnknownExtensionDirective { id, directive } => "Unknown extension directive '"@ + directive@
                + "' for extension '"@ + id@ + "'"@,
            BuildError::UnknownExtensionDirectiveArgument { id, directive, argument } => "Unknown argument '"@
                + argument@ + "' for extension directive '"@ + directive@ + "' from '"@ + id@ + "'"@,
        }
    }

    /// The message of the error.
    pub fn message(&self) -> (text: String)
        ensures
            text@ == self.spec_message(),
    {
        match self {
            BuildError::InvalidUrl { url, err } => {
                let mut text = String::from_str("Invalid URL '");
                text.append(url.as_str());
                text.append("': ");
                text.append(err.as_str());
                text
            },
            BuildError::ExtensionDirectiveArgumentsError { location, extension_id, err } => {
                let mut text = String::from_str("At ");
                text.append(location.as_str());
                text.append(" for the extension '");
                text.append(extension_id.as_str());
                text.append("': ");
                text.append(err.as_str());
                text
            },
            BuildError::RequiredFieldArgumentCoercionError { location, err } => {
                let mut text = String::from_str("At ");
                text.append(location.as_str());
                text.append(", a required field argument is invalid: ");
                text.append(err.as_str());
                text
            },
            BuildError::DefaultValueCoercionError { name, err } => {
                let mut text = String::from_str("An input value named '");
                text.append(name.as_str());
                text.append("' has an invalid default value: ");
                text.append(err.as_str());
                text
            },
            BuildError::GraphFromSdlError(err) => err.clone(),
            BuildError::UnsupportedExtension { id } => {
                let mut text = String::from_str("Unsupported extension: ");
                text.append(id.as_str());
                text
            },
            BuildError::CouldNotLoadExtension { url, err } => {
                let mut text = String::from_str("Could not load extension at '");
                text.append(url.as_str());
                text.append("': ");
                text.append(err.as_str());
                text
            },
            BuildError::CouldNotParseExtension { id, err } => {
                let mut text = String::from_str("Could not parse extension '");
                text.append(id.as_str());
                text.append("' GraphQL definitions: ");
                text.append(err.as_str());
                text
            },
            BuildError::MissingGraphQLDefinitions { id, directive } => {
                let mut text = String::from_str("Extension '");
                text.append(id.as_str());
                text.append("' does not define any GraphQL definitions, but a directive '");
                text.append(directive.as_str());
                text.append("' was found");
                text
            },
            BuildError::UnknownExtensionDirective { id, directive } => {
                let mut text = String::from_str("Unknown extension directive '");
                text.append(directive.as_str());
                text.append("' for extension '");
                text.append(id.as_str());
                text.append("'");
                text
            },
            BuildError::UnknownExtensionDirectiveArgument { id, directive, argument } => {
                let mut text = String::from_str("Unknown argument '");
                text.append(argument.as_str());
                text.append("' for extension directive '");
                text.append(directive.as_str());
                text.append("' from '");
                text.append(id.as_str());
                text.append("'");
                text
            },
        }
    }
}

} // verus!
