//! The gateway's schema: records in vectors, found by typed ids, and read
//! through walkers that pair an id with the schema.

pub mod argument;
pub mod enum_value;
pub mod error;
pub mod link_directive;
pub mod provides;
pub mod retry;

use vstd::prelude::*;
use crate::schema::argument::{ExtensionDirectiveArgumentRecord, ExtensionDirectiveRecord};
use crate::schema::enum_value::EnumValueRecord;

verus! {

/// The id of an interned string.
#[derive(Clone, Copy, Debug, PartialEq, Eq, Structural)]
pub struct StringId(pub u32);

/// The id of an enum definition.
#[derive(Clone, Copy, Debug, PartialEq, Eq, Structural)]
pub struct EnumDefinitionId(pub u32);

/// The id of a type system directive.
#[derive(Clone, Copy, Debug, PartialEq, Eq, Structural)]
pub struct TypeSystemDirectiveId(pub u32);

/// The id of a subgraph.
#[derive(Clone, Copy, Debug, PartialEq, Eq, Structural)]
pub struct SubgraphId(pub u32);

/// A subgraph: its name.
pub struct SubgraphRecord {
    pub name_id: StringId,
}

/// A subgraph within its schema.
#[derive(Clone, Copy)]
pub struct Subgraph<'a> {
    pub schema: &'a Schema,
    pub id: SubgraphId,
}

/// An enum definition.
pub struct EnumDefinitionRecord {
    pub name_id: StringId,
    pub description_id: Option<StringId>,
}

/// The schema. Ids index its vectors.
pub struct Schema {
    pub strings: Vec<String>,
    pub enum_definitions: Vec<EnumDefinitionRecord>,
    pub enum_values: Vec<EnumValueRecord>,
    pub extension_directives: Vec<ExtensionDirectiveRecord>,
    pub extension_directive_arguments: Vec<ExtensionDirectiveArgumentRecord>,
    pub subgraphs: Vec<SubgraphRecord>,
}

/// An enum definition within its schema.
#[derive(Clone, Copy)]
pub struct EnumDefinition<'a> {
    pub schema: &'a Schema,
    pub id: EnumDefinitionId,
}

impl Schema {
    /// Whether `id` names a string of the schema.
    pub open spec fn has_string(&self, id: StringId) -> bool {
        id.0 < self.strings@.len()
    }

    /// Every id that a record holds names a record of the schema.
    pub open spec fn wf(&self) -> bool {
        &&& forall|i: int|
            0 <= i < self.enum_definitions@.len() ==> {
                &&& self.has_string((#[trigger] self.enum_definitions@[i]).name_id)
                &&& self.enum_definitions@[i].description_id matches Some(id) ==> self.has_string(id)
            }
        &&& forall|i: int|
            0 <= i < self.enum_values@.len() ==> {
                &&& self.has_string((#[trigger] self.enum_values@[i]).name_id)
                &&& self.enum_values@[i].description_id matches Some(id) ==> self.has_string(id)
                &&& self.enum_values@[i].parent_enum_id.0 < self.enum_definitions@.len()
            }
        &&& forall|i: int|
            0 <= i < self.extension_directives@.len() ==> {
                &&& (#[trigger] self.extension_directives@[i]).argument_ids.start.0
                    <= self.extension_directives@[i].argument_ids.end.0
                &&& self.extension_directives@[i].argument_ids.end.0 <= self.extension_directive_arguments@.len()
            }
        &&& forall|i: int|
            0 <= i < self.extension_directive_arguments@.len() ==> self.has_string(
                (#[trigger] self.extension_directive_arguments@[i]).name_id,
            )
        &&& forall|i: int| 0 <= i < self.subgraphs@.len() ==> self.has_string((#[trigger] self.subgraphs@[i]).name_id)
    }

    /// Checks that every id that a record holds names a record of the
    /// schema.
    pub fn is_well_formed(&self) -> (well_formed: bool)
        ensures
            well_formed == self.wf(),
    {
        let strings = self.strings.len();
        let mut index: usize = 0;
        while index < self.enum_definitions.len()
            invariant
                index <= self.enum_definitions@.len(),
                strings == self.strings@.len(),
                forall|i: int|
                    0 <= i < index ==> {
                        &&& self.has_string((#[trigger] self.enum_definitions@[i]).name_id)
                        &&& self.enum_definitions@[i].description_id matches Some(id) ==> self.has_string(id)
                    },
            decreases self.enum_definitions@.len() - index,
        {
            let record = &self.enum_definitions[index];
            if record.name_id.0 as usize >= strings {
                return false;
            }
            match record.description_id {
                Some(id) => {
                    if id.0 as usize >= strings {
                        return false;
                    }
                },
                None => {},
            }
            index += 1;
        }
        let mut index: usize = 0;
        while index < self.enum_values.len()
            invariant
                index <= self.enum_values@.len(),
                strings == self.strings@.len(),
                forall|i: int|
                    0 <= i < index ==> {
                        &&& self.has_string((#[trigger] self.enum_values@[i]).name_id)
                        &&& self.enum_values@[i].description_id matches Some(id) ==> self.has_string(id)
                        &&& self.enum_values@[i].parent_enum_id.0 < self.enum_definitions@.len()
                    },
            decreases self.enum_values@.len() - index,
        {
            let record = &self.enum_values[index];
            if record.name_id.0 as usize >= strings {
                return false;
            }
            match record.description_id {
                Some(id) => {
                    if id.0 as usize >= strings {
                        return false;
                    }
                },
                None => {},
            }
            if record.parent_enum_id.0 as usize >= self.enum_definitions.len() {
                return false;
            }
            index += 1;
        }
        let mut index: usize = 0;
        while index < self.extension_directives.len()
            invariant
                index <= self.extension_directives@.len(),
                forall|i: int|
                    0 <= i < index ==> {
                        &&& (#[trigger] self.extension_directives@[i]).argument_ids.start.0
                            <= self.extension_directives@[i].argument_ids.end.0
                        &&& self.extension_directives@[i].argument_ids.end.0
                            <= self.extension_directive_arguments@.len()
                    },
            decreases self.extension_directives@.len() - index,
        {
            let range = self.extension_directives[index].argument_ids;
            if range.start.0 > range.end.0 || range.end.0 as usize > self.extension_directive_arguments.len() {
                return false;
            }
            index += 1;
        }
        let mut index: usize = 0;
        while index < self.extension_directive_arguments.len()
            invariant
                index <= self.extension_directive_arguments@.len(),
                strings == self.strings@.len(),
                forall|i: int|
                    0 <= i < index ==> self.has_string((#[trigger] self.extension_directive_arguments@[i]).name_id),
            decreases self.extension_directive_arguments@.len() - index,
        {
            if self.extension_directive_arguments[index].name_id.0 as usize >= strings {
                return false;
            }
            index += 1;
        }
        let mut index: usize = 0;
        while index < self.subgraphs.len()
            invariant
                index <= self.subgraphs@.len(),
                strings == self.strings@.len(),
                forall|i: int| 0 <= i < index ==> self.has_string((#[trigger] self.subgraphs@[i]).name_id),
            decreases self.subgraphs@.len() - index,
        {
            if self.subgraphs[index].name_id.0 as usize >= strings {
                return false;
            }
            index += 1;
        }
        true
    }

    /// The string that `id` names.
    pub fn string(&self, id: StringId) -> (text: &str)
        requires
            self.has_string(id),
        ensures
            text@ == self.strings@[id.0 as int]@,
    {
        self.strings[id.0 as usize].as_str()
    }
}

impl<'a> Subgraph<'a> {
    /// The walker stands on a record of a well-formed schema.
    pub open spec fn wf(&self) -> bool {
        self.schema.wf() && self.id.0 < self.schema.subgraphs@.len()
    }

    /// The name of the subgraph.
    pub fn name(&self) -> (name: &'a str)
        requires
            self.wf(),
        ensures
            name@ == self.schema.strings@[self.schema.subgraphs@[self.id.0 as int].name_id.0 as int]@,
    {
        self.schema.string(self.schema.subgraphs[self.id.0 as usize].name_id)
    }
}

impl<'a> EnumDefinition<'a> {
    /// The walker stands on a record of a well-formed schema.
    pub open spec fn wf(&self) -> bool {
        self.schema.wf() && self.id.0 < self.schema.enum_definitions@.len()
    }

    /// The record of the definition.
    pub fn as_ref(&self) -> (record: &'a EnumDefinitionRecord)
        requires
            self.wf(),
        ensures
            *record == self.schema.enum_definitions@[self.id.0 as int],
    {
        &self.schema.enum_definitions[self.id.0 as usize]
    }

    /// The name of the enum.
    pub fn name(&self) -> (name: &'a str)
        requires
            self.wf(),
        ensures
            name@ == self.schema.strings@[self.schema.enum_definitions@[self.id.0 as int].name_id.0 as int]@,
    {
        self.schema.string(self.as_ref().name_id)
    }
}

} // verus!
