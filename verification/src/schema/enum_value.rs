//! The values of enums.

use vstd::prelude::*;
use crate::schema::{EnumDefinition, EnumDefinitionId, Schema, StringId, TypeSystemDirectiveId};

verus! {

/// One value of an enum: its name, its description if it has one, the enum
/// it belongs to and the directives on it.
#[derive(Debug)]
pub struct EnumValueRecord {
    pub name_id: StringId,
    pub description_id: Option<StringId>,
    pub parent_enum_id: EnumDefinitionId,
    pub directive_ids: Vec<TypeSystemDirectiveId>,
}

/// The id of an enum value.
#[derive(Clone, Copy, Debug, PartialEq, Eq, Structural)]
pub struct EnumValueId(pub u32);

/// An enum value within its schema.
#[derive(Clone, Copy)]
pub struct EnumValue<'a> {
    pub schema: &'a Schema,
    pub id: EnumValueId,
}

impl<'a> EnumValue<'a> {
    /// The walker stands on a record of a well-formed schema.
    pub open spec fn wf(&self) -> bool {
        self.schema.wf() && self.id.0 < self.schema.enum_values@.len()
    }

    /// The record that the walker stands on.
    pub open spec fn record(&self) -> EnumValueRecord {
        self.schema.enum_values@[self.id.0 as int]
    }

    /// The record of the value.
    pub fn as_ref(&self) -> (record: &'a EnumValueRecord)
        requires
            self.wf(),
        ensures
            *record == self.record(),
    {
        &self.schema.enum_values[self.id.0 as usize]
    }

    /// The name of the value.
    pub fn name(&self) -> (name: &'a str)
        requires
            self.wf(),
        ensures
            name@ == self.schema.strings@[self.record().name_id.0 as int]@,
    {
        self.schema.string(self.as_ref().name_id)
    }

    /// The description of the value, if it has one.
    pub fn description(&self) -> (description: Option<&'a str>)
        requires
            self.wf(),
        ensures
            match self.record().description_id {
                Some(id) => description matches Some(text) && text@ == self.schema.strings@[id.0 as int]@,
                None => description is None,
            },
    {
        match self.as_ref().description_id {
            Some(id) => Some(self.schema.string(id)),
            None => None,
        }
    }

    /// The enum that the value belongs to.
    pub fn parent_enum(&self) -> (parent: EnumDefinition<'a>)
        requires
            self.wf(),
        ensures
            parent.wf(),
            parent.schema == self.schema,
            parent.id == self.record().parent_enum_id,
    {
        EnumDefinition { schema: self.schema, id: self.as_ref().parent_enum_id }
    }

    /// The ids of the directives on the value.
    pub fn directives(&self) -> (directives: &'a Vec<TypeSystemDirectiveId>)
        requires
            self.wf(),
        ensures
            *directives == self.record().directive_ids,
    {
        &self.as_ref().directive_ids
    }
}

impl EnumValueId {
    /// The walker for this id in `schema`.
    pub fn walk<'a>(self, schema: &'a Schema) -> (walker: EnumValue<'a>)
        ensures
            walker.schema == schema,
            walker.id == self,
    {
        EnumValue { schema, id: self }
    }
}

} // verus!
