//! What a field provides to a subgraph.

use vstd::prelude::*;
use crate::schema::{Schema, Subgraph, SubgraphId};

verus! {

/// The fields that a subgraph can provide, by id.
pub struct ProvidableFieldSet {
    pub field_ids: Vec<u32>,
}

/// The fields that a field provides when it is resolved by a subgraph.
pub struct FieldProvidesRecord {
    pub subgraph_id: SubgraphId,
    pub field_set: ProvidableFieldSet,
}

/// A record of provided fields within its schema.
#[derive(Clone, Copy)]
pub struct FieldProvides<'a> {
    pub schema: &'a Schema,
    pub ref_: &'a FieldProvidesRecord,
}

impl<'a> FieldProvides<'a> {
    /// The record names a subgraph of a well-formed schema.
    pub open spec fn wf(&self) -> bool {
        self.schema.wf() && self.ref_.subgraph_id.0 < self.schema.subgraphs@.len()
    }

    /// The record.
    pub fn as_ref(&self) -> (record: &'a FieldProvidesRecord)
        ensures
            record == self.ref_,
    {
        self.ref_
    }

    /// The subgraph that the fields are provided to.
    pub fn subgraph(&self) -> (subgraph: Subgraph<'a>)
        requires
            self.wf(),
        ensures
            subgraph.wf(),
            subgraph.schema == self.schema,
            subgraph.id == self.ref_.subgraph_id,
    {
        Subgraph { schema: self.schema, id: self.as_ref().subgraph_id }
    }
}

impl FieldProvidesRecord {
    /// The reader of this record in `schema`.
    pub fn read<'s>(&'s self, schema: &'s Schema) -> (reader: FieldProvides<'s>)
        ensures
            reader.schema == schema,
            reader.ref_ == self,
    {
        FieldProvides { schema, ref_: self }
    }
}

} // verus!
