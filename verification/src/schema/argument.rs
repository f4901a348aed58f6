//! The arguments of extension directives.

use vstd::prelude::*;
use vstd::std_specs::cmp::PartialOrdSpecImpl;
use crate::schema::{Schema, StringId};

verus! {

/// The id of an argument of an extension directive.
#[derive(Clone, Copy, Debug, PartialEq, Eq, Structural)]
pub struct ExtensionDirectiveArgumentId(pub u32);

/// The id of an extension directive.
#[derive(Clone, Copy, Debug, PartialEq, Eq, Structural)]
pub struct ExtensionDirectiveId(pub u32);

/// The arguments from `start` up to `end`.
#[derive(Clone, Copy, Debug)]
pub struct ArgumentIdRange {
    pub start: ExtensionDirectiveArgumentId,
    pub end: ExtensionDirectiveArgumentId,
}

/// An extension directive: its name and the range of its arguments.
pub struct ExtensionDirectiveRecord {
    pub name_id: StringId,
    pub argument_ids: ArgumentIdRange,
}

/// One argument of an extension directive.
#[derive(Debug)]
pub struct ExtensionDirectiveArgumentRecord {
    pub name_id: StringId,
    pub value: ExtensionInputValueRecord,
    pub injection_stage: InjectionStage,
}

/// The value of an argument. A float is held by its bits.
#[derive(Debug)]
pub enum ExtensionInputValueRecord {
    Null,
    String(StringId),
    EnumValue(StringId),
    Int(i32),
    BigInt(i64),
    U64(u64),
    Float(u64),
    Boolean(bool),
    Mapping(Vec<(StringId, ExtensionInputValueRecord)>),
    List(Vec<ExtensionInputValueRecord>),
    FieldSet(u32),
    InputValueSet(u32),
    Template(StringId),
}

/// The earliest stage at which the value of an argument can be computed.
#[derive(Debug, Clone, Copy, PartialEq, Eq, Structural)]
pub enum InjectionStage {
    /// Static data: nothing is injected.
    Static,
    /// Data from the arguments of the field.
    Query,
    /// Data from the response, such as fields.
    Response,
}

/// An extension directive within its schema.
#[derive(Clone, Copy)]
pub struct ExtensionDirective<'a> {
    pub schema: &'a Schema,
    pub id: ExtensionDirectiveId,
}

/// The arguments of a directive as far as they are static.
#[derive(Clone, Copy)]
pub struct ExtensionDirectiveArgumentsStaticView<'a> {
    pub schema: &'a Schema,
    pub ref_: &'a [ExtensionDirectiveArgumentRecord],
}

impl ExtensionInputValueRecord {
    /// Whether the value is static: nothing in it is injected from the
    /// query or the response.
    pub open spec fn is_static_spec(self) -> bool
        decreases self,
    {
        match self {
            ExtensionInputValueRecord::Mapping(entries) => forall|i: int|
                0 <= i < entries@.len() ==> (#[trigger] entries@[i]).1.is_static_spec(),
            ExtensionInputValueRecord::List(items) => forall|i: int|
                0 <= i < items@.len() ==> (#[trigger] items@[i]).is_static_spec(),
            ExtensionInputValueRecord::FieldSet(_) => false,
            ExtensionInputValueRecord::InputValueSet(_) => false,
            ExtensionInputValueRecord::Template(_) => false,
            _ => true,
        }
    }

    /// Whether the value is static. Only a static value can be handed to a
    /// guest as it stands in the schema.
    pub fn is_static(&self) -> (is_static: bool)
        ensures
            is_static == self.is_static_spec(),
        decreases self,
    {
        match self {
            ExtensionInputValueRecord::Mapping(entries) => {
                let mut index: usize = 0;
                while index < entries.len()
                    invariant
                        index <= entries@.len(),
                        *self == ExtensionInputValueRecord::Mapping(*entries),
                        forall|i: int| 0 <= i < index ==> (#[trigger] entries@[i]).1.is_static_spec(),
                    decreases entries@.len() - index,
                {
                    assert(self->Mapping_0 == *entries);
                    assert(decreases_to!(*self => self->Mapping_0));
                    assert(decreases_to!(*entries => entries@));
                    assert(decreases_to!(entries@ => entries@[index as int]));
                    assert(decreases_to!(entries@[index as int] => entries@[index as int].1));
                    if !entries[index].1.is_static() {
                        return false;
                    }
                    index += 1;
                }
                true
            },
            ExtensionInputValueRecord::List(items) => {
                let mut index: usize = 0;
                while index < items.len()
                    invariant
                        index <= items@.len(),
                        *self == ExtensionInputValueRecord::List(*items),
                        forall|i: int| 0 <= i < index ==> (#[trigger] items@[i]).is_static_spec(),
                    decreases items@.len() - index,
                {
                    assert(self->List_0 == *items);
                    assert(decreases_to!(*self => self->List_0));
                    assert(decreases_to!(*items => items@));
                    assert(decreases_to!(items@ => items@[index as int]));
                    if !items[index].is_static() {
                        return false;
                    }
                    index += 1;
                }
                true
            },
            ExtensionInputValueRecord::FieldSet(_) => false,
            ExtensionInputValueRecord::InputValueSet(_) => false,
            ExtensionInputValueRecord::Template(_) => false,
            _ => true,
        }
    }
}

impl InjectionStage {
    /// The position of the stage in the order of a request.
    pub open spec fn rank(self) -> int {
        match self {
            InjectionStage::Static => 0,
            InjectionStage::Query => 1,
            InjectionStage::Response => 2,
        }
    }

    /// The position of the stage in the order of a request.
    pub fn position(self) -> (position: u8)
        ensures
            position == self.rank(),
    {
        match self {
            InjectionStage::Static => 0,
            InjectionStage::Query => 1,
            InjectionStage::Response => 2,
        }
    }

    /// Whether the stage comes strictly before `other`.
    pub fn is_before(self, other: InjectionStage) -> (before: bool)
        ensures
            before == (self.rank() < other.rank()),
    {
        self.position() < other.position()
    }

    /// The later of two stages: data is ready at the later stage of its
    /// parts.
    pub fn latest(self, other: InjectionStage) -> (later: InjectionStage)
        ensures
            later.rank() >= self.rank(),
            later.rank() >= other.rank(),
            later == self || later == other,
    {
        if self.is_before(other) {
            other
        } else {
            self
        }
    }
}

impl Default for InjectionStage {
    fn default() -> (stage: InjectionStage)
        ensures
            stage == InjectionStage::Static,
    {
        InjectionStage::Static
    }
}

impl PartialOrd for InjectionStage {
    fn partial_cmp(&self, other: &Self) -> (order: Option<core::cmp::Ordering>) {
        let left = self.position();
        let right = other.position();
        if left < right {
            Some(core::cmp::Ordering::Less)
        } else if left == right {
            Some(core::cmp::Ordering::Equal)
        } else {
            Some(core::cmp::Ordering::Greater)
        }
    }
}

impl PartialOrdSpecImpl for InjectionStage {
    open spec fn obeys_partial_cmp_spec() -> bool {
        true
    }

    open spec fn partial_cmp_spec(&self, other: &Self) -> Option<core::cmp::Ordering> {
        if self.rank() < other.rank() {
            Some(core::cmp::Ordering::Less)
        } else if self.rank() == other.rank() {
            Some(core::cmp::Ordering::Equal)
        } else {
            Some(core::cmp::Ordering::Greater)
        }
    }
}

/// The stages are totally ordered by their rank, and the rank tells them
/// apart.
pub proof fn lemma_injection_stage_order(a: InjectionStage, b: InjectionStage, c: InjectionStage)
    ensures
        a.rank() == b.rank() <==> a == b,
        a.rank() < b.rank() && b.rank() < c.rank() ==> a.rank() < c.rank(),
        InjectionStage::Static.rank() < InjectionStage::Query.rank(),
        InjectionStage::Query.rank() < InjectionStage::Response.rank(),
{
}

impl<'a> ExtensionDirective<'a> {
    /// The walker stands on a record of a well-formed schema.
    pub open spec fn wf(&self) -> bool {
        self.schema.wf() && self.id.0 < self.schema.extension_directives@.len()
    }

    /// The record that the walker stands on.
    pub open spec fn record(&self) -> ExtensionDirectiveRecord {
        self.schema.extension_directives@[self.id.0 as int]
    }

    /// The arguments of the directive, as the schema holds them.
    pub open spec fn arguments(&self) -> Seq<ExtensionDirectiveArgumentRecord> {
        self.schema.extension_directive_arguments@.subrange(
            self.record().argument_ids.start.0 as int,
            self.record().argument_ids.end.0 as int,
        )
    }

    /// The record of the directive.
    pub fn as_ref(&self) -> (record: &'a ExtensionDirectiveRecord)
        requires
            self.wf(),
        ensures
            *record == self.record(),
    {
        &self.schema.extension_directives[self.id.0 as usize]
    }

    /// The records of the directive's arguments.
    pub fn argument_records(&self) -> (records: &'a [ExtensionDirectiveArgumentRecord])
        requires
            self.wf(),
        ensures
            records@ == self.arguments(),
    {
        let range = self.as_ref().argument_ids;
        let all: &'a [ExtensionDirectiveArgumentRecord] = self.schema.extension_directive_arguments.as_slice();
        vstd::slice::slice_subrange(all, range.start.0 as usize, range.end.0 as usize)
    }

    /// The directive's arguments as far as they are static.
    pub fn static_arguments(&self) -> (arguments: ExtensionDirectiveArgumentsStaticView<'a>)
        requires
            self.wf(),
        ensures
            arguments.schema == self.schema,
            arguments.ref_@ == self.arguments(),
            arguments.wf(),
    {
        ExtensionDirectiveArgumentsStaticView { schema: self.schema, ref_: self.argument_records() }
    }
}

/// The positions in `records` of the static arguments, in ascending order.
pub open spec fn static_positions(records: Seq<ExtensionDirectiveArgumentRecord>) -> Seq<int> {
    Seq::new(records.len(), |i: int| i).filter(|i: int| records[i].injection_stage == InjectionStage::Static)
}

impl<'a> ExtensionDirectiveArgumentsStaticView<'a> {
    /// The name of every argument is a string of the schema.
    pub open spec fn wf(&self) -> bool {
        forall|i: int| 0 <= i < self.ref_@.len() ==> self.schema.has_string((#[trigger] self.ref_@[i]).name_id)
    }

    /// The static arguments, each with its name, in the order of the
    /// directive. Arguments that are injected at a later stage are left out.
    pub fn entries(&self) -> (entries: Vec<(&'a str, &'a ExtensionInputValueRecord)>)
        requires
            self.wf(),
        ensures
            entries@.len() == static_positions(self.ref_@).len(),
            forall|k: int|
                0 <= k < entries@.len() ==> {
                    let i = static_positions(self.ref_@)[k];
                    &&& 0 <= i < self.ref_@.len()
                    &&& (#[trigger] entries@[k]).0@ == self.schema.strings@[self.ref_@[i].name_id.0 as int]@
                    &&& *entries@[k].1 == self.ref_@[i].value
                },
    {
        let records: &'a [ExtensionDirectiveArgumentRecord] = self.ref_;
        let schema: &'a Schema = self.schema;
        let ghost positions = Seq::new(records@.len(), |i: int| i);
        let ghost keep = |i: int| records@[i].injection_stage == InjectionStage::Static;
        let mut entries: Vec<(&'a str, &'a ExtensionInputValueRecord)> = Vec::new();
        let mut index: usize = 0;
        while index < records.len()
            invariant
                index <= records@.len(),
                records@ == self.ref_@,
                schema == self.schema,
                self.wf(),
                positions == Seq::new(records@.len(), |i: int| i),
                keep == |i: int| records@[i].injection_stage == InjectionStage::Static,
                entries@.len() == positions.take(index as int).filter(keep).len(),
                forall|k: int|
                    0 <= k < entries@.len() ==> {
                        let i = positions.take(index as int).filter(keep)[k];
                        &&& 0 <= i < index
                        &&& (#[trigger] entries@[k]).0@ == schema.strings@[records@[i].name_id.0 as int]@
                        &&& *entries@[k].1 == records@[i].value
                    },
            decreases records@.len() - index,
        {
            let record = &records[index];
            proof {
                let before = positions.take(index as int);
                assert(positions.take(index as int + 1) =~= before.push(index as int));
                lemma_filter_push(before, index as int, keep);
            }
            match record.injection_stage {
                InjectionStage::Static => {
                    entries.push((schema.string(record.name_id), &record.value));
                },
                _ => {},
            }
            index += 1;
        }
        proof {
            assert(positions.take(index as int) =~= positions);
        }
        entries
    }
}

/// Filtering a sequence with one more element at its end keeps the element
/// at the end of the result, or leaves the result as it was.
pub proof fn lemma_filter_push<T>(s: Seq<T>, last: T, keep: spec_fn(T) -> bool)
    ensures
        s.push(last).filter(keep) == if keep(last) {
            s.filter(keep).push(last)
        } else {
            s.filter(keep)
        },
{
    reveal(Seq::filter);
    assert(s.push(last).drop_last() =~= s);
}

} // verus!
