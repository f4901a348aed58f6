//! Where in the response a value stands.

use vstd::prelude::*;

verus! {

/// The id of a part of the response data.
#[derive(Debug, Clone, Copy, PartialEq, Eq, Structural)]
pub struct DataPartId(pub u16);

/// The id of an object of the response.
#[derive(Debug, Clone, Copy, PartialEq, Eq, Structural)]
pub struct ResponseObjectId {
    pub part_id: DataPartId,
    pub index: u32,
}

/// The id of a list of the response.
#[derive(Debug, Clone, Copy, PartialEq, Eq, Structural)]
pub struct ResponseListId {
    pub part_id: DataPartId,
    pub index: u32,
}

/// The key of a field in the response.
#[derive(Debug, Clone, Copy, PartialEq, Eq, Structural)]
pub struct ResponseKey(pub u16);

/// A response key with the position of its field in the query.
#[derive(Debug, Clone, Copy, PartialEq, Eq, Structural)]
pub struct PositionedResponseKey {
    pub query_position: u16,
    pub response_key: ResponseKey,
}

/// One step of the path that a GraphQL error reports.
#[derive(Debug, Clone, Copy, PartialEq, Eq, Structural)]
pub enum ErrorPathSegment {
    Field(ResponseKey),
    Index(usize),
}

/// The place of a value in the response: a field of an object or an item
/// of a list. It says where a null goes when the value is denied or fails,
/// and gives the path of the error.
#[derive(Debug, Clone, Copy, PartialEq, Eq, Structural)]
pub enum ResponseValueId {
    Field { object_id: ResponseObjectId, key: PositionedResponseKey, nullable: bool },
    Index { list_id: ResponseListId, index: u32, nullable: bool },
}

impl ResponseValueId {
    /// Whether the value may be null.
    pub fn is_nullable(&self) -> (nullable: bool)
        ensures
            nullable == match *self {
                ResponseValueId::Field { nullable, .. } => nullable,
                ResponseValueId::Index { nullable, .. } => nullable,
            },
    {
        match self {
            ResponseValueId::Field { nullable, .. } => *nullable,
            ResponseValueId::Index { nullable, .. } => *nullable,
        }
    }

    /// The part of the response data that holds the value.
    pub fn part_id(&self) -> (part: DataPartId)
        ensures
            part == match *self {
                ResponseValueId::Field { object_id, .. } => object_id.part_id,
                ResponseValueId::Index { list_id, .. } => list_id.part_id,
            },
    {
        match self {
            ResponseValueId::Field { object_id, .. } => object_id.part_id,
            ResponseValueId::Index { list_id, .. } => list_id.part_id,
        }
    }

    /// The step of an error path that leads to the value.
    pub fn path_segment(&self) -> (segment: ErrorPathSegment)
        ensures
            segment == match *self {
                ResponseValueId::Field { key, .. } => ErrorPathSegment::Field(key.response_key),
                ResponseValueId::Index { index, .. } => ErrorPathSegment::Index(index as usize),
            },
    {
        match self {
            ResponseValueId::Field { key, .. } => ErrorPathSegment::Field(key.response_key),
            ResponseValueId::Index { index, .. } => ErrorPathSegment::Index(*index as usize),
        }
    }
}

impl From<&ResponseValueId> for ErrorPathSegment {
    fn from(segment: &ResponseValueId) -> (path: ErrorPathSegment) {
        segment.path_segment()
    }
}

impl vstd::std_specs::convert::FromSpecImpl<&ResponseValueId> for ErrorPathSegment {
    open spec fn obeys_from_spec() -> bool {
        true
    }

    open spec fn from_spec(segment: &ResponseValueId) -> ErrorPathSegment {
        match *segment {
            ResponseValueId::Field { key, .. } => ErrorPathSegment::Field(key.response_key),
            ResponseValueId::Index { index, .. } => ErrorPathSegment::Index(index as usize),
        }
    }
}

/// The place at which a null is put for a value that cannot be shown: the
/// value itself if it may be null, else its nearest ancestor that may.
/// `path` leads from the root of the response to the value; `None` says
/// that no place on the path may be null, so the whole data is null.
pub open spec fn null_position(path: Seq<ResponseValueId>) -> Option<int>
    decreases path.len(),
{
    if path.len() == 0 {
        None
    } else if path.last().is_nullable_spec() {
        Some(path.len() - 1)
    } else {
        null_position(path.drop_last())
    }
}

impl ResponseValueId {
    /// Whether the value may be null.
    pub open spec fn is_nullable_spec(self) -> bool {
        match self {
            ResponseValueId::Field { nullable, .. } => nullable,
            ResponseValueId::Index { nullable, .. } => nullable,
        }
    }
}

/// Finds the place at which a null is put for the value at the end of
/// `path`: the index of the last place on the path that may be null.
pub fn propagate_null(path: &Vec<ResponseValueId>) -> (position: Option<usize>)
    ensures
        match position {
            Some(p) => null_position(path@) == Some(p as int),
            None => null_position(path@) is None,
        },
        position matches Some(p) ==> {
            &&& p < path@.len()
            &&& path@[p as int].is_nullable_spec()
            &&& forall|later: int| p < later < path@.len() ==> !path@[later].is_nullable_spec()
        },
        position is None ==> forall|i: int| 0 <= i < path@.len() ==> !path@[i].is_nullable_spec(),
{
    let mut remaining = path.len();
    assert(path@.take(remaining as int) =~= path@);
    while remaining > 0
        invariant
            remaining <= path@.len(),
            null_position(path@) == null_position(path@.take(remaining as int)),
            forall|later: int| remaining <= later < path@.len() ==> !path@[later].is_nullable_spec(),
        decreases remaining,
    {
        assert(path@.take(remaining as int).drop_last() =~= path@.take(remaining as int - 1));
        assert(path@.take(remaining as int).last() == path@[remaining as int - 1]);
        if path[remaining - 1].is_nullable() {
            return Some(remaining - 1);
        }
        remaining -= 1;
    }
    assert(path@.take(0).len() == 0);
    None
}

} // verus!
