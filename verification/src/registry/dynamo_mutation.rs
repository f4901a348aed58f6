//! The mutations of nodes.

use vstd::prelude::*;
use vstd::string::*;
use crate::registry::value::GraphqlValue;
use crate::registry::variables::VariableResolveDefinition;
use crate::text::same_text;

verus! {

/// A mutation of a node in the database.
#[derive(Debug)]
pub enum DynamoMutationResolver {
    /// Creates a node of the type `ty` from the input. The id of the new
    /// node is generated; edges at the first level of the input are fetched
    /// before the node and its vertices are stored.
    CreateNode { input: VariableResolveDefinition, ty: String },
    /// Deletes the node with this id. The nodes at its edges stay.
    DeleteNode { id: VariableResolveDefinition },
}

/// A value of an item of the database.
#[derive(Debug)]
pub enum ItemValue {
    /// Text.
    Text(String),
    /// A value of the input, to be stored as it is.
    Input(GraphqlValue),
}

/// How a node is deleted: the key of its item, and the condition that the
/// item exists, with the names that the condition uses.
#[derive(Debug)]
pub struct DeleteRequest {
    pub key: Vec<(String, ItemValue)>,
    pub condition_expression: String,
    pub expression_attribute_names: Vec<(String, String)>,
}

/// Whether `names` holds `name`.
pub open spec fn names_contain(names: Seq<String>, name: Seq<char>) -> bool {
    exists|i: int| 0 <= i < names.len() && names[i]@ == name
}

/// The entries of `input` that are no edges, in order.
pub open spec fn own_fields(input: Seq<(String, GraphqlValue)>, edges: Seq<String>) -> Seq<(String, GraphqlValue)> {
    input.filter(|entry: (String, GraphqlValue)| !names_contain(edges, entry.0@))
}

/// Whether `item` holds `value` as text under `key`.
pub open spec fn is_text_entry(item: (String, ItemValue), key: Seq<char>, value: Seq<char>) -> bool {
    &&& item.0@ == key
    &&& item.1 matches ItemValue::Text(text)
    &&& text@ == value
}

/// Whether `entries` are the keys that every node is stored with: its
/// keys, its type, its timestamps and the keys of its two indexes.
pub open spec fn is_node_keys(entries: Seq<(String, ItemValue)>, ty: Seq<char>, id: Seq<char>, now: Seq<char>) -> bool {
    &&& entries.len() == 9
    &&& is_text_entry(entries[0], "__pk"@, id)
    &&& is_text_entry(entries[1], "__sk"@, id)
    &&& is_text_entry(entries[2], "__type"@, ty)
    &&& is_text_entry(entries[3], "created_at"@, now)
    &&& is_text_entry(entries[4], "updated_at"@, now)
    &&& is_text_entry(entries[5], "__gsi1pk"@, ty)
    &&& is_text_entry(entries[6], "__gsi1sk"@, id)
    &&& is_text_entry(entries[7], "__gsi2pk"@, id)
    &&& is_text_entry(entries[8], "__gsi2sk"@, id)
}

/// Whether `entries` are the keys that tie a vertex to its node: the
/// type and the id of the node in the first index, the id as the
/// partition key and as the sort key of the second index.
pub open spec fn is_vertex_keys(entries: Seq<(String, ItemValue)>, ty: Seq<char>, id: Seq<char>) -> bool {
    &&& entries.len() == 4
    &&& is_text_entry(entries[0], "__gsi1pk"@, ty)
    &&& is_text_entry(entries[1], "__gsi1sk"@, id)
    &&& is_text_entry(entries[2], "__pk"@, id)
    &&& is_text_entry(entries[3], "__gsi2sk"@, id)
}

fn text_entry(key: &str, value: &str) -> (entry: (String, ItemValue))
    ensures
        is_text_entry(entry, key@, value@),
{
    (String::from_str(key), ItemValue::Text(String::from_str(value)))
}

fn contains_name(names: &Vec<String>, name: &str) -> (found: bool)
    ensures
        found == names_contain(names@, name@),
{
    let mut index: usize = 0;
    while index < names.len()
        invariant
            index <= names@.len(),
            forall|i: int| 0 <= i < index ==> names@[i]@ != name@,
        decreases names@.len() - index,
    {
        if same_text(names[index].as_str(), name) {
            return true;
        }
        index += 1;
    }
    false
}

/// The id of a node of the type `ty` that is created in the execution
/// `execution_id`: the two joined by `#`.
pub open spec fn node_id(ty: Seq<char>, execution_id: Seq<char>) -> Seq<char> {
    ty + "#"@ + execution_id
}

impl DynamoMutationResolver {
    /// The id of the node that a `CreateNode` of the type `ty` creates in
    /// the execution `execution_id`.
    pub fn autogenerated_id(ty: &str, execution_id: &str) -> (id: String)
        ensures
            id@ == node_id(ty@, execution_id@),
    {
        let mut id = String::from_str(ty);
        id.append("#");
        id.append(execution_id);
        id
    }

    /// The item that is stored for a new node. An entry that stands later
    /// in the item replaces an earlier one with the same key.
    ///
    /// The item holds the fields of the input that are no edges, in their
    /// order, followed by the keys of the node.
    pub fn node_item(ty: &str, id: &str, now: &str, input: Vec<(String, GraphqlValue)>, edges: &Vec<String>) -> (item:
        Vec<(String, ItemValue)>)
        ensures
            item@.len() == own_fields(input@, edges@).len() + 9,
            forall|k: int|
                0 <= k < own_fields(input@, edges@).len() ==> (#[trigger] item@[k]).0 == own_fields(
                    input@,
                    edges@,
                )[k].0 && item@[k].1 == ItemValue::Input(own_fields(input@, edges@)[k].1),
            is_node_keys(item@.skip(own_fields(input@, edges@).len() as int), ty@, id@, now@),
    {
        let ghost keep = |entry: (String, GraphqlValue)| !names_contain(edges@, entry.0@);
        let ghost source = input@;
        let mut item: Vec<(String, ItemValue)> = Vec::new();
        for entry in it: input
            invariant
                it.seq() == source,
                keep == |entry: (String, GraphqlValue)| !names_contain(edges@, entry.0@),
                item@.len() == source.take(it.index() as int).filter(keep).len(),
                forall|k: int|
                    0 <= k < item@.len() ==> (#[trigger] item@[k]).0 == source.take(it.index() as int).filter(
                        keep,
                    )[k].0 && item@[k].1 == ItemValue::Input(source.take(it.index() as int).filter(keep)[k].1),
        {
            proof {
                let before = source.take(it.index() as int);
                assert(source.take(it.index() as int + 1) =~= before.push(entry));
                crate::schema::argument::lemma_filter_push(before, entry, keep);
            }
            if !contains_name(edges, entry.0.as_str()) {
                item.push((entry.0, ItemValue::Input(entry.1)));
            }
        }
        proof {
            assert(source.take(source.len() as int) =~= source);
        }
        let ghost fields = item@.len() as int;
        item.push(text_entry("__pk", id));
        item.push(text_entry("__sk", id));
        item.push(text_entry("__type", ty));
        item.push(text_entry("created_at", now));
        item.push(text_entry("updated_at", now));
        item.push(text_entry("__gsi1pk", ty));
        item.push(text_entry("__gsi1sk", id));
        item.push(text_entry("__gsi2pk", id));
        item.push(text_entry("__gsi2sk", id));
        proof {
            let keys = item@.skip(fields);
            assert(keys.len() == 9);
            assert(keys[0] == item@[fields + 0]);
            assert(keys[1] == item@[fields + 1]);
            assert(keys[2] == item@[fields + 2]);
            assert(keys[3] == item@[fields + 3]);
            assert(keys[4] == item@[fields + 4]);
            assert(keys[5] == item@[fields + 5]);
            assert(keys[6] == item@[fields + 6]);
            assert(keys[7] == item@[fields + 7]);
            assert(keys[8] == item@[fields + 8]);
        }
        item
    }

    /// The item that is stored for a vertex of a new node: the item of the
    /// edge, followed by the keys that tie it to the node.
    pub fn vertex_item(edge: Vec<(String, ItemValue)>, ty: &str, id: &str) -> (item: Vec<(String, ItemValue)>)
        ensures
            item@.len() == edge@.len() + 4,
            item@.take(edge@.len() as int) == edge@,
            is_vertex_keys(item@.skip(edge@.len() as int), ty@, id@),
    {
        let mut item = edge;
        item.push(text_entry("__gsi1pk", ty));
        item.push(text_entry("__gsi1sk", id));
        item.push(text_entry("__pk", id));
        item.push(text_entry("__gsi2sk", id));
        proof {
            let keys = item@.skip(edge@.len() as int);
            assert(keys[0] == item@[edge@.len() as int + 0]);
            assert(keys[1] == item@[edge@.len() as int + 1]);
            assert(keys[2] == item@[edge@.len() as int + 2]);
            assert(keys[3] == item@[edge@.len() as int + 3]);
            assert(item@.take(edge@.len() as int) =~= edge@);
        }
        item
    }

    /// How the node `id` is deleted: by its key, on the condition that it
    /// exists.
    pub fn delete_request(id: &str) -> (request: DeleteRequest)
        ensures
            request.key@.len() == 2,
            is_text_entry(request.key@[0], "__pk"@, id@),
            is_text_entry(request.key@[1], "__sk"@, id@),
            request.condition_expression@ == "attribute_exists(#pk)"@,
            request.expression_attribute_names@.len() == 1,
            request.expression_attribute_names@[0].0@ == "#pk"@,
            request.expression_attribute_names@[0].1@ == "__pk"@,
    {
        let mut key: Vec<(String, ItemValue)> = Vec::new();
        key.push(text_entry("__pk", id));
        key.push(text_entry("__sk", id));
        let mut expression_attribute_names: Vec<(String, String)> = Vec::new();
        expression_attribute_names.push((String::from_str("#pk"), String::from_str("__pk")));
        DeleteRequest {
            key,
            condition_expression: String::from_str("attribute_exists(#pk)"),
            expression_attribute_names,
        }
    }

    /// The ids of the nodes at an edge of the input: one id for text, the
    /// ids of a list of texts in order, and none for any other value. A
    /// list that holds anything but text has no ids.
    pub fn edge_ids(value: Option<&GraphqlValue>) -> (ids: Option<Vec<String>>)
        ensures
            match value {
                Some(GraphqlValue::String(text)) => ids matches Some(list) && list@.len() == 1 && list@[0]@ == text@,
                Some(GraphqlValue::List(values)) => if forall|i: int|
                    0 <= i < values@.len() ==> #[trigger] values@[i] is String {
                    ids matches Some(list) && list@.len() == values@.len() && forall|i: int|
                        0 <= i < values@.len() ==> (#[trigger] list@[i])@ == values@[i]->String_0@
                } else {
                    ids is None
                },
                _ => ids is None,
            },
    {
        match value {
            Some(GraphqlValue::String(text)) => {
                let mut ids: Vec<String> = Vec::new();
                ids.push(text.clone());
                Some(ids)
            },
            Some(GraphqlValue::List(values)) => {
                let mut ids: Vec<String> = Vec::new();
                let mut index: usize = 0;
                while index < values.len()
                    invariant
                        index <= values@.len(),
                        ids@.len() == index,
                        value matches Some(list) && *list == GraphqlValue::List(*values),
                        forall|i: int| 0 <= i < index ==> #[trigger] values@[i] is String,
                        forall|i: int| 0 <= i < index ==> (#[trigger] ids@[i])@ == values@[i]->String_0@,
                    decreases values@.len() - index,
                {
                    match &values[index] {
                        GraphqlValue::String(text) => {
                            ids.push(text.clone());
                        },
                        _ => {
                            assert(!(values@[index as int] is String));
                            return None;
                        },
                    }
                    index += 1;
                }
                Some(ids)
            },
            _ => None,
        }
    }

    /// The variable that the mutation reads.
    pub fn variable(&self) -> (variable: &VariableResolveDefinition)
        ensures
            match *self {
                DynamoMutationResolver::CreateNode { input, .. } => *variable == input,
                DynamoMutationResolver::DeleteNode { id } => *variable == id,
            },
    {
        match self {
            DynamoMutationResolver::CreateNode { input, .. } => input,
            DynamoMutationResolver::DeleteNode { id } => id,
        }
    }
}

} // verus!
