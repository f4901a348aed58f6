//! Input objects must not contain themselves through a chain of required
//! fields: no value could ever be written for such a type.
//!
//! The search walks the required fields that are no lists, depth first,
//! and enters every input object once.

use vstd::prelude::*;
use vstd::string::*;
use crate::text::same_text;

verus! {

/// A field of an input object: its name, the name of the type at the
/// bottom of its type, and whether the type is nullable or a list.
pub struct InputValueDefinition {
    pub name: String,
    pub base_type: String,
    pub nullable: bool,
    pub is_list: bool,
}

/// An input object.
pub struct InputObjectType {
    pub name: String,
    pub fields: Vec<InputValueDefinition>,
}

/// The input objects of a schema.
pub struct Context {
    pub input_objects: Vec<InputObjectType>,
}

/// A cycle that was found: the fields that lead from the input object back
/// to itself, and the message of the error.
#[derive(Debug)]
pub struct InputObjectCycle {
    pub path: Vec<String>,
    pub message: String,
}

/// Whether a value must be given for the field itself: it is neither
/// nullable nor a list.
pub open spec fn is_required(field: InputValueDefinition) -> bool {
    !field.nullable && !field.is_list
}

/// The position of the first input object named `name`.
pub open spec fn position_of(objects: Seq<InputObjectType>, name: Seq<char>) -> Option<int>
    decreases objects.len(),
{
    if objects.len() == 0 {
        None
    } else if objects[0].name@ == name {
        Some(0)
    } else {
        match position_of(objects.skip(1), name) {
            Some(position) => Some(position + 1),
            None => None,
        }
    }
}

/// Whether the fields at the positions `steps`, named `names`, lead from
/// `fields` to the input object `target` through required fields. The last
/// step is the one that is taken first.
pub open spec fn leads_to(
    objects: Seq<InputObjectType>,
    target: Seq<char>,
    fields: Seq<InputValueDefinition>,
    steps: Seq<int>,
    names: Seq<Seq<char>>,
) -> bool
    decreases steps.len(),
{
    &&& steps.len() >= 1
    &&& steps.len() == names.len()
    &&& 0 <= steps.last() < fields.len()
    &&& is_required(fields[steps.last()])
    &&& names.last() == fields[steps.last()].name@
    &&& if steps.len() == 1 {
        fields[steps.last()].base_type@ == target
    } else {
        match position_of(objects, fields[steps.last()].base_type@) {
            Some(next) => 0 <= next < objects.len() && leads_to(
                objects,
                target,
                objects[next].fields@,
                steps.drop_last(),
                names.drop_last(),
            ),
            None => false,
        }
    }
}

/// Whether the fields named `names` lead from `fields` to the input object
/// `target` through required fields, the last of them taken first.
pub open spec fn has_chain(
    objects: Seq<InputObjectType>,
    target: Seq<char>,
    fields: Seq<InputValueDefinition>,
    names: Seq<Seq<char>>,
) -> bool {
    exists|steps: Seq<int>| leads_to(objects, target, fields, steps, names)
}

/// The texts of `names`.
pub open spec fn texts(names: Seq<String>) -> Seq<Seq<char>> {
    Seq::new(names.len(), |i: int| names[i]@)
}

/// The number of input objects that were not entered yet.
pub open spec fn unvisited(visited: Seq<bool>) -> nat
    decreases visited.len(),
{
    if visited.len() == 0 {
        0
    } else {
        unvisited(visited.drop_last()) + if visited.last() {
            0nat
        } else {
            1nat
        }
    }
}

/// Entering an input object leaves one fewer to enter.
proof fn lemma_enter(visited: Seq<bool>, position: int)
    requires
        0 <= position < visited.len(),
        !visited[position],
    ensures
        unvisited(visited.update(position, true)) + 1 == unvisited(visited),
    decreases visited.len(),
{
    let after = visited.update(position, true);
    if position == visited.len() - 1 {
        assert(after.drop_last() =~= visited.drop_last());
    } else {
        assert(after.drop_last() =~= visited.drop_last().update(position, true));
        lemma_enter(visited.drop_last(), position);
    }
}

/// Whether none of the required fields among `fields` refers to `target`,
/// and each that refers to an input object refers to one that was entered.
pub open spec fn is_settled(
    objects: Seq<InputObjectType>,
    target: Seq<char>,
    fields: Seq<InputValueDefinition>,
    visited: Seq<bool>,
) -> bool {
    forall|i: int|
        0 <= i < fields.len() && is_required(#[trigger] fields[i]) ==> {
            &&& fields[i].base_type@ != target
            &&& position_of(objects, fields[i].base_type@) matches Some(next) ==> 0 <= next < visited.len()
                && visited[next]
        }
}

/// Whether every input object that was entered and is not among those in
/// `open`, which are still being searched, is settled.
pub open spec fn all_settled(
    objects: Seq<InputObjectType>,
    target: Seq<char>,
    visited: Seq<bool>,
    open: Set<int>,
) -> bool {
    forall|u: int|
        0 <= u < visited.len() && #[trigger] visited[u] && !open.contains(u) ==> is_settled(
            objects,
            target,
            objects[u].fields@,
            visited,
        )
}

/// Whether every input object that `before` marks is marked by `after`.
pub open spec fn grows(before: Seq<bool>, after: Seq<bool>) -> bool {
    before.len() == after.len() && forall|u: int| 0 <= u < before.len() && #[trigger] before[u] ==> after[u]
}

/// Fields that are settled stay settled when more input objects are
/// entered.
proof fn lemma_settled_stays(
    objects: Seq<InputObjectType>,
    target: Seq<char>,
    fields: Seq<InputValueDefinition>,
    before: Seq<bool>,
    after: Seq<bool>,
)
    requires
        grows(before, after),
        is_settled(objects, target, fields, before),
    ensures
        is_settled(objects, target, fields, after),
{
    assert forall|i: int| 0 <= i < fields.len() && is_required(#[trigger] fields[i]) implies {
        &&& fields[i].base_type@ != target
        &&& position_of(objects, fields[i].base_type@) matches Some(next) ==> 0 <= next < after.len() && after[next]
    } by {
        if let Some(next) = position_of(objects, fields[i].base_type@) {
            assert(before[next]);
        }
    }
}

/// Input objects that are settled stay settled when more are entered.
proof fn lemma_all_settled_stays(
    objects: Seq<InputObjectType>,
    target: Seq<char>,
    before: Seq<bool>,
    after: Seq<bool>,
    open: Set<int>,
    entered: Set<int>,
)
    requires
        grows(before, after),
        all_settled(objects, target, before, open),
        forall|u: int| 0 <= u < after.len() && #[trigger] after[u] && !before[u] ==> entered.contains(u),
    ensures
        all_settled(objects, target, after, open.union(entered)),
{
    assert forall|u: int|
        0 <= u < after.len() && #[trigger] after[u] && !open.union(entered).contains(u) implies is_settled(
        objects,
        target,
        objects[u].fields@,
        after,
    ) by {
        assert(before[u]);
        lemma_settled_stays(objects, target, objects[u].fields@, before, after);
    }
}

/// From fields that are settled, among input objects that are all
/// settled, no chain of required fields leads to the target.
proof fn lemma_settled_has_no_chain(
    objects: Seq<InputObjectType>,
    target: Seq<char>,
    fields: Seq<InputValueDefinition>,
    visited: Seq<bool>,
    steps: Seq<int>,
    names: Seq<Seq<char>>,
)
    requires
        visited.len() == objects.len(),
        is_settled(objects, target, fields, visited),
        all_settled(objects, target, visited, Set::empty()),
    ensures
        !leads_to(objects, target, fields, steps, names),
    decreases steps.len(),
{
    if leads_to(objects, target, fields, steps, names) {
        let field = fields[steps.last()];
        assert(is_required(field));
        if steps.len() > 1 {
            let next = position_of(objects, field.base_type@)->Some_0;
            assert(visited[next]);
            lemma_settled_has_no_chain(
                objects,
                target,
                objects[next].fields@,
                visited,
                steps.drop_last(),
                names.drop_last(),
            );
        }
    }
}

/// The names joined by dots, the last name first.
pub open spec fn dotted_from_last(names: Seq<Seq<char>>) -> Seq<char>
    decreases names.len(),
{
    if names.len() == 0 {
        Seq::empty()
    } else if names.len() == 1 {
        names[0]
    } else {
        names.last() + "."@ + dotted_from_last(names.drop_last())
    }
}

/// The message for an input object that contains itself.
pub open spec fn cycle_message(name: Seq<char>, path: Seq<char>) -> Seq<char> {
    "Cannot reference Input Object "@ + name + " within itself through a series of non-null fields: \""@ + path
        + "\""@
}

impl Context {
    /// Finds the first input object named `name`.
    pub fn find(&self, name: &str) -> (position: Option<usize>)
        ensures
            match position {
                Some(p) => p < self.input_objects@.len() && position_of(self.input_objects@, name@) == Some(p as int),
                None => position_of(self.input_objects@, name@) is None,
            },
    {
        let mut index: usize = 0;
        assert(self.input_objects@.skip(0) =~= self.input_objects@);
        while index < self.input_objects.len()
            invariant
                index <= self.input_objects@.len(),
                position_of(self.input_objects@, name@) == match position_of(
                    self.input_objects@.skip(index as int),
                    name@,
                ) {
                    Some(p) => Some(p + index),
                    None => None,
                },
            decreases self.input_objects@.len() - index,
        {
            let ghost rest = self.input_objects@.skip(index as int);
            assert(rest[0] == self.input_objects@[index as int]);
            assert(rest.skip(1) =~= self.input_objects@.skip(index as int + 1));
            if same_text(self.input_objects[index].name.as_str(), name) {
                return Some(index);
            }
            index += 1;
        }
        None
    }
}

/// Searches `fields` for a chain of required fields that leads to the
/// input object `name`. The chain is returned with the field that is taken
/// first at its end. Input objects that are marked in `visited` are not
/// entered; those that the search enters are marked.
fn references_input_object_rec(
    name: &str,
    fields: &Vec<InputValueDefinition>,
    visited: &mut Vec<bool>,
    ctx: &Context,
    Ghost(open): Ghost<Set<int>>,
) -> (chain: Option<Vec<String>>)
    requires
        old(visited)@.len() == ctx.input_objects@.len(),
        all_settled(ctx.input_objects@, name@, old(visited)@, open),
    ensures
        grows(old(visited)@, final(visited)@),
        unvisited(final(visited)@) <= unvisited(old(visited)@),
        match chain {
            Some(names) => has_chain(ctx.input_objects@, name@, fields@, texts(names@)),
            None => {
                &&& is_settled(ctx.input_objects@, name@, fields@, final(visited)@)
                &&& all_settled(ctx.input_objects@, name@, final(visited)@, open)
            },
        },
    decreases unvisited(old(visited)@),
{
    let mut index: usize = 0;
    while index < fields.len()
        invariant
            index <= fields@.len(),
            visited@.len() == ctx.input_objects@.len(),
            grows(old(visited)@, visited@),
            unvisited(visited@) <= unvisited(old(visited)@),
            all_settled(ctx.input_objects@, name@, visited@, open),
            is_settled(ctx.input_objects@, name@, fields@.take(index as int), visited@),
        decreases fields@.len() - index,
    {
        let ghost at_start = visited@;
        let ghost done = fields@.take(index as int);
        assert(fields@.take(index as int + 1) =~= done.push(fields@[index as int]));
        let field = &fields[index];
        if !field.nullable && !field.is_list {
            if same_text(field.base_type.as_str(), name) {
                let mut names: Vec<String> = Vec::new();
                names.push(field.name.clone());
                proof {
                    let steps = seq![index as int];
                    assert(texts(names@).last() == field.name@);
                    assert(leads_to(ctx.input_objects@, name@, fields@, steps, texts(names@)));

                }
                return Some(names);
            }
            match ctx.find(field.base_type.as_str()) {
                Some(next) => {
                    if !visited[next] {
                        proof {
                            lemma_enter(visited@, next as int);
                        }
                        visited.set(next, true);
                        let ghost entered = visited@;
                        proof {
                            assert(grows(at_start, entered));
                            lemma_all_settled_stays(
                                ctx.input_objects@,
                                name@,
                                at_start,
                                entered,
                                open,
                                set![next as int],
                            );
                            assert(open.union(set![next as int]) =~= open.insert(next as int));
                        }
                        match references_input_object_rec(
                            name,
                            &ctx.input_objects[next].fields,
                            visited,
                            ctx,
                            Ghost(open.insert(next as int)),
                        ) {
                            Some(inner) => {
                                let mut names = inner;
                                let ghost inner_names = texts(names@);
                                names.push(field.name.clone());
                                proof {
                                    let inner_steps = choose|steps: Seq<int>|
                                        leads_to(
                                            ctx.input_objects@,
                                            name@,
                                            ctx.input_objects@[next as int].fields@,
                                            steps,
                                            inner_names,
                                        );
                                    assert(inner_steps.len() >= 1);
                                    let steps = inner_steps.push(index as int);
                                    assert(steps.drop_last() =~= inner_steps);
                                    assert(steps.last() == index as int);
                                    assert(position_of(ctx.input_objects@, field.base_type@) == Some(next as int));
                                    assert(texts(names@).drop_last() =~= inner_names);
                                    assert(texts(names@).last() == field.name@);
                                    assert(leads_to(ctx.input_objects@, name@, fields@, steps, texts(names@)));
                                }
                                return Some(names);
                            },
                            None => {
                                proof {
                                    assert(entered[next as int]);
                                    assert(visited@[next as int]);
                                    assert(grows(at_start, visited@));
                                    assert forall|u: int|
                                        0 <= u < visited@.len() && #[trigger] visited@[u] && !open.contains(
                                            u,
                                        ) implies is_settled(
                                        ctx.input_objects@,
                                        name@,
                                        ctx.input_objects@[u].fields@,
                                        visited@,
                                    ) by {
                                        if u != next as int {
                                            assert(!open.insert(next as int).contains(u));
                                        }
                                    }
                                }
                            },
                        }
                    }
                },
                None => {},
            }
        }
        proof {
            lemma_settled_stays(ctx.input_objects@, name@, done, at_start, visited@);
            let now = fields@.take(index as int + 1);
            assert forall|i: int| 0 <= i < now.len() && is_required(#[trigger] now[i]) implies {
                &&& now[i].base_type@ != name@
                &&& position_of(ctx.input_objects@, now[i].base_type@) matches Some(next) ==> 0 <= next
                    < visited@.len() && visited@[next]
            } by {
                if i < index {
                    assert(now[i] == done[i]);
                } else {
                    assert(now[i] == fields@[index as int]);
                }
            }
        }
        index += 1;
    }
    proof {
        assert(fields@.take(index as int) =~= fields@);
    }
    None
}

/// Checks that the input object `input_object_name` with the fields
/// `fields` does not contain itself. If it does, the fields that lead back
/// to it are reported, in the order in which they are taken.
///
/// A report is always a true chain of required fields, and a chain is
/// always reported if there is one.
pub fn input_object_cycles(input_object_name: &str, fields: &Vec<InputValueDefinition>, ctx: &Context) -> (cycle:
    Option<InputObjectCycle>)
    ensures
        cycle matches Some(found) ==> {
            &&& has_chain(ctx.input_objects@, input_object_name@, fields@, texts(found.path@).reverse())
            &&& found.message@ == cycle_message(input_object_name@, dotted_from_last(texts(found.path@).reverse()))
        },
        cycle is None ==> forall|names: Seq<Seq<char>>|
            !#[trigger] has_chain(ctx.input_objects@, input_object_name@, fields@, names),
{
    let mut visited: Vec<bool> = Vec::new();
    let mut index: usize = 0;
    while index < ctx.input_objects.len()
        invariant
            index <= ctx.input_objects@.len(),
            visited@.len() == index,
            forall|u: int| 0 <= u < index ==> !visited@[u],
        decreases ctx.input_objects@.len() - index,
    {
        visited.push(false);
        index += 1;
    }
    let chain = match references_input_object_rec(input_object_name, fields, &mut visited, ctx, Ghost(Set::empty())) {
        Some(chain) => chain,
        None => {
            proof {
                assert forall|names: Seq<Seq<char>>| !#[trigger] has_chain(
                    ctx.input_objects@,
                    input_object_name@,
                    fields@,
                    names,
                ) by {
                    assert forall|steps: Seq<int>| !leads_to(
                        ctx.input_objects@,
                        input_object_name@,
                        fields@,
                        steps,
                        names,
                    ) by {
                        lemma_settled_has_no_chain(
                            ctx.input_objects@,
                            input_object_name@,
                            fields@,
                            visited@,
                            steps,
                            names,
                        );
                    }
                }
            }
            return None;
        },
    };
    let ghost names = texts(chain@);
    let mut path: Vec<String> = Vec::new();
    let mut dotted = String::new();
    let mut remaining = chain.len();
    assert(texts(path@) =~= names.reverse().take(0));
    assert(names.take(remaining as int) =~= names);
    assert(dotted@ + Seq::<char>::empty() + dotted_from_last(names) =~= dotted_from_last(names));
    while remaining > 0
        invariant
            remaining <= chain@.len(),
            names == texts(chain@),
            path@.len() == chain@.len() - remaining,
            texts(path@) == names.reverse().take(chain@.len() - remaining),
            dotted@ + if remaining == chain@.len() || remaining == 0 {
                Seq::<char>::empty()
            } else {
                "."@
            } + dotted_from_last(names.take(remaining as int)) == dotted_from_last(names),
        decreases remaining,
    {
        let name = &chain[remaining - 1];
        let ghost before = dotted@;
        let ghost taken = names.take(remaining as int);
        assert(taken.last() == name@);
        assert(taken.drop_last() =~= names.take(remaining as int - 1));
        if remaining < chain.len() {
            dotted.append(".");
        }
        dotted.append(name.as_str());
        let ghost old_path = texts(path@);
        path.push(name.clone());
        proof {
            let done = chain@.len() - remaining;
            assert(texts(path@) =~= old_path.push(name@));
            assert(names.reverse()[done] == name@);
            assert(names.reverse().take(done + 1) =~= names.reverse().take(done).push(name@));
            if remaining == 1 {
                assert(taken =~= seq![name@]);
                assert(dotted_from_last(taken) == name@);
                assert(dotted_from_last(names.take(0)) =~= Seq::<char>::empty());
                assert(dotted@ =~= dotted_from_last(names));
            } else {
                assert(dotted_from_last(taken) == name@ + "."@ + dotted_from_last(names.take(remaining as int - 1)));
                assert(dotted@ + "."@ + dotted_from_last(names.take(remaining as int - 1)) =~= before + if remaining
                    == chain@.len() {
                    Seq::<char>::empty()
                } else {
                    "."@
                } + dotted_from_last(taken));
            }
        }
        remaining -= 1;
    }
    proof {
        assert(names.reverse().take(chain@.len() as int) =~= names.reverse());
        assert(texts(path@).reverse() =~= names);
        assert(dotted_from_last(names.take(0)) =~= Seq::<char>::empty());
        assert(dotted@ =~= dotted_from_last(names));
    }
    let mut message = String::from_str("Cannot reference Input Object ");
    message.append(input_object_name);
    message.append(" within itself through a series of non-null fields: \"");
    message.append(dotted.as_str());
    message.append("\"");
    Some(InputObjectCycle { path, message })
}

} // verus!
