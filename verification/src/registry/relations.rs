//! Relations between the types of a schema.

use vstd::prelude::*;
use vstd::string::*;
use crate::registry::value::{BaseType, Type};
use crate::text::{lex_le, str_le};

verus! {

/// How many nodes stand on each side of a relation.
#[derive(Clone, Copy, PartialEq, Eq, Debug, Structural)]
pub enum MetaRelationKind {
    ManyToMany,
    ManyToOne,
    OneToMany,
    OneToOne,
}

/// Why two relations cannot be combined.
#[derive(Debug)]
pub enum RelationCombinationError {
    /// The relations do not belong together or their kinds do not combine.
    UndefinedError,
    /// Several relations start from the type `from`.
    MultipleRelationsError { from: String },
    /// A relation without an origin cannot be combined.
    ImpossibleCombination,
}

/// A relation between two types. The direction is from `relation.0` to
/// `relation.1`; a relation without origin relates everything to
/// `relation.1`.
#[derive(Debug)]
pub struct MetaRelation {
    pub name: String,
    pub kind: MetaRelationKind,
    pub relation: (Option<String>, String),
    pub birectional: bool,
}

impl MetaRelationKind {
    /// The kind of the relation read from its other end.
    pub open spec fn inverse_spec(self) -> MetaRelationKind {
        match self {
            MetaRelationKind::ManyToMany => MetaRelationKind::ManyToMany,
            MetaRelationKind::OneToMany => MetaRelationKind::ManyToOne,
            MetaRelationKind::ManyToOne => MetaRelationKind::OneToMany,
            MetaRelationKind::OneToOne => MetaRelationKind::OneToOne,
        }
    }

    /// The kind of the relation read from its other end.
    pub fn inverse(&self) -> (kind: MetaRelationKind)
        ensures
            kind == self.inverse_spec(),
    {
        match self {
            MetaRelationKind::ManyToMany => MetaRelationKind::ManyToMany,
            MetaRelationKind::OneToMany => MetaRelationKind::ManyToOne,
            MetaRelationKind::ManyToOne => MetaRelationKind::OneToMany,
            MetaRelationKind::OneToOne => MetaRelationKind::OneToOne,
        }
    }

    /// The kind of a relation between a field of type `from` and one of
    /// type `to`: a list stands for many, a name for one.
    pub fn new(from: &Type, to: &Type) -> (kind: MetaRelationKind)
        ensures
            kind == match (from.base, to.base) {
                (BaseType::Named(_), BaseType::Named(_)) => MetaRelationKind::OneToOne,
                (BaseType::Named(_), BaseType::List(_)) => MetaRelationKind::OneToMany,
                (BaseType::List(_), BaseType::Named(_)) => MetaRelationKind::ManyToOne,
                (BaseType::List(_), BaseType::List(_)) => MetaRelationKind::ManyToMany,
            },
    {
        match (&from.base, &to.base) {
            (BaseType::Named(_), BaseType::Named(_)) => MetaRelationKind::OneToOne,
            (BaseType::Named(_), BaseType::List(_)) => MetaRelationKind::OneToMany,
            (BaseType::List(_), BaseType::Named(_)) => MetaRelationKind::ManyToOne,
            (BaseType::List(_), BaseType::List(_)) => MetaRelationKind::ManyToMany,
        }
    }

    /// What a relation of this kind becomes when the relation back, of kind
    /// `back`, is found; `None` where the two do not combine.
    pub open spec fn combined(self, back: MetaRelationKind) -> Option<MetaRelationKind> {
        match (self, back) {
            (MetaRelationKind::OneToOne, MetaRelationKind::OneToOne) => Some(MetaRelationKind::OneToOne),
            (MetaRelationKind::OneToOne, MetaRelationKind::OneToMany) => Some(MetaRelationKind::ManyToOne),
            (MetaRelationKind::OneToMany, MetaRelationKind::OneToOne) => Some(MetaRelationKind::OneToMany),
            (MetaRelationKind::OneToMany, MetaRelationKind::OneToMany) => Some(MetaRelationKind::ManyToMany),
            _ => None,
        }
    }
}

/// The inverse of the inverse is the kind itself.
pub proof fn lemma_inverse_is_an_involution(kind: MetaRelationKind)
    ensures
        kind.inverse_spec().inverse_spec() == kind,
{
}

/// Combining two relations gives, read from the other end, what combining
/// them the other way round gives.
pub proof fn lemma_combination_mirrors(forth: MetaRelationKind, back: MetaRelationKind)
    ensures
        forth.combined(back) is Some == back.combined(forth) is Some,
        forth.combined(back) matches Some(kind) ==> back.combined(forth) == Some(kind.inverse_spec()),
{
}

impl RelationCombinationError {
    /// The message of the error.
    pub open spec fn spec_message(self) -> Seq<char> {
        match self {
            RelationCombinationError::UndefinedError =>
                "You have an issue while modelizeing your relations. Try using the `@relation` directive."@,
            RelationCombinationError::MultipleRelationsError { from } => "You have multiple relations starting from `"@
                + from@
                + "`, the relation engine can't define them without a little help. Try using the `@relation` directive."@,
            RelationCombinationError::ImpossibleCombination => "You have an impossible combination ongoing."@,
        }
    }

    /// The message of the error.
    pub fn message(&self) -> (text: String)
        ensures
            text@ == self.spec_message(),
    {
        match self {
            RelationCombinationError::UndefinedError => String::from_str(
                "You have an issue while modelizeing your relations. Try using the `@relation` directive.",
            ),
            RelationCombinationError::MultipleRelationsError { from } => {
                let mut text = String::from_str("You have multiple relations starting from `");
                text.append(from.as_str());
                text.append(
                    "`, the relation engine can't define them without a little help. Try using the `@relation` directive.",
                );
                text
            },
            RelationCombinationError::ImpossibleCombination => String::from_str(
                "You have an impossible combination ongoing.",
            ),
        }
    }
}

/// The name of the relation between the types `a` and `b`: the two names in
/// the order of `str`, joined by `Relate`.
pub open spec fn relation_name(a: Seq<char>, b: Seq<char>) -> Seq<char> {
    if lex_le(vstd::utf8::encode_utf8(a), vstd::utf8::encode_utf8(b)) {
        a + "Relate"@ + b
    } else {
        b + "Relate"@ + a
    }
}

/// Why `forth` cannot be combined with `back`, if it cannot.
pub open spec fn combination_error(forth: MetaRelation, back: MetaRelation) -> Option<RelationCombinationError> {
    if forth.name@ != back.name@ {
        Some(RelationCombinationError::UndefinedError)
    } else if forth.relation.0 is None {
        Some(RelationCombinationError::ImpossibleCombination)
    } else if forth.relation.0->Some_0@ != back.relation.1@ {
        Some(RelationCombinationError::MultipleRelationsError { from: forth.relation.0->Some_0 })
    } else if back.relation.0 is None {
        Some(RelationCombinationError::ImpossibleCombination)
    } else if forth.relation.1@ != back.relation.0->Some_0@ {
        Some(RelationCombinationError::MultipleRelationsError { from: forth.relation.0->Some_0 })
    } else if forth.kind.combined(back.kind) is None {
        Some(RelationCombinationError::UndefinedError)
    } else {
        None
    }
}

impl MetaRelation {
    /// The name of the relation between the types `a` and `b`. It does not
    /// depend on the order of the two.
    pub fn generate_relation_name(a: &str, b: &str) -> (name: String)
        ensures
            name@ == relation_name(a@, b@),
    {
        let (first, second) = if str_le(a, b) {
            (a, b)
        } else {
            (b, a)
        };
        let mut name = String::from_str(first);
        name.append("Relate");
        name.append(second);
        name
    }

    /// The relation from a field of type `from` to one of type `to`, under
    /// `name` or, without one, under the generated name.
    pub fn new(name: Option<String>, from: &Type, to: &Type) -> (relation: MetaRelation)
        ensures
            relation.name@ == match name {
                Some(name) => name@,
                None => relation_name(from.base.base_name(), to.base.base_name()),
            },
            relation.relation.0 matches Some(origin) && origin@ == from.base.base_name(),
            relation.relation.1@ == to.base.base_name(),
            !relation.birectional,
            relation.kind == match (from.base, to.base) {
                (BaseType::Named(_), BaseType::Named(_)) => MetaRelationKind::OneToOne,
                (BaseType::Named(_), BaseType::List(_)) => MetaRelationKind::OneToMany,
                (BaseType::List(_), BaseType::Named(_)) => MetaRelationKind::ManyToOne,
                (BaseType::List(_), BaseType::List(_)) => MetaRelationKind::ManyToMany,
            },
    {
        let base_from = from.base.to_base_type_str();
        let base_to = to.base.to_base_type_str();
        let name = match name {
            Some(name) => name,
            None => MetaRelation::generate_relation_name(base_from, base_to),
        };
        MetaRelation {
            name,
            relation: (Some(String::from_str(base_from)), String::from_str(base_to)),
            birectional: false,
            kind: MetaRelationKind::new(from, to),
        }
    }

    /// The relation of a collection to the type `to`: from everything, one
    /// to many.
    pub fn base_collection_relation(name: String, to: &Type) -> (relation: MetaRelation)
        ensures
            relation.name == name,
            relation.relation.0 is None,
            relation.relation.1@ == to.base.base_name(),
            !relation.birectional,
            relation.kind == MetaRelationKind::OneToMany,
    {
        let base_to = to.base.to_base_type_str();
        MetaRelation {
            name,
            relation: (None, String::from_str(base_to)),
            birectional: false,
            kind: MetaRelationKind::OneToMany,
        }
    }

    /// Combines the relation with the relation back, which has the same
    /// name and the two ends exchanged. The relation becomes bidirectional
    /// and its kind the combination of the two kinds. On an error the
    /// relation is left as it was.
    pub fn with(&mut self, relation: MetaRelation) -> (combined: Result<(), RelationCombinationError>)
        ensures
            final(self).name == old(self).name,
            final(self).relation == old(self).relation,
            match combination_error(*old(self), relation) {
                Some(error) => {
                    &&& combined matches Err(e)
                    &&& e.spec_message() == error.spec_message()
                    &&& final(self).kind == old(self).kind
                    &&& final(self).birectional == old(self).birectional
                },
                None => {
                    &&& combined is Ok
                    &&& Some(final(self).kind) == old(self).kind.combined(relation.kind)
                    &&& final(self).birectional
                },
            },
    {
        if self.name != relation.name {
            return Err(RelationCombinationError::UndefinedError);
        }
        let origin = match &self.relation.0 {
            Some(origin) => origin,
            None => {
                return Err(RelationCombinationError::ImpossibleCombination);
            },
        };
        if *origin != relation.relation.1 {
            return Err(RelationCombinationError::MultipleRelationsError { from: origin.clone() });
        }
        let back_origin = match &relation.relation.0 {
            Some(back_origin) => back_origin,
            None => {
                return Err(RelationCombinationError::ImpossibleCombination);
            },
        };
        if self.relation.1 != *back_origin {
            return Err(RelationCombinationError::MultipleRelationsError { from: origin.clone() });
        }
        let kind = match (self.kind, relation.kind) {
            (MetaRelationKind::OneToOne, MetaRelationKind::OneToOne) => MetaRelationKind::OneToOne,
            (MetaRelationKind::OneToOne, MetaRelationKind::OneToMany) => MetaRelationKind::ManyToOne,
            (MetaRelationKind::OneToMany, MetaRelationKind::OneToOne) => MetaRelationKind::OneToMany,
            (MetaRelationKind::OneToMany, MetaRelationKind::OneToMany) => MetaRelationKind::ManyToMany,
            _ => {
                return Err(RelationCombinationError::UndefinedError);
            },
        };
        self.kind = kind;
        self.birectional = true;
        Ok(())
    }
}

} // verus!
