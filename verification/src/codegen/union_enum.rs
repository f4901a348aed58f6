//! The plan of the enum that is generated for a union: its derives, its
//! variants and the methods that tell the variants apart.
//!
//! Turning the plan into tokens is left to the generator.

use case::CaseExt;
use vstd::prelude::*;
use vstd::string::*;

verus! {

/// What the variants of a union hold.
#[derive(Clone, Copy, Debug, PartialEq, Eq, Structural)]
pub enum UnionKind {
    /// Records, which can or cannot be copied.
    Record { copy: bool },
    /// Ids.
    Id,
    /// Ids that are packed into bits.
    BitpackedId,
}

/// The type that a variant holds.
#[derive(Debug)]
pub struct StorageType {
    pub name: String,
    pub is_copy: bool,
    pub is_id: bool,
}

/// A variant of the union: its name and the type it holds, if it holds
/// one.
#[derive(Debug)]
pub struct VariantContext {
    pub name: String,
    pub value: Option<StorageType>,
}

/// The methods that are generated for a variant.
#[derive(Debug)]
pub struct VariantMethods {
    /// The name of the method that tests for the variant.
    pub is_variant: String,
    /// The method that gives the variant's value, for a variant that has
    /// one.
    pub as_variant: Option<AsVariantMethod>,
}

/// The method that gives the value of a variant.
#[derive(Debug)]
pub struct AsVariantMethod {
    pub name: String,
    /// The type that the method gives.
    pub ty: String,
    /// Whether the value is copied out; else a reference to it is given.
    pub by_value: bool,
    /// The name that the value is bound to in the method: `id` for an id
    /// that is copied out, else `item`.
    pub binding: &'static str,
}

/// The union that an enum is generated for.
#[derive(Debug)]
pub struct Union {
    pub enum_name: String,
    pub kind: UnionKind,
    pub derive: Vec<String>,
}

/// What is generated for a union: the enum with its derives and variants,
/// then for each variant the conversion into the enum, where it has one,
/// and the methods that tell the variants apart.
#[derive(Debug)]
pub struct GeneratedEnum {
    pub enum_name: String,
    pub derives: Vec<String>,
    pub variants: Vec<String>,
    pub from_impls: Vec<bool>,
    pub methods: Vec<VariantMethods>,
    pub allow_unused: bool,
}

/// Whether `c` is an upper-case letter of ASCII.
pub open spec fn is_ascii_upper(c: char) -> bool {
    'A' <= c && c <= 'Z'
}

/// The lower-case letter for an upper-case letter of ASCII.
pub open spec fn ascii_lower(c: char) -> char {
    ((c as u8) + 32) as u8 as char
}

/// `name` in snake case: every upper-case letter of ASCII becomes its
/// lower-case letter, after an underscore unless it is the first character.
/// Every other character stays.
pub open spec fn snake_case(name: Seq<char>) -> Seq<char>
    decreases name.len(),
{
    if name.len() == 0 {
        name
    } else if !is_ascii_upper(name.last()) {
        snake_case(name.drop_last()).push(name.last())
    } else if name.len() == 1 {
        seq![ascii_lower(name.last())]
    } else {
        snake_case(name.drop_last()).push('_').push(ascii_lower(name.last()))
    }
}

/// The derives of the enum beside those for serialization: the derives
/// that the union asks for, then those that its kind allows.
pub open spec fn derives_of(asked: Seq<Seq<char>>, kind: UnionKind) -> Seq<Seq<char>> {
    asked + match kind {
        UnionKind::Record { copy } => if copy {
            seq!["Clone"@, "Copy"@]
        } else {
            seq!["Clone"@]
        },
        UnionKind::Id | UnionKind::BitpackedId => seq![
            "Clone"@,
            "Copy"@,
            "PartialEq"@,
            "Eq"@,
            "PartialOrd"@,
            "Ord"@,
            "Hash"@,
        ],
    }
}

/// The texts of `names`.
pub open spec fn texts(names: Seq<String>) -> Seq<Seq<char>> {
    Seq::new(names.len(), |i: int| names[i]@)
}

/// The derives of the enum beside those for serialization.
pub fn additional_derives(asked: &Vec<String>, kind: UnionKind) -> (derives: Vec<String>)
    ensures
        texts(derives@) == derives_of(texts(asked@), kind),
{
    let mut derives: Vec<String> = Vec::new();
    let mut index: usize = 0;
    while index < asked.len()
        invariant
            index <= asked@.len(),
            derives@.len() == index,
            forall|i: int| 0 <= i < index ==> (#[trigger] derives@[i])@ == asked@[i]@,
        decreases asked@.len() - index,
    {
        derives.push(asked[index].clone());
        index += 1;
    }
    let ghost copied = texts(derives@);
    assert(copied =~= texts(asked@));
    match kind {
        UnionKind::Record { copy } => {
            derives.push(String::from_str("Clone"));
            if copy {
                derives.push(String::from_str("Copy"));
            }
        },
        UnionKind::Id | UnionKind::BitpackedId => {
            derives.push(String::from_str("Clone"));
            derives.push(String::from_str("Copy"));
            derives.push(String::from_str("PartialEq"));
            derives.push(String::from_str("Eq"));
            derives.push(String::from_str("PartialOrd"));
            derives.push(String::from_str("Ord"));
            derives.push(String::from_str("Hash"));
        },
    }
    assert(texts(derives@) =~= derives_of(texts(asked@), kind));
    derives
}

/// Whether the generated methods are marked as allowed to be unused: they
/// are unless the domain's types are private.
pub fn allow_unused(public_visibility: &str) -> (allowed: bool)
    ensures
        allowed == (public_visibility@.len() > 0),
{
    public_visibility.unicode_len() > 0
}

/// The declaration of a variant: its name, followed by the held type in
/// parentheses if it holds one.
pub fn variant_declaration(variant: &VariantContext) -> (declaration: String)
    ensures
        declaration@ == match variant.value {
            Some(value) => variant.name@ + "("@ + value.name@ + ")"@,
            None => variant.name@,
        },
{
    let mut declaration = variant.name.clone();
    match &variant.value {
        Some(value) => {
            declaration.append("(");
            declaration.append(value.name.as_str());
            declaration.append(")");
        },
        None => {},
    }
    declaration
}

/// Whether a conversion from the held type into the enum is generated for
/// the variant: only for a variant that holds a value.
pub fn has_from_impl(variant: &VariantContext) -> (generated: bool)
    ensures
        generated == variant.value is Some,
{
    variant.value.is_some()
}

/// The methods for a variant: `is_` and, for a variant with a value,
/// `as_`, each followed by the variant's name in snake case.
pub fn variant_methods(variant: &VariantContext) -> (methods: VariantMethods)
    ensures
        methods.is_variant@ == "is_"@ + snake_case(variant.name@),
        match variant.value {
            Some(value) => {
                &&& methods.as_variant matches Some(method)
                &&& method.name@ == "as_"@ + snake_case(variant.name@)
                &&& method.ty@ == value.name@
                &&& method.by_value == value.is_copy
                &&& method.binding@ == if value.is_copy && value.is_id {
                    "id"@
                } else {
                    "item"@
                }
            },
            None => methods.as_variant is None,
        },
{
    let snake = to_snake(variant.name.as_str());
    let mut is_variant = String::from_str("is_");
    is_variant.append(snake.as_str());
    let as_variant = match &variant.value {
        Some(value) => {
            let mut name = String::from_str("as_");
            name.append(snake.as_str());
            let binding = if value.is_copy && value.is_id {
                "id"
            } else {
                "item"
            };
            Some(AsVariantMethod { name, ty: value.name.clone(), by_value: value.is_copy, binding })
        },
        None => None,
    };
    VariantMethods { is_variant, as_variant }
}

/// Plans the enum for `union` with the variants `variants`. The variants
/// keep their order in every part of the plan.
pub fn generate_enum(public_visibility: &str, union: &Union, variants: &Vec<VariantContext>) -> (generated:
    GeneratedEnum)
    ensures
        generated.enum_name@ == union.enum_name@,
        texts(generated.derives@) == derives_of(texts(union.derive@), union.kind),
        generated.allow_unused == (public_visibility@.len() > 0),
        generated.variants@.len() == variants@.len(),
        generated.from_impls@.len() == variants@.len(),
        generated.methods@.len() == variants@.len(),
        forall|i: int|
            0 <= i < variants@.len() ==> {
                &&& (#[trigger] generated.variants@[i])@ == match variants@[i].value {
                    Some(value) => variants@[i].name@ + "("@ + value.name@ + ")"@,
                    None => variants@[i].name@,
                }
                &&& generated.from_impls@[i] == variants@[i].value is Some
                &&& generated.methods@[i].is_variant@ == "is_"@ + snake_case(variants@[i].name@)
                &&& generated.methods@[i].as_variant is Some == variants@[i].value is Some
            },
{
    let mut declarations: Vec<String> = Vec::new();
    let mut from_impls: Vec<bool> = Vec::new();
    let mut methods: Vec<VariantMethods> = Vec::new();
    let mut index: usize = 0;
    while index < variants.len()
        invariant
            index <= variants@.len(),
            declarations@.len() == index,
            from_impls@.len() == index,
            methods@.len() == index,
            forall|i: int|
                0 <= i < index ==> {
                    &&& (#[trigger] declarations@[i])@ == match variants@[i].value {
                        Some(value) => variants@[i].name@ + "("@ + value.name@ + ")"@,
                        None => variants@[i].name@,
                    }
                    &&& from_impls@[i] == variants@[i].value is Some
                    &&& methods@[i].is_variant@ == "is_"@ + snake_case(variants@[i].name@)
                    &&& methods@[i].as_variant is Some == variants@[i].value is Some
                },
        decreases variants@.len() - index,
    {
        let ghost planned = (declarations@, from_impls@, methods@);
        declarations.push(variant_declaration(&variants[index]));
        from_impls.push(has_from_impl(&variants[index]));
        methods.push(variant_methods(&variants[index]));
        assert forall|i: int| 0 <= i < index implies {
            &&& #[trigger] declarations@[i] == planned.0[i]
            &&& from_impls@[i] == planned.1[i]
            &&& methods@[i] == planned.2[i]
        } by {}
        index += 1;
    }
    GeneratedEnum {
        enum_name: union.enum_name.clone(),
        derives: additional_derives(&union.derive, union.kind),
        variants: declarations,
        from_impls,
        methods,
        allow_unused: allow_unused(public_visibility),
    }
}

/// `CaseExt::to_snake` of the `case` crate: the name with every upper-case
/// letter of ASCII in lower case, and an underscore before each but one at
/// the start.
#[verifier::external_body]
fn to_snake(name: &str) -> (snake: String)
    ensures
        snake@ == snake_case(name@),
{
    name.to_snake()
}

} // verus!
