//! The `@link` directive: `@link(url: String!, as: String, import: [Import], for: Purpose)`.
//!
//! The directive is read from a GraphQL value. Arguments are read in the
//! order in which they stand; where an argument stands twice the later one
//! counts, and the first argument that cannot be read decides the error.

use vstd::prelude::*;
use vstd::string::*;
use crate::registry::value::GraphqlValue;
use crate::text::same_text;

verus! {

/// A `@link` directive.
#[derive(Debug)]
pub struct LinkDirective {
    pub url: String,
    pub alias: Option<String>,
    pub import: Option<Vec<Import>>,
}

/// What a link is for.
#[derive(Debug, Clone, Copy, PartialEq, Eq, Structural)]
pub enum Purpose {
    Security,
    Execution,
}

/// An import of a `@link` directive: a name, or a name with an alias.
#[derive(Debug)]
pub enum Import {
    String(String),
    Qualified(QualifiedImport),
}

/// An import under another name.
#[derive(Debug)]
pub struct QualifiedImport {
    pub name: String,
    pub alias: Option<String>,
}

/// Why a `@link` directive could not be read.
#[derive(Debug)]
pub enum LinkError {
    BadLinkDirective,
    BadUrl,
    BadAs,
    UnknownArgument(String),
    MissingUrl,
    BadImport,
    BadPurpose,
}

/// [`LinkError`] over sequences.
pub enum LinkErrorView {
    BadLinkDirective,
    BadUrl,
    BadAs,
    UnknownArgument(Seq<char>),
    MissingUrl,
    BadImport,
    BadPurpose,
}

/// An import over sequences.
pub enum ImportView {
    String(Seq<char>),
    Qualified { name: Seq<char>, alias: Option<Seq<char>> },
}

/// What has been read of a directive.
pub struct LinkView {
    pub url: Option<Seq<char>>,
    pub alias: Option<Seq<char>>,
    pub import: Option<Seq<ImportView>>,
}

impl View for LinkError {
    type V = LinkErrorView;

    open spec fn view(&self) -> LinkErrorView {
        match *self {
            LinkError::BadLinkDirective => LinkErrorView::BadLinkDirective,
            LinkError::BadUrl => LinkErrorView::BadUrl,
            LinkError::BadAs => LinkErrorView::BadAs,
            LinkError::UnknownArgument(name) => LinkErrorView::UnknownArgument(name@),
            LinkError::MissingUrl => LinkErrorView::MissingUrl,
            LinkError::BadImport => LinkErrorView::BadImport,
            LinkError::BadPurpose => LinkErrorView::BadPurpose,
        }
    }
}

impl View for Import {
    type V = ImportView;

    open spec fn view(&self) -> ImportView {
        match *self {
            Import::String(name) => ImportView::String(name@),
            Import::Qualified(import) => ImportView::Qualified {
                name: import.name@,
                alias: match import.alias {
                    Some(alias) => Some(alias@),
                    None => None,
                },
            },
        }
    }
}

impl LinkDirective {
    /// The directive as what was read of it.
    pub open spec fn view(&self) -> LinkView {
        LinkView {
            url: Some(self.url@),
            alias: match self.alias {
                Some(alias) => Some(alias@),
                None => None,
            },
            import: match self.import {
                Some(import) => Some(views(import@)),
                None => None,
            },
        }
    }
}

/// The imports over sequences.
pub open spec fn views(imports: Seq<Import>) -> Seq<ImportView> {
    Seq::new(imports.len(), |i: int| imports[i]@)
}

/// The text of the last field of `fields` that is named `name`, if there
/// is such a field and its value is text; `Err` if its value is no text.
pub open spec fn last_named(fields: Seq<(String, GraphqlValue)>, name: Seq<char>) -> Option<Result<Seq<char>, ()>>
    decreases fields.len(),
{
    if fields.len() == 0 {
        None
    } else if fields.last().0@ == name {
        Some(
            match fields.last().1 {
                GraphqlValue::String(text) => Ok(text@),
                _ => Err(()),
            },
        )
    } else {
        last_named(fields.drop_last(), name)
    }
}

/// The names of `fields` without repetition, in the order in which each
/// stands first.
pub open spec fn distinct_names(fields: Seq<(String, GraphqlValue)>) -> Seq<Seq<char>>
    decreases fields.len(),
{
    if fields.len() == 0 {
        Seq::empty()
    } else {
        let before = distinct_names(fields.drop_last());
        if before.contains(fields.last().0@) {
            before
        } else {
            before.push(fields.last().0@)
        }
    }
}

/// A qualified import as it is read from `value`: an object with at most
/// two different fields, of which `name` is text and `as`, if it is
/// there, is text too.
pub open spec fn qualified_import_of(value: GraphqlValue) -> Result<ImportView, LinkErrorView> {
    match value {
        GraphqlValue::Object(fields) => if distinct_names(fields@).len() > 2 {
            Err(LinkErrorView::BadImport)
        } else {
            match last_named(fields@, "name"@) {
                Some(Ok(name)) => match last_named(fields@, "as"@) {
                    Some(Ok(alias)) => Ok(ImportView::Qualified { name, alias: Some(alias) }),
                    Some(Err(_)) => Err(LinkErrorView::BadImport),
                    None => Ok(ImportView::Qualified { name, alias: None }),
                },
                _ => Err(LinkErrorView::BadImport),
            }
        },
        _ => Err(LinkErrorView::BadImport),
    }
}

/// An import as it is read from `value`: text is a name, an object a
/// qualified import, anything else an error.
pub open spec fn import_of(value: GraphqlValue) -> Result<ImportView, LinkErrorView> {
    match value {
        GraphqlValue::String(name) => Ok(ImportView::String(name@)),
        GraphqlValue::Object(_) => qualified_import_of(value),
        _ => Err(LinkErrorView::BadImport),
    }
}

/// The imports as they are read from the first `n` of `values`: the first
/// value that is no import decides the error.
pub open spec fn imports_of(values: Seq<GraphqlValue>, n: int) -> Result<Seq<ImportView>, LinkErrorView>
    decreases n,
{
    if n <= 0 {
        Ok(Seq::empty())
    } else {
        match imports_of(values, n - 1) {
            Ok(before) => match import_of(values[n - 1]) {
                Ok(import) => Ok(before.push(import)),
                Err(error) => Err(error),
            },
            Err(error) => Err(error),
        }
    }
}

/// The list of imports as it is read from `value`, which must be a list.
pub open spec fn import_list_of(value: GraphqlValue) -> Result<Seq<ImportView>, LinkErrorView> {
    match value {
        GraphqlValue::List(values) => imports_of(values@, values@.len() as int),
        _ => Err(LinkErrorView::BadImport),
    }
}

/// What is read of a directive from the first `n` of `fields`.
pub open spec fn link_of(fields: Seq<(String, GraphqlValue)>, n: int) -> Result<LinkView, LinkErrorView>
    decreases n,
{
    if n <= 0 {
        Ok(LinkView { url: None, alias: None, import: None })
    } else {
        match link_of(fields, n - 1) {
            Err(error) => Err(error),
            Ok(read) => {
                let (name, value) = fields[n - 1];
                if name@ == "url"@ {
                    match value {
                        GraphqlValue::String(text) => Ok(LinkView { url: Some(text@), ..read }),
                        _ => Err(LinkErrorView::BadUrl),
                    }
                } else if name@ == "as"@ {
                    match value {
                        GraphqlValue::String(text) => Ok(LinkView { alias: Some(text@), ..read }),
                        _ => Err(LinkErrorView::BadAs),
                    }
                } else if name@ == "import"@ {
                    match import_list_of(value) {
                        Ok(imports) => Ok(LinkView { import: Some(imports), ..read }),
                        Err(error) => Err(error),
                    }
                } else {
                    Err(LinkErrorView::UnknownArgument(name@))
                }
            },
        }
    }
}

/// The directive as it is read from `value`: an object whose arguments
/// can all be read and among which is `url`.
pub open spec fn link_directive_of(value: GraphqlValue) -> Result<LinkView, LinkErrorView> {
    match value {
        GraphqlValue::Object(fields) => match link_of(fields@, fields@.len() as int) {
            Ok(read) => if read.url is Some {
                Ok(read)
            } else {
                Err(LinkErrorView::MissingUrl)
            },
            Err(error) => Err(error),
        },
        _ => Err(LinkErrorView::BadLinkDirective),
    }
}

impl LinkError {
    /// The message of the error.
    pub open spec fn spec_message(self) -> Seq<char> {
        match self {
            LinkError::BadLinkDirective => "Bad link directive"@,
            LinkError::BadUrl => "Bad `url` argument in `@link` directive"@,
            LinkError::BadAs => "Bad `as` argument in `@link` directive"@,
            LinkError::UnknownArgument(name) => "Unknown argument `"@ + name@ + "` in `@link` directive"@,
            LinkError::MissingUrl => "Missing `url` argument in `@link` directive"@,
            LinkError::BadImport => "Bad import"@,
            LinkError::BadPurpose => "Bad purpose"@,
        }
    }

    /// The message of the error.
    pub fn message(&self) -> (text: String)
        ensures
            text@ == self.spec_message(),
    {
        match self {
            LinkError::BadLinkDirective => String::from_str("Bad link directive"),
            LinkError::BadUrl => String::from_str("Bad `url` argument in `@link` directive"),
            LinkError::BadAs => String::from_str("Bad `as` argument in `@link` directive"),
            LinkError::UnknownArgument(name) => {
                let mut text = String::from_str("Unknown argument `");
                text.append(name.as_str());
                text.append("` in `@link` directive");
                text
            },
            LinkError::MissingUrl => String::from_str("Missing `url` argument in `@link` directive"),
            LinkError::BadImport => String::from_str("Bad import"),
            LinkError::BadPurpose => String::from_str("Bad purpose"),
        }
    }
}

impl Purpose {
    /// The purpose that `value` spells: `SECURITY` or `EXECUTION`.
    pub fn deserialize(value: &GraphqlValue) -> (purpose: Result<Purpose, LinkError>)
        ensures
            match *value {
                GraphqlValue::String(text) => if text@ == "SECURITY"@ {
                    purpose == Ok::<Purpose, LinkError>(Purpose::Security)
                } else if text@ == "EXECUTION"@ {
                    purpose == Ok::<Purpose, LinkError>(Purpose::Execution)
                } else {
                    purpose matches Err(LinkError::BadPurpose)
                },
                _ => purpose matches Err(LinkError::BadPurpose),
            },
    {
        match value {
            GraphqlValue::String(text) => {
                if same_text(text.as_str(), "SECURITY") {
                    Ok(Purpose::Security)
                } else if same_text(text.as_str(), "EXECUTION") {
                    Ok(Purpose::Execution)
                } else {
                    Err(LinkError::BadPurpose)
                }
            },
            _ => Err(LinkError::BadPurpose),
        }
    }
}

/// Finds the text of the last field named `name`.
fn find_last_named(fields: &Vec<(String, GraphqlValue)>, name: &str) -> (found: Option<Result<String, ()>>)
    ensures
        match last_named(fields@, name@) {
            Some(Ok(text)) => found matches Some(Ok(t)) && t@ == text,
            Some(Err(_)) => found matches Some(Err(_)),
            None => found is None,
        },
{
    let mut remaining = fields.len();
    assert(fields@.take(remaining as int) =~= fields@);
    while remaining > 0
        invariant
            remaining <= fields@.len(),
            last_named(fields@, name@) == last_named(fields@.take(remaining as int), name@),
        decreases remaining,
    {
        assert(fields@.take(remaining as int).drop_last() =~= fields@.take(remaining as int - 1));
        assert(fields@.take(remaining as int).last() == fields@[remaining as int - 1]);
        if same_text(fields[remaining - 1].0.as_str(), name) {
            return match &fields[remaining - 1].1 {
                GraphqlValue::String(text) => Some(Ok(text.clone())),
                _ => Some(Err(())),
            };
        }
        remaining -= 1;
    }
    None
}

/// Counts the different names of `fields`.
fn count_distinct_names(fields: &Vec<(String, GraphqlValue)>) -> (count: usize)
    ensures
        count == distinct_names(fields@).len(),
{
    let mut seen: Vec<&str> = Vec::new();
    let mut index: usize = 0;
    assert(fields@.take(0) =~= Seq::empty());
    while index < fields.len()
        invariant
            index <= fields@.len(),
            seen@.len() == distinct_names(fields@.take(index as int)).len(),
            seen@.len() <= index,
            forall|k: int| 0 <= k < seen@.len() ==> (#[trigger] seen@[k])@ == distinct_names(
                fields@.take(index as int),
            )[k],
        decreases fields@.len() - index,
    {
        let name = fields[index].0.as_str();
        let ghost before = distinct_names(fields@.take(index as int));
        assert(fields@.take(index as int + 1).drop_last() =~= fields@.take(index as int));
        assert(fields@.take(index as int + 1).last() == fields@[index as int]);
        let mut known = false;
        let mut k: usize = 0;
        while k < seen.len()
            invariant
                k <= seen@.len(),
                seen@.len() == before.len(),
                forall|j: int| 0 <= j < seen@.len() ==> (#[trigger] seen@[j])@ == before[j],
                known == exists|j: int| 0 <= j < k && before[j] == name@,
            decreases seen@.len() - k,
        {
            if same_text(seen[k], name) {
                known = true;
                assert(before[k as int] == name@);
            }
            k += 1;
        }
        assert(known == before.contains(name@));
        if !known {
            seen.push(name);
        }
        index += 1;
    }
    assert(fields@.take(index as int) =~= fields@);
    seen.len()
}

impl QualifiedImport {
    /// Reads a qualified import from `value`.
    pub fn deserialize(value: &GraphqlValue) -> (import: Result<QualifiedImport, LinkError>)
        ensures
            match qualified_import_of(*value) {
                Ok(expected) => import matches Ok(read) && Import::Qualified(read)@ == expected,
                Err(error) => import matches Err(e) && e@ == error,
            },
    {
        let fields = match value {
            GraphqlValue::Object(fields) => fields,
            _ => {
                return Err(LinkError::BadImport);
            },
        };
        if count_distinct_names(fields) > 2 {
            return Err(LinkError::BadImport);
        }
        let name = match find_last_named(fields, "name") {
            Some(Ok(name)) => name,
            _ => {
                return Err(LinkError::BadImport);
            },
        };
        let alias = match find_last_named(fields, "as") {
            Some(Ok(alias)) => Some(alias),
            Some(Err(_)) => {
                return Err(LinkError::BadImport);
            },
            None => None,
        };
        Ok(QualifiedImport { name, alias })
    }
}

impl Import {
    /// Reads an import from `value`.
    pub fn deserialize(value: &GraphqlValue) -> (import: Result<Import, LinkError>)
        ensures
            match import_of(*value) {
                Ok(expected) => import matches Ok(read) && read@ == expected,
                Err(error) => import matches Err(e) && e@ == error,
            },
    {
        match value {
            GraphqlValue::String(name) => Ok(Import::String(name.clone())),
            GraphqlValue::Object(_) => match QualifiedImport::deserialize(value) {
                Ok(import) => Ok(Import::Qualified(import)),
                Err(error) => Err(error),
            },
            _ => Err(LinkError::BadImport),
        }
    }

    /// Reads a list of imports from `value`.
    pub fn deserialize_list(value: &GraphqlValue) -> (imports: Result<Vec<Import>, LinkError>)
        ensures
            match import_list_of(*value) {
                Ok(expected) => imports matches Ok(read) && views(read@) == expected,
                Err(error) => imports matches Err(e) && e@ == error,
            },
    {
        let values = match value {
            GraphqlValue::List(values) => values,
            _ => {
                return Err(LinkError::BadImport);
            },
        };
        let mut imports: Vec<Import> = Vec::new();
        let mut index: usize = 0;
        assert(views(imports@) =~= Seq::empty());
        while index < values.len()
            invariant
                index <= values@.len(),
                *value == GraphqlValue::List(*values),
                imports_of(values@, index as int) == Ok::<Seq<ImportView>, LinkErrorView>(views(imports@)),
            decreases values@.len() - index,
        {
            match Import::deserialize(&values[index]) {
                Ok(import) => {
                    let ghost before = views(imports@);
                    imports.push(import);
                    assert(views(imports@) =~= before.push(import@));
                },
                Err(error) => {
                    proof {
                        assert(imports_of(values@, index as int + 1) == Err::<Seq<ImportView>, LinkErrorView>(
                            error@,
                        ));
                        lemma_imports_error_stays(values@, index as int + 1, values@.len() as int);
                    }
                    return Err(error);
                },
            }
            index += 1;
        }
        Ok(imports)
    }
}

/// Once a value is no import, reading more values does not change the
/// error.
proof fn lemma_imports_error_stays(values: Seq<GraphqlValue>, n: int, m: int)
    requires
        0 <= n <= m,
        imports_of(values, n) is Err,
    ensures
        imports_of(values, m) == imports_of(values, n),
    decreases m - n,
{
    if n < m {
        lemma_imports_error_stays(values, n, m - 1);
    }
}

/// Once an argument cannot be read, reading more arguments does not change
/// the error.
proof fn lemma_link_error_stays(fields: Seq<(String, GraphqlValue)>, n: int, m: int)
    requires
        0 <= n <= m,
        link_of(fields, n) is Err,
    ensures
        link_of(fields, m) == link_of(fields, n),
    decreases m - n,
{
    if n < m {
        lemma_link_error_stays(fields, n, m - 1);
    }
}

impl LinkDirective {
    /// Reads a `@link` directive from `value`.
    pub fn deserialize(value: &GraphqlValue) -> (directive: Result<LinkDirective, LinkError>)
        ensures
            match link_directive_of(*value) {
                Ok(expected) => directive matches Ok(read) && read@ == expected,
                Err(error) => directive matches Err(e) && e@ == error,
            },
    {
        let fields = match value {
            GraphqlValue::Object(fields) => fields,
            _ => {
                return Err(LinkError::BadLinkDirective);
            },
        };
        let mut url: Option<String> = None;
        let mut alias: Option<String> = None;
        let mut import: Option<Vec<Import>> = None;
        let mut index: usize = 0;
        while index < fields.len()
            invariant
                index <= fields@.len(),
                *value == GraphqlValue::Object(*fields),
                link_of(fields@, index as int) == Ok::<LinkView, LinkErrorView>(
                    LinkView {
                        url: match url {
                            Some(url) => Some(url@),
                            None => None,
                        },
                        alias: match alias {
                            Some(alias) => Some(alias@),
                            None => None,
                        },
                        import: match import {
                            Some(import) => Some(views(import@)),
                            None => None,
                        },
                    },
                ),
            decreases fields@.len() - index,
        {
            let field = &fields[index];
            let name = field.0.as_str();
            if same_text(name, "url") {
                match &field.1 {
                    GraphqlValue::String(text) => {
                        url = Some(text.clone());
                    },
                    _ => {
                        proof {
                            assert(link_of(fields@, index as int + 1) == Err::<LinkView, LinkErrorView>(LinkErrorView::BadUrl));
                            lemma_link_error_stays(fields@, index as int + 1, fields@.len() as int);
                        }
                        return Err(LinkError::BadUrl);
                    },
                }
            } else if same_text(name, "as") {
                match &field.1 {
                    GraphqlValue::String(text) => {
                        alias = Some(text.clone());
                    },
                    _ => {
                        proof {
                            assert(link_of(fields@, index as int + 1) == Err::<LinkView, LinkErrorView>(LinkErrorView::BadAs));
                            lemma_link_error_stays(fields@, index as int + 1, fields@.len() as int);
                        }
                        return Err(LinkError::BadAs);
                    },
                }
            } else if same_text(name, "import") {
                match Import::deserialize_list(&field.1) {
                    Ok(imports) => {
                        import = Some(imports);
                    },
                    Err(error) => {
                        proof {
                            assert(link_of(fields@, index as int + 1) == Err::<LinkView, LinkErrorView>(error@));
                            lemma_link_error_stays(fields@, index as int + 1, fields@.len() as int);
                        }
                        return Err(error);
                    },
                }
            } else {
                proof {
                    assert(link_of(fields@, index as int + 1) == Err::<LinkView, LinkErrorView>(
                        LinkErrorView::UnknownArgument(field.0@),
                    ));
                    lemma_link_error_stays(fields@, index as int + 1, fields@.len() as int);
                }
                return Err(LinkError::UnknownArgument(field.0.clone()));
            }
            index += 1;
        }
        match url {
            Some(url) => Ok(LinkDirective { url, alias, import }),
            None => Err(LinkError::MissingUrl),
        }
    }
}

} // verus!
