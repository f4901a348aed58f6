//! HTTP headers as extensions see them.
//!
//! The headers are an `http::HeaderMap`. Names are matched without regard
//! to case; a name may have several values, which keep the order in which
//! they were added.

use vstd::prelude::*;

verus! {

#[verifier::external_type_specification]
#[verifier::external_body]
#[verifier::reject_recursive_types(T)]
pub struct ExHeaderMap<T>(http::HeaderMap<T>);

#[verifier::external_type_specification]
#[verifier::external_body]
pub struct ExHeaderValue(http::HeaderValue);

/// HTTP headers.
#[derive(Debug)]
pub struct HttpHeaders(pub(crate) http::HeaderMap);

/// HTTP headers of the request to the gateway.
#[derive(Debug)]
pub struct GatewayHeaders(pub HttpHeaders);

/// HTTP headers of the request to a subgraph.
#[derive(Debug)]
pub struct SubgraphHeaders(pub HttpHeaders);

/// Why a header could not be written.
#[derive(Clone, Copy, Debug, PartialEq, Eq, Structural)]
pub enum HeaderError {
    /// The name is no header name, a value is no header value, or the map
    /// is full.
    Rejected,
}

/// A value that names a header to look up.
pub trait AsHeaderName {
    /// The name as text.
    spec fn text(&self) -> Seq<char>;

    /// The name as text.
    fn as_str(&self) -> (name: &str)
        ensures
            name@ == self.text(),
    ;
}

/// A value that names a header to write.
pub trait IntoHeaderName {
    /// The name as text.
    spec fn text(&self) -> Seq<char>;

    /// The name as text.
    fn into_header_name(self) -> (name: String)
        ensures
            name@ == self.text(),
    ;
}

impl AsHeaderName for &str {
    open spec fn text(&self) -> Seq<char> {
        self@
    }

    fn as_str(&self) -> (name: &str) {
        self
    }
}

impl AsHeaderName for String {
    open spec fn text(&self) -> Seq<char> {
        self@
    }

    fn as_str(&self) -> (name: &str) {
        String::as_str(self)
    }
}

impl AsHeaderName for &String {
    open spec fn text(&self) -> Seq<char> {
        self@
    }

    fn as_str(&self) -> (name: &str) {
        String::as_str(self)
    }
}

impl IntoHeaderName for &'static str {
    open spec fn text(&self) -> Seq<char> {
        self@
    }

    fn into_header_name(self) -> (name: String) {
        self.to_owned()
    }
}

impl IntoHeaderName for String {
    open spec fn text(&self) -> Seq<char> {
        self@
    }

    fn into_header_name(self) -> (name: String) {
        self
    }
}

/// The values that the map holds, by header name in lower case, each list
/// in the order in which the values were added. No list is empty.
pub uninterp spec fn header_values(headers: http::HeaderMap) -> Map<Seq<char>, Seq<Seq<u8>>>;

/// The longest header name, in bytes.
pub const MAX_HEADER_NAME_LEN: usize = 65535;

/// Whether `c` may stand in a header name: a letter or digit of ASCII or
/// one of the marks that a token may hold.
pub open spec fn is_header_name_char(c: char) -> bool {
    ||| 'a' <= c && c <= 'z'
    ||| 'A' <= c && c <= 'Z'
    ||| '0' <= c && c <= '9'
    ||| c == '!' || c == '#' || c == '$' || c == '%' || c == '&' || c == '\'' || c == '*' || c == '+'
    ||| c == '-' || c == '.' || c == '^' || c == '_' || c == '`' || c == '|' || c == '~'
}

/// The character in lower case if it is an upper-case letter of ASCII, else
/// the character itself.
pub open spec fn header_name_lower(c: char) -> char {
    if 'A' <= c && c <= 'Z' {
        ((c as u8) + 32) as u8 as char
    } else {
        c
    }
}

/// Whether `name` is a header name: not empty, not longer than
/// [`MAX_HEADER_NAME_LEN`], and made of characters that may stand in one.
pub open spec fn is_header_name(name: Seq<char>) -> bool {
    &&& 0 < name.len() <= MAX_HEADER_NAME_LEN
    &&& forall|i: int| 0 <= i < name.len() ==> is_header_name_char(#[trigger] name[i])
}

/// The form under which the map files the header `name`: the name in lower
/// case if it is a header name, nothing if it is none.
pub open spec fn header_key(name: Seq<char>) -> Option<Seq<char>> {
    if is_header_name(name) {
        Some(name.map_values(|c: char| header_name_lower(c)))
    } else {
        None
    }
}

/// Whether `bytes` can be a header value: every byte is a tab or at least
/// 32, and none is 127.
pub open spec fn is_header_value(bytes: Seq<u8>) -> bool {
    forall|i: int| 0 <= i < bytes.len() ==> bytes[i] == 9 || (#[trigger] bytes[i] >= 32 && bytes[i] != 127)
}

/// The byte sequences of `values`.
pub open spec fn bytes_of(values: Seq<Vec<u8>>) -> Seq<Seq<u8>> {
    Seq::new(values.len(), |i: int| values[i]@)
}

/// The values of the header `name` in `values`, none if the header is
/// absent or the name is no header name.
pub open spec fn values_of(values: Map<Seq<char>, Seq<Seq<u8>>>, name: Seq<char>) -> Seq<Seq<u8>> {
    match header_key(name) {
        Some(key) => if values.dom().contains(key) {
            values[key]
        } else {
            Seq::empty()
        },
        None => Seq::empty(),
    }
}

/// The headers with `value` added to the header `name` under `key`.
pub open spec fn with_value(values: Map<Seq<char>, Seq<Seq<u8>>>, key: Seq<char>, value: Seq<u8>) -> Map<
    Seq<char>,
    Seq<Seq<u8>>,
> {
    if values.dom().contains(key) {
        values.insert(key, values[key].push(value))
    } else {
        values.insert(key, seq![value])
    }
}

/// The headers without the header `name`.
pub open spec fn without(values: Map<Seq<char>, Seq<Seq<u8>>>, name: Seq<char>) -> Map<Seq<char>, Seq<Seq<u8>>> {
    match header_key(name) {
        Some(key) => values.remove(key),
        None => values,
    }
}

/// The values of the entries of `entries` that stand under `key`, in
/// order.
pub open spec fn entry_values(entries: Seq<(String, Vec<u8>)>, key: Seq<char>) -> Seq<Seq<u8>> {
    Seq::new(entries.len(), |i: int| i).filter(|i: int| entries[i].0@ == key).map_values(|i: int| entries[i].1@)
}

/// Whether `entries` lists what `values` holds: under every name its values
/// in order, and nothing under other names.
pub open spec fn lists(entries: Seq<(String, Vec<u8>)>, values: Map<Seq<char>, Seq<Seq<u8>>>) -> bool {
    forall|key: Seq<char>| #[trigger]
        entry_values(entries, key) == if values.dom().contains(key) {
            values[key]
        } else {
            Seq::empty()
        }
}

/// Adding `values` to the header under `key`, one after the other.
pub open spec fn with_values(headers: Map<Seq<char>, Seq<Seq<u8>>>, key: Seq<char>, values: Seq<Seq<u8>>) -> Map<
    Seq<char>,
    Seq<Seq<u8>>,
>
    decreases values.len(),
{
    if values.len() == 0 {
        headers
    } else {
        with_value(with_values(headers, key, values.drop_last()), key, values.last())
    }
}

/// The headers with the header `name` set to `values`, in place of any
/// values it has. A name that is no header name sets nothing.
pub open spec fn with_header(headers: Map<Seq<char>, Seq<Seq<u8>>>, name: Seq<char>, values: Seq<Seq<u8>>) -> Map<
    Seq<char>,
    Seq<Seq<u8>>,
> {
    match header_key(name) {
        Some(key) => with_values(headers.remove(key), key, values),
        None => headers,
    }
}

impl HttpHeaders {
    /// The values of every header, by its name in lower case.
    pub closed spec fn view(&self) -> Map<Seq<char>, Seq<Seq<u8>>> {
        header_values(self.0)
    }

    /// No headers.
    pub fn new() -> (headers: HttpHeaders)
        ensures
            headers@.dom() == Set::<Seq<char>>::empty(),
    {
        HttpHeaders(headers_new())
    }

    /// The first value of the header `name`, if the header is present.
    pub fn get<N: AsHeaderName>(&self, name: N) -> (value: Option<Vec<u8>>)
        ensures
            match value {
                Some(v) => values_of(self@, name.text()).len() > 0 && v@ == values_of(self@, name.text())[0],
                None => values_of(self@, name.text()).len() == 0,
            },
    {
        let mut values = headers_get_all(&self.0, name.as_str());
        if values.len() == 0 {
            None
        } else {
            Some(values.swap_remove(0))
        }
    }

    /// All values of the header `name`, in the order in which they were
    /// added; none if the header is absent.
    pub fn get_all<N: AsHeaderName>(&self, name: N) -> (values: Vec<Vec<u8>>)
        ensures
            bytes_of(values@) == values_of(self@, name.text()),
    {
        headers_get_all(&self.0, name.as_str())
    }

    /// Whether the header `name` is present.
    pub fn has<N: AsHeaderName>(&self, name: N) -> (present: bool)
        ensures
            present == (header_key(name.text()) matches Some(key) && self@.dom().contains(key)),
    {
        headers_contains(&self.0, name.as_str())
    }

    /// Sets the values of the header `name`, in place of any it has. If a
    /// value is rejected, the values before it are set and the rest are
    /// not.
    pub fn set<N: IntoHeaderName>(&mut self, name: N, values: Vec<Vec<u8>>) -> (done: Result<(), HeaderError>)
        ensures
            done is Ok ==> final(self)@ == with_header(old(self)@, name.text(), bytes_of(values@)),
            done is Ok && header_key(name.text()) is None ==> values@.len() == 0,
            done is Err ==> exists|set: int|
                0 <= set < values@.len() && final(self)@ == #[trigger] with_header(
                    old(self)@,
                    name.text(),
                    bytes_of(values@).take(set),
                ),
    {
        let header = name.into_header_name();
        headers_remove(&mut self.0, header.as_str());
        let mut index: usize = 0;
        while index < values.len()
            invariant
                index <= values@.len(),
                header@ == name.text(),
                self@ == with_header(old(self)@, header@, bytes_of(values@).take(index as int)),
                header_key(header@) is None ==> index == 0,
            decreases values@.len() - index,
        {
            if !headers_append(&mut self.0, header.as_str(), values[index].as_slice()) {
                return Err(HeaderError::Rejected);
            }
            proof {
                let done = bytes_of(values@).take(index as int + 1);
                assert(done.drop_last() =~= bytes_of(values@).take(index as int));
                assert(done.last() == values@[index as int]@);
            }
            index += 1;
        }
        proof {
            assert(bytes_of(values@).take(index as int) =~= bytes_of(values@));
        }
        Ok(())
    }

    /// Removes the header `name` and returns its first value, if it was
    /// present.
    pub fn remove<N: AsHeaderName>(&mut self, name: N) -> (value: Option<Vec<u8>>)
        ensures
            final(self)@ == without(old(self)@, name.text()),
            match value {
                Some(v) => values_of(old(self)@, name.text()).len() > 0 && v@ == values_of(old(self)@, name.text())[0],
                None => values_of(old(self)@, name.text()).len() == 0,
            },
    {
        headers_remove(&mut self.0, name.as_str())
    }

    /// Adds a value to the header `name`. The values that the header has
    /// stay, in their order, before the new one.
    pub fn append<N: AsHeaderName>(&mut self, name: N, value: Vec<u8>) -> (done: Result<(), HeaderError>)
        ensures
            match done {
                Ok(()) => header_key(name.text()) matches Some(key) && is_header_value(value@) && final(self)@
                    == with_value(old(self)@, key, value@),
                Err(_) => final(self)@ == old(self)@,
            },
            (header_key(name.text()) is None || !is_header_value(value@)) ==> done is Err,
    {
        HttpHeaders::appended(headers_append(&mut self.0, name.as_str(), value.as_slice()))
    }

    /// What `append` returns for what the map answered: success where the
    /// value was appended, else the rejection.
    pub fn appended(appended: bool) -> (done: Result<(), HeaderError>)
        ensures
            done == if appended {
                Ok::<(), HeaderError>(())
            } else {
                Err::<(), HeaderError>(HeaderError::Rejected)
            },
    {
        if appended {
            Ok(())
        } else {
            Err(HeaderError::Rejected)
        }
    }

    /// Every header with each of its values: a name with three values is
    /// listed three times. The order of the names is arbitrary; the values
    /// of one name keep their order.
    pub fn iter(&self) -> (entries: Vec<(String, Vec<u8>)>)
        ensures
            lists(entries@, self@),
    {
        headers_entries(&self.0)
    }
}

impl GatewayHeaders {
    /// The headers.
    pub fn headers(&self) -> (headers: &HttpHeaders)
        ensures
            *headers == self.0,
    {
        &self.0
    }
}

impl SubgraphHeaders {
    /// The headers.
    pub fn headers(&self) -> (headers: &HttpHeaders)
        ensures
            *headers == self.0,
    {
        &self.0
    }
}

/// `HeaderMap::new`: a map without headers.
#[verifier::external_body]
fn headers_new() -> (created: http::HeaderMap)
    ensures
        header_values(created).dom() == Set::<Seq<char>>::empty(),
{
    http::HeaderMap::new()
}

/// `HeaderMap::get_all` with a `&str` key, each value copied out by
/// `HeaderValue::as_bytes`: the values of the header in order, none if the
/// header is absent or the name is no header name.
#[verifier::external_body]
fn headers_get_all(headers: &http::HeaderMap, name: &str) -> (values: Vec<Vec<u8>>)
    ensures
        bytes_of(values@) == values_of(header_values(*headers), name@),
{
    headers.get_all(name).iter().map(|value| value.as_bytes().to_vec()).collect()
}

/// `HeaderMap::contains_key` with a `&str` key: whether the map holds the
/// header, which it never does for a name that is no header name.
#[verifier::external_body]
fn headers_contains(headers: &http::HeaderMap, name: &str) -> (present: bool)
    ensures
        present == (header_key(name@) matches Some(key) && header_values(*headers).dom().contains(key)),
{
    headers.contains_key(name)
}

/// `HeaderMap::try_append` with the name made by `HeaderName::from_bytes`
/// and the value by `HeaderValue::from_bytes`. Where it returns `true` the
/// value stands at the end of the header's values; where it returns
/// `false`, because the name or the value was refused or the map is full,
/// the map is unchanged.
#[verifier::external_body]
fn headers_append(headers: &mut http::HeaderMap, name: &str, value: &[u8]) -> (appended: bool)
    ensures
        appended ==> header_key(name@) is Some && is_header_value(value@),
        appended ==> header_values(*final(headers)) == with_value(
            header_values(*old(headers)),
            header_key(name@)->Some_0,
            value@,
        ),
        !appended ==> header_values(*final(headers)) == header_values(*old(headers)),
{
    match (http::HeaderName::from_bytes(name.as_bytes()), http::HeaderValue::from_bytes(value)) {
        (Ok(name), Ok(value)) => headers.try_append(name, value).is_ok(),
        _ => false,
    }
}

/// `HeaderMap::remove` with a `&str` key, the value copied out by
/// `HeaderValue::as_bytes`: the header is gone with all its values, and the
/// first of them is returned.
#[verifier::external_body]
fn headers_remove(headers: &mut http::HeaderMap, name: &str) -> (first: Option<Vec<u8>>)
    ensures
        header_values(*final(headers)) == without(header_values(*old(headers)), name@),
        first is Some == (values_of(header_values(*old(headers)), name@).len() > 0),
        first matches Some(v) ==> v@ == values_of(header_values(*old(headers)), name@)[0],
{
    headers.remove(name).map(|value| value.as_bytes().to_vec())
}

/// `HeaderMap::iter`, with each name copied out by `HeaderName::as_str` and
/// each value by `HeaderValue::as_bytes`: every value of every header, the
/// values of one header in their order.
#[verifier::external_body]
fn headers_entries(headers: &http::HeaderMap) -> (entries: Vec<(String, Vec<u8>)>)
    ensures
        lists(entries@, header_values(*headers)),
{
    headers.iter().map(|(name, value)| (name.as_str().to_owned(), value.as_bytes().to_vec())).collect()
}

} // verus!
