//! Small helpers on text.

use vstd::prelude::*;
use vstd::string::*;

verus! {

/// Whether two string slices hold the same text.
pub fn same_text(left: &str, right: &str) -> (same: bool)
    ensures
        same == (left@ == right@),
{
    left.to_owned() == right.to_owned()
}

/// Lexicographic order on bytes: the order of `str`.
pub open spec fn lex_le(left: Seq<u8>, right: Seq<u8>) -> bool
    decreases left.len(),
{
    if left.len() == 0 {
        true
    } else if right.len() == 0 {
        false
    } else if left[0] != right[0] {
        left[0] < right[0]
    } else {
        lex_le(left.skip(1), right.skip(1))
    }
}

/// Whether `left` comes before `right` or equals it, byte by byte.
pub fn bytes_le(left: &[u8], right: &[u8]) -> (le: bool)
    ensures
        le == lex_le(left@, right@),
{
    let mut index: usize = 0;
    assert(left@.skip(0) =~= left@);
    assert(right@.skip(0) =~= right@);
    while index < left.len() && index < right.len()
        invariant
            index <= left@.len(),
            index <= right@.len(),
            lex_le(left@, right@) == lex_le(left@.skip(index as int), right@.skip(index as int)),
        decreases left@.len() - index,
    {
        let ghost l = left@.skip(index as int);
        let ghost r = right@.skip(index as int);
        assert(l[0] == left@[index as int]);
        assert(r[0] == right@[index as int]);
        assert(l.skip(1) =~= left@.skip(index as int + 1));
        assert(r.skip(1) =~= right@.skip(index as int + 1));
        if left[index] != right[index] {
            return left[index] < right[index];
        }
        index += 1;
    }
    index == left.len()
}

/// Whether `left` comes before `right` or equals it in the order of `str`.
pub fn str_le(left: &str, right: &str) -> (le: bool)
    ensures
        le == lex_le(left.spec_bytes(), right.spec_bytes()),
{
    bytes_le(left.as_bytes(), right.as_bytes())
}

/// The decimal digit `digit` as text.
pub open spec fn digit_text(digit: nat) -> Seq<char> {
    if digit == 0 {
        "0"@
    } else if digit == 1 {
        "1"@
    } else if digit == 2 {
        "2"@
    } else if digit == 3 {
        "3"@
    } else if digit == 4 {
        "4"@
    } else if digit == 5 {
        "5"@
    } else if digit == 6 {
        "6"@
    } else if digit == 7 {
        "7"@
    } else if digit == 8 {
        "8"@
    } else {
        "9"@
    }
}

/// The number `n` in decimal, without leading zeros.
pub open spec fn decimal(n: nat) -> Seq<char>
    decreases n,
{
    if n < 10 {
        digit_text(n)
    } else {
        decimal(n / 10) + digit_text(n % 10)
    }
}

/// The decimal digit `digit` as text.
fn digit_str(digit: u64) -> (text: &'static str)
    requires
        digit < 10,
    ensures
        text@ == digit_text(digit as nat),
{
    if digit == 0 {
        "0"
    } else if digit == 1 {
        "1"
    } else if digit == 2 {
        "2"
    } else if digit == 3 {
        "3"
    } else if digit == 4 {
        "4"
    } else if digit == 5 {
        "5"
    } else if digit == 6 {
        "6"
    } else if digit == 7 {
        "7"
    } else if digit == 8 {
        "8"
    } else {
        "9"
    }
}

/// The number `n` in decimal, without leading zeros.
pub fn to_decimal(n: u64) -> (text: String)
    ensures
        text@ == decimal(n as nat),
    decreases n,
{
    if n < 10 {
        String::from_str(digit_str(n))
    } else {
        let mut text = to_decimal(n / 10);
        text.append(digit_str(n % 10));
        text
    }
}

/// Whether two byte strings are the same.
pub fn bytes_eq(left: &[u8], right: &[u8]) -> (same: bool)
    ensures
        same == (left@ == right@),
{
    if left.len() != right.len() {
        return false;
    }
    let mut index: usize = 0;
    while index < left.len()
        invariant
            index <= left@.len(),
            left@.len() == right@.len(),
            forall|i: int| 0 <= i < index ==> left@[i] == right@[i],
        decreases left@.len() - index,
    {
        if left[index] != right[index] {
            return false;
        }
        index += 1;
    }
    assert(left@ =~= right@);
    true
}

/// The normal form of the absolute URL that `text` spells, if it spells one.
pub uninterp spec fn url_serialization(text: Seq<char>) -> Option<Seq<char>>;

/// `Url::parse`, with the URL turned into its serialization and the error
/// dropped: the normal form of the URL that `text` spells, if it spells one.
#[verifier::external_body]
pub(crate) fn parse_url(text: &str) -> (parsed: Option<String>)
    ensures
        parsed is Some == url_serialization(text@) is Some,
        parsed matches Some(url) ==> url_serialization(text@) == Some(url@),
{
    url::Url::parse(text).ok().map(String::from)
}

} // verus!
