//! The textual codec used for every structured value that is stored:
//! integers and lists of user identifiers, written as JSON.
use vstd::prelude::*;

verus! {

/// The character of a decimal digit.
pub open spec fn digit_char(d: nat) -> char {
    if d == 0 {
        '0'
    } else if d == 1 {
        '1'
    } else if d == 2 {
        '2'
    } else if d == 3 {
        '3'
    } else if d == 4 {
        '4'
    } else if d == 5 {
        '5'
    } else if d == 6 {
        '6'
    } else if d == 7 {
        '7'
    } else if d == 8 {
        '8'
    } else {
        '9'
    }
}

/// The decimal digits of a natural number, without leading zeros.
pub open spec fn digits(n: nat) -> Seq<char>
    decreases n,
{
    if n < 10 {
        seq![digit_char(n)]
    } else {
        digits(n / 10).push(digit_char(n % 10))
    }
}

/// The decimal text of an integer, with a leading `-` when it is negative.
pub open spec fn int_text(i: int) -> Seq<char> {
    if i < 0 {
        seq!['-'] + digits((-i) as nat)
    } else {
        digits(i as nat)
    }
}

/// The decimal texts of a list of identifiers, separated by commas.
pub open spec fn joined_ids(ids: Seq<i64>) -> Seq<char>
    decreases ids.len(),
{
    if ids.len() == 0 {
        Seq::empty()
    } else if ids.len() == 1 {
        int_text(ids[0] as int)
    } else {
        joined_ids(ids.drop_last()) + seq![','] + int_text(ids.last() as int)
    }
}

/// The stored text of a list of identifiers: a JSON array without spaces.
pub open spec fn roster_json(ids: Seq<i64>) -> Seq<char> {
    seq!['['] + joined_ids(ids) + seq![']']
}

/// What reading a stored text as a list of identifiers gives, if it is one.
pub uninterp spec fn ids_parsed(text: Seq<char>) -> Option<Seq<i64>>;

/// What reading a stored text as one integer gives, if it is one.
pub uninterp spec fn int_parsed(text: Seq<char>) -> Option<i64>;

/// A failure of the codec.
#[derive(Debug, Clone, Copy, PartialEq, Eq, Structural)]
pub enum CodecError {
    /// The value could not be written as text.
    Encode,
    /// The text is malformed or does not have the expected shape.
    Decode,
}

#[verifier::external_type_specification]
#[verifier::external_body]
pub struct ExJsonError(serde_json::Error);

/// Relies on serde_json::to_string for `[i64]`: the compact formatter writes
/// `[`, each number in decimal separated by `,`, then `]`; writing into a
/// `Vec<u8>` cannot fail.
#[verifier::external_body]
fn json_of_ids(ids: &[i64]) -> (r: Result<String, serde_json::Error>)
    ensures
        r is Ok && r->Ok_0@ == roster_json(ids@),
{
    serde_json::to_string(ids)
}

/// Relies on serde_json::from_str for `Vec<i64>`: its result depends on the
/// text alone, and the compact array text of a list reads back as that list.
#[verifier::external_body]
fn ids_of_json(text: &str) -> (r: Result<Vec<i64>, serde_json::Error>)
    ensures
        r is Ok ==> ids_parsed(text@) == Some(r->Ok_0@),
        r is Err ==> ids_parsed(text@) is None,
        forall|v: Seq<i64>| #[trigger] roster_json(v) == text@ ==> (r is Ok && r->Ok_0@ == v),
{
    serde_json::from_str::<Vec<i64>>(text)
}

/// Relies on serde_json::to_string for `i64`: the number in decimal.
#[verifier::external_body]
fn json_of_int(value: i64) -> (r: Result<String, serde_json::Error>)
    ensures
        r is Ok && r->Ok_0@ == int_text(value as int),
{
    serde_json::to_string(&value)
}

/// Relies on serde_json::from_str for `i64`: its result depends on the text
/// alone, and the decimal text of a number reads back as that number.
#[verifier::external_body]
fn int_of_json(text: &str) -> (r: Result<i64, serde_json::Error>)
    ensures
        r is Ok ==> int_parsed(text@) == Some(r->Ok_0),
        r is Err ==> int_parsed(text@) is None,
        forall|v: i64| #[trigger] int_text(v as int) == text@ ==> (r is Ok && r->Ok_0 == v),
{
    serde_json::from_str::<i64>(text)
}

/// Writes a list of identifiers as its stored text.
pub fn encode_roster(ids: &[i64]) -> (r: Result<String, CodecError>)
    ensures
        r matches Ok(t) && t@ == roster_json(ids@),
{
    match json_of_ids(ids) {
        Ok(t) => Ok(t),
        Err(_) => Err(CodecError::Encode),
    }
}

/// Reads a stored text as a list of identifiers. The text written by
/// `encode_roster` for a list reads back as exactly that list.
pub fn decode_roster(text: &str) -> (r: Result<Vec<i64>, CodecError>)
    ensures
        match ids_parsed(text@) {
            Some(v) => r matches Ok(w) && w@ == v,
            None => r == Err::<Vec<i64>, CodecError>(CodecError::Decode),
        },
        forall|v: Seq<i64>| #[trigger] roster_json(v) == text@ ==> (r matches Ok(w) && w@ == v),
{
    match ids_of_json(text) {
        Ok(v) => Ok(v),
        Err(_) => Err(CodecError::Decode),
    }
}

/// Writes an integer as its stored text.
pub fn encode_int(value: i64) -> (r: Result<String, CodecError>)
    ensures
        r matches Ok(t) && t@ == int_text(value as int),
{
    match json_of_int(value) {
        Ok(t) => Ok(t),
        Err(_) => Err(CodecError::Encode),
    }
}

/// Reads a stored text as an integer. The text written by `encode_int` for a
/// number reads back as exactly that number.
pub fn decode_int(text: &str) -> (r: Result<i64, CodecError>)
    ensures
        match int_parsed(text@) {
            Some(v) => r == Ok::<i64, CodecError>(v),
            None => r == Err::<i64, CodecError>(CodecError::Decode),
        },
        forall|v: i64| #[trigger] int_text(v as int) == text@ ==> r == Ok::<i64, CodecError>(v),
{
    match int_of_json(text) {
        Ok(v) => Ok(v),
        Err(_) => Err(CodecError::Decode),
    }
}

} // verus!
