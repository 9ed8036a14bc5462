//! The JSON document of a response, read with the `json` crate.
//!
//! The crate's `JsonValue` is opaque to the verifier. `JsonModel` says what
//! such a value holds, and the functions at the end of this file, which call
//! into the crate, are believed to do what their contracts say over that
//! model. Everything else here is proved from those contracts.

use vstd::prelude::*;
use vstd::string::*;
use crate::failure::Failure;

verus! {

/// What a JSON value holds.
pub ghost enum JsonModel {
    Null,
    Boolean(bool),
    /// A number as the crate keeps it: whether it is positive, its decimal
    /// mantissa and its decimal exponent.
    Number(bool, u64, i16),
    Text(Seq<char>),
    Array(Seq<JsonModel>),
    Object(Map<Seq<char>, JsonModel>),
}

/// The most digits of one fraction that the crate's parser can count. It
/// counts them down from zero in an `i16`.
pub const FRACTION_LIMIT: usize = 32768;

/// Whether `c` is a decimal digit.
pub open spec fn is_digit(c: char) -> bool {
    '0' <= c && c <= '9'
}

/// Where a reader of a JSON text stands after some of its characters, as
/// far as strings and the digits of numbers go.
pub ghost struct Scan {
    /// Inside a string literal.
    pub in_string: bool,
    /// Inside a string literal, right after a backslash.
    pub escaped: bool,
    /// Outside a string literal, after the point of a number.
    pub in_fraction: bool,
    /// The mantissa that the digits of the number have given so far. A digit
    /// goes into the mantissa as long as the mantissa still fits a `u64`.
    pub mantissa: nat,
    /// The number of digits of the fraction that went into the mantissa: the
    /// parser counts its exponent down by one for each of them.
    pub counted: nat,
}

/// Where a reader stands before the first character, and outside a string
/// after any character that belongs to no number.
pub open spec fn scan_start() -> Scan {
    Scan { in_string: false, escaped: false, in_fraction: false, mantissa: 0, counted: 0 }
}

/// Where a reader stands one character on.
///
/// Inside a string nothing counts: a backslash takes the character after it
/// along, and a quote without a backslash ends the string. Outside a string, a
/// quote begins one, a digit goes into the mantissa if the mantissa then
/// still fits, and a point begins the fraction of the number before it.
pub open spec fn scan_step(s: Scan, c: char) -> Scan {
    if s.in_string {
        if s.escaped {
            Scan { escaped: false, ..s }
        } else if c == '\\' {
            Scan { escaped: true, ..s }
        } else if c == '"' {
            scan_start()
        } else {
            s
        }
    } else if c == '"' {
        Scan { in_string: true, ..scan_start() }
    } else if is_digit(c) {
        let next = s.mantissa * 10 + (c as nat - '0' as nat);
        if next <= u64::MAX {
            Scan {
                mantissa: next as nat,
                counted: if s.in_fraction {
                    s.counted + 1
                } else {
                    0
                },
                ..s
            }
        } else {
            s
        }
    } else if c == '.' {
        Scan { in_fraction: true, counted: 0, ..s }
    } else {
        scan_start()
    }
}

/// Where a reader stands after `text`.
pub open spec fn scan(text: Seq<char>) -> Scan
    decreases text.len(),
{
    if text.len() == 0 {
        scan_start()
    } else {
        scan_step(scan(text.drop_last()), text.last())
    }
}

/// Whether the parser can count the digits of every fraction in `text`:
/// outside the string literals, no fraction has more than `FRACTION_LIMIT`
/// digits that go into the mantissa. Digits of a string literal, of the whole
/// part of a number and of an exponent do not count, nor do the digits of a
/// fraction that come after the mantissa is full.
pub open spec fn fractions_fit(text: Seq<char>) -> bool {
    forall|i: int| 0 <= i <= text.len() ==> (#[trigger] scan(text.take(i))).counted <= FRACTION_LIMIT
}

/// How `text` is read as a document. The parser is not asked where it could
/// not count the digits of a fraction; on every other text the outcome is
/// the parser's.
pub open spec fn document_of(text: Seq<char>) -> Result<JsonModel, Failure> {
    if !fractions_fit(text) {
        Err(Failure::FractionTooLong)
    } else {
        match parsed(text) {
            Some(value) => Ok(value),
            None => Err(Failure::BodyNotJson),
        }
    }
}

/// The member of an object under `key`; `Null` where there is none, or where
/// `value` is no object.
pub open spec fn lookup(value: JsonModel, key: Seq<char>) -> JsonModel {
    match value {
        JsonModel::Object(fields) => if fields.contains_key(key) {
            fields[key]
        } else {
            JsonModel::Null
        },
        _ => JsonModel::Null,
    }
}

/// The text of a string value.
pub open spec fn text_of(value: JsonModel) -> Option<Seq<char>> {
    match value {
        JsonModel::Text(s) => Some(s),
        _ => None,
    }
}

/// The number that `value` holds, where it is written without fraction or
/// exponent and lies in the range of `i32`.
pub open spec fn int32_of(value: JsonModel) -> Option<i32> {
    match value {
        JsonModel::Number(positive, mantissa, exponent) => {
            let magnitude = mantissa as int;
            let number = if positive {
                magnitude
            } else {
                -magnitude
            };
            if exponent == 0 && i32::MIN <= number <= i32::MAX {
                Some(number as i32)
            } else {
                None
            }
        },
        _ => None,
    }
}

/// Whether the parser can count the digits of every fraction in `text`.
pub fn fractions_can_be_counted(text: &str) -> (fit: bool)
    ensures
        fit == fractions_fit(text@),
{
    let mut in_string = false;
    let mut escaped = false;
    let mut in_fraction = false;
    let mut mantissa: u64 = 0;
    let mut counted: usize = 0;
    for c in it: text.chars()
        invariant
            it.seq() == text@,
            counted <= FRACTION_LIMIT,
            scan(text@.take(it.index() as int)) == (Scan {
                in_string,
                escaped,
                in_fraction,
                mantissa: mantissa as nat,
                counted: counted as nat,
            }),
            forall|i: int|
                0 <= i <= it.index() ==> (#[trigger] scan(text@.take(i))).counted
                    <= FRACTION_LIMIT,
    {
        let ghost next = text@.take(it.index() + 1);
        assert(next.drop_last() == text@.take(it.index() as int));
        assert(next.last() == c);
        if in_string {
            if escaped {
                escaped = false;
            } else if c == '\\' {
                escaped = true;
            } else if c == '"' {
                in_string = false;
                in_fraction = false;
                mantissa = 0;
                counted = 0;
            }
        } else if c == '"' {
            in_string = true;
            escaped = false;
            in_fraction = false;
            mantissa = 0;
            counted = 0;
        } else if '0' <= c && c <= '9' {
            let value: u128 = c as u128 - '0' as u128;
            let wide: u128 = mantissa as u128 * 10 + value;
            if wide <= u64::MAX as u128 {
                mantissa = wide as u64;
                if in_fraction {
                    if counted == FRACTION_LIMIT {
                        assert(scan(next).counted == FRACTION_LIMIT + 1);
                        return false;
                    }
                    counted = counted + 1;
                } else {
                    counted = 0;
                }
            }
        } else if c == '.' {
            in_fraction = true;
            counted = 0;
        } else {
            in_string = false;
            escaped = false;
            in_fraction = false;
            mantissa = 0;
            counted = 0;
        }
    }
    true
}

/// Reads `text` as a JSON document.
pub(crate) fn read_document(text: &str) -> (r: Result<json::JsonValue, Failure>)
    ensures
        match r {
            Ok(value) => document_of(text@) == Ok::<JsonModel, Failure>(content(value)),
            Err(failure) => document_of(text@) == Err::<JsonModel, Failure>(failure),
        },
{
    if !fractions_can_be_counted(text) {
        return Err(Failure::FractionTooLong);
    }
    match parse(text) {
        Ok(value) => Ok(value),
        Err(_) => Err(Failure::BodyNotJson),
    }
}

/// Inside a string literal no digit is counted, and no more digits are
/// counted than the text has characters.
pub proof fn lemma_counted_digits(text: Seq<char>)
    ensures
        scan(text).in_string ==> scan(text).counted == 0 && scan(text).mantissa == 0,
        scan(text).counted <= text.len(),
    decreases text.len(),
{
    if text.len() > 0 {
        lemma_counted_digits(text.drop_last());
    }
}

/// A text of no more characters than `FRACTION_LIMIT` is never left out.
pub proof fn lemma_short_texts_fit(text: Seq<char>)
    requires
        text.len() <= FRACTION_LIMIT,
    ensures
        fractions_fit(text),
{
    assert forall|i: int| 0 <= i <= text.len() implies (#[trigger] scan(text.take(i))).counted
        <= FRACTION_LIMIT by {
        lemma_counted_digits(text.take(i));
    }
}

/// The text under `key` in `entry`, if a string stands there.
pub(crate) fn text_member(entry: &json::JsonValue, key: &str) -> (r: Option<String>)
    ensures
        match r {
            Some(s) => text_of(lookup(content(*entry), key@)) == Some(s@),
            None => text_of(lookup(content(*entry), key@)) is None,
        },
{
    match as_str(member(entry, key)) {
        Some(s) => Some(s.to_owned()),
        None => None,
    }
}

/// The number under `key` in `entry`, if an integer in the range of `i32`
/// stands there.
pub(crate) fn int32_member(entry: &json::JsonValue, key: &str) -> (r: Option<i32>)
    ensures
        r == int32_of(lookup(content(*entry), key@)),
{
    let value = member(entry, key);
    match number_parts(value) {
        Some((_, mantissa, _)) => {
            if mantissa > 0x7fff_ffff_ffff_ffff {
                None
            } else {
                as_i32(value)
            }
        },
        None => None,
    }
}

/// `json::JsonValue`, a JSON value of the crate. Nothing is known of it but
/// what the functions below say.
#[verifier::external_type_specification]
#[verifier::external_body]
pub struct ExJsonValue(json::JsonValue);

/// `json::Error`, the error of the crate's parser. It is never looked into.
#[verifier::external_type_specification]
#[verifier::external_body]
pub struct ExJsonError(json::Error);

/// What `value` holds.
pub uninterp spec fn content(value: json::JsonValue) -> JsonModel;

/// What `json::parse` makes of `text`: the value that it returns, or `None`
/// where it returns an error.
pub uninterp spec fn parsed(text: Seq<char>) -> Option<JsonModel>;

/// `json::parse`. The contract says only that the outcome is a function of
/// the text, and gives it the name `parsed`.
///
/// The parser takes the digits of a number into a `u64` mantissa as long as
/// they fit, and for each digit of a fraction that it takes it subtracts one
/// from an `i16` without a check. `requires` leaves out the texts on which
/// that subtraction overflows: those in which a fraction has more than
/// `FRACTION_LIMIT` such digits. `scan` follows the parser through string
/// literals, where only a quote and a backslash matter to it, and through the
/// digits of a number; on everything else the parser either starts afresh or
/// stops with an error.
#[verifier::external_body]
pub(crate) fn parse(text: &str) -> (r: Result<json::JsonValue, json::Error>)
    requires
        fractions_fit(text@),
    ensures
        match r {
            Ok(value) => parsed(text@) == Some(content(value)),
            Err(_) => parsed(text@) is None,
        },
{
    json::parse(text)
}

/// `JsonValue::is_array`: whether the value is an array.
#[verifier::external_body]
pub(crate) fn is_array(value: &json::JsonValue) -> (r: bool)
    ensures
        r == (content(*value) is Array),
{
    value.is_array()
}

/// `JsonValue::members`: the members of an array, in their order. The crate
/// hands out nothing for a value that is no array.
#[verifier::external_body]
pub(crate) fn members(value: &json::JsonValue) -> (r: Vec<&json::JsonValue>)
    ensures
        match content(*value) {
            JsonModel::Array(items) => r@.len() == items.len() && forall|i: int|
                0 <= i < r@.len() ==> content(*#[trigger] r@[i]) == items[i],
            _ => r@.len() == 0,
        },
{
    value.members().collect()
}

/// Indexing a `JsonValue` by a key: the member of an object under that key.
/// The crate hands out a null for a key that the object lacks, and for a
/// value that is no object.
#[verifier::external_body]
pub(crate) fn member<'a>(value: &'a json::JsonValue, key: &str) -> (r: &'a json::JsonValue)
    ensures
        content(*r) == lookup(content(*value), key@),
{
    &value[key]
}

/// `JsonValue::as_str`: the text of a string, and `None` for any other value.
#[verifier::external_body]
pub(crate) fn as_str(value: &json::JsonValue) -> (r: Option<&str>)
    ensures
        match r {
            Some(s) => text_of(content(*value)) == Some(s@),
            None => text_of(content(*value)) is None,
        },
{
    value.as_str()
}

/// `JsonValue::as_number`, then `Number::as_parts`: sign, mantissa and
/// exponent of a number, and `None` for any other value.
#[verifier::external_body]
pub(crate) fn number_parts(value: &json::JsonValue) -> (r: Option<(bool, u64, i16)>)
    ensures
        r == match content(*value) {
            JsonModel::Number(positive, mantissa, exponent) => Some((positive, mantissa, exponent)),
            _ => None,
        },
{
    match value.as_number() {
        Some(number) => Some(number.as_parts()),
        None => None,
    }
}

/// `JsonValue::as_i32`: a number with exponent zero whose signed mantissa
/// lies in the range of `i32`, and `None` for any other value. The crate
/// casts the mantissa to `i64` and negates it: `requires` leaves out the
/// mantissas on which the cast wraps or the negation overflows.
#[verifier::external_body]
pub(crate) fn as_i32(value: &json::JsonValue) -> (r: Option<i32>)
    requires
        content(*value) matches JsonModel::Number(_, mantissa, _) ==> mantissa
            <= 0x7fff_ffff_ffff_ffff,
    ensures
        r == int32_of(content(*value)),
{
    value.as_i32()
}

} // verus!
