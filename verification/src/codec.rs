//! Reading and writing single fields of a payload object.
//!
//! Each reader's contract says, over the view of the object, which value it
//! yields and which error it reports; each writer appends one
//! field and states that the matching reader gets the value back.
use crate::decimal::{decimal_of_text, decimal_text, Decimal, DecimalView};
use crate::error::{decoded, decoded_opt, yields, DecodeError, DecodeErrorView};
use crate::ident::{id_of_text, uuid_text, Uuid};
use crate::instant::{
    instant_of_offset_text, instant_of_text, instant_text, Instant, InstantView,
};
use crate::text::{digits_of, parse_unsigned, unsigned_of_text, unsigned_text};
use crate::value::{
    field, fields_view, find, lemma_field_push, lemma_object_view, put, same_name, Value,
    ValueView,
};
use vstd::prelude::*;

verus! {

/// The fields of an object, by view.
pub type Fields = Seq<(Seq<char>, ValueView)>;

/// A closed set of values that the wire spells as fixed tokens.
pub trait Token: Sized + Copy {
    /// The value that `text` spells, if it spells one.
    spec fn of_token(text: Seq<char>) -> Option<Self>;

    /// The token of a value.
    spec fn token_of(self) -> Seq<char>;

    fn from_token(text: &str) -> (r: Option<Self>)
        ensures
            r == Self::of_token(text@),
    ;

    fn token(&self) -> (text: &'static str)
        ensures
            text@ == self.token_of(),
            Self::of_token(text@) == Some(*self),
    ;
}

/// The fields of a payload that must be an object; `name` names the payload
/// in the error.
pub open spec fn object_of(v: ValueView, name: Seq<char>) -> Result<Fields, DecodeErrorView> {
    match v {
        ValueView::Object(fields) => Ok(fields),
        _ => Err(DecodeErrorView::TypeMismatch(name)),
    }
}

/// The items of a payload that must be a list.
pub open spec fn list_of(v: ValueView, name: Seq<char>) -> Result<Seq<ValueView>, DecodeErrorView> {
    match v {
        ValueView::List(items) => Ok(items),
        _ => Err(DecodeErrorView::TypeMismatch(name)),
    }
}

/// The value of a field that must be present.
pub open spec fn need(fields: Fields, key: Seq<char>) -> Result<ValueView, DecodeErrorView> {
    match field(fields, key) {
        Some(v) => Ok(v),
        None => Err(DecodeErrorView::MissingField(key)),
    }
}

/// What was found under a name, with null counted as nothing.
pub open spec fn present(found: Option<ValueView>) -> Option<ValueView> {
    match found {
        Some(ValueView::Null) => None,
        other => other,
    }
}

/// `fields`, with the field `key: v` appended if there is a `v`.
#[verifier::opaque]
pub open spec fn with_opt(fields: Fields, key: Seq<char>, v: Option<ValueView>) -> Fields {
    match v {
        Some(v) => fields.push((key, v)),
        None => fields,
    }
}

/// Looking a name up after a field was appended or left out: the new field
/// answers only if it has that name and no earlier field has.
pub broadcast proof fn lemma_field_with_opt(
    fields: Fields,
    name: Seq<char>,
    value: Option<ValueView>,
    key: Seq<char>,
)
    ensures
        #[trigger] field(with_opt(fields, name, value), key) == if same_name(name, key) && field(
            fields,
            key,
        ) is None {
            value
        } else {
            field(fields, key)
        },
{
    reveal(with_opt);
    broadcast use lemma_field_push;

}

/// A value read as a text.
pub open spec fn as_text(v: ValueView, key: Seq<char>) -> Result<Seq<char>, DecodeErrorView> {
    match v {
        ValueView::Text(s) => Ok(s),
        _ => Err(DecodeErrorView::TypeMismatch(key)),
    }
}

/// A value read as a truth value.
pub open spec fn as_bool(v: ValueView, key: Seq<char>) -> Result<bool, DecodeErrorView> {
    match v {
        ValueView::Bool(b) => Ok(b),
        _ => Err(DecodeErrorView::TypeMismatch(key)),
    }
}

/// A number written as a number.
pub open spec fn as_number(v: ValueView, key: Seq<char>) -> Result<DecimalView, DecodeErrorView> {
    match v {
        ValueView::Number(d) => Ok(d),
        _ => Err(DecodeErrorView::TypeMismatch(key)),
    }
}

/// An unsigned whole number written as a number.
pub open spec fn as_count(v: ValueView, key: Seq<char>) -> Result<usize, DecodeErrorView> {
    match v {
        ValueView::Number(d) => match d.as_unsigned() {
            Some(n) => Ok(n),
            None => Err(DecodeErrorView::InvalidNumber(key)),
        },
        _ => Err(DecodeErrorView::TypeMismatch(key)),
    }
}

/// A decimal written as text.
pub open spec fn as_decimal(v: ValueView, key: Seq<char>) -> Result<DecimalView, DecodeErrorView> {
    match v {
        ValueView::Text(s) => number_of(s, key),
        _ => Err(DecodeErrorView::TypeMismatch(key)),
    }
}

/// An unsigned whole number written as text.
pub open spec fn as_count_text(v: ValueView, key: Seq<char>) -> Result<usize, DecodeErrorView> {
    match v {
        ValueView::Text(s) => match unsigned_of_text(s) {
            Some(n) => Ok(n),
            None => Err(DecodeErrorView::InvalidNumber(key)),
        },
        _ => Err(DecodeErrorView::TypeMismatch(key)),
    }
}

/// A value read as an identifier.
pub open spec fn as_uuid(v: ValueView, key: Seq<char>) -> Result<Uuid, DecodeErrorView> {
    match v {
        ValueView::Text(s) => match id_of_text(s) {
            Some(id) => Ok(id),
            None => Err(DecodeErrorView::TypeMismatch(key)),
        },
        _ => Err(DecodeErrorView::TypeMismatch(key)),
    }
}

/// A timestamp under the lenient reading.
pub open spec fn as_instant(v: ValueView, key: Seq<char>) -> Result<InstantView, DecodeErrorView> {
    match v {
        ValueView::Text(s) => timestamp_of(s, false, key),
        _ => Err(DecodeErrorView::TypeMismatch(key)),
    }
}

/// A timestamp that must carry a timezone offset.
pub open spec fn as_offset_instant(v: ValueView, key: Seq<char>) -> Result<
    InstantView,
    DecodeErrorView,
> {
    match v {
        ValueView::Text(s) => timestamp_of(s, true, key),
        _ => Err(DecodeErrorView::TypeMismatch(key)),
    }
}

/// One of a closed set of tokens; an unknown token is reported by itself.
pub open spec fn as_token<T: Token>(v: ValueView, key: Seq<char>) -> Result<T, DecodeErrorView> {
    match v {
        ValueView::Text(s) => match T::of_token(s) {
            Some(t) => Ok(t),
            None => Err(DecodeErrorView::UnknownVariant(s)),
        },
        _ => Err(DecodeErrorView::TypeMismatch(key)),
    }
}

/// The numeric codec in its required form: the decimal that a text denotes;
/// `name` names the field in the error.
pub open spec fn number_of(text: Seq<char>, name: Seq<char>) -> Result<DecimalView, DecodeErrorView> {
    match decimal_of_text(text) {
        Some(d) => Ok(d),
        None => Err(DecodeErrorView::InvalidNumber(name)),
    }
}

/// The numeric codec in its optional form: no text is no value, and a text
/// is read as in the required form.
pub open spec fn optional_number_of(text: Option<Seq<char>>, name: Seq<char>) -> Result<
    Option<DecimalView>,
    DecodeErrorView,
> {
    match text {
        None => Ok(None),
        Some(s) => match number_of(s, name) {
            Ok(d) => Ok(Some(d)),
            Err(e) => Err(e),
        },
    }
}

/// The temporal codec in its required form: the instant that a text denotes
/// under the lenient reading, or under the strict one where the text must
/// carry a timezone offset.
pub open spec fn timestamp_of(text: Seq<char>, with_offset: bool, name: Seq<char>) -> Result<
    InstantView,
    DecodeErrorView,
> {
    let found = if with_offset {
        instant_of_offset_text(text)
    } else {
        instant_of_text(text)
    };
    match found {
        Some(t) => Ok(t),
        None => Err(DecodeErrorView::InvalidTimestamp(name)),
    }
}

/// The temporal codec in its optional form.
pub open spec fn optional_timestamp_of(
    text: Option<Seq<char>>,
    with_offset: bool,
    name: Seq<char>,
) -> Result<Option<InstantView>, DecodeErrorView> {
    match text {
        None => Ok(None),
        Some(s) => match timestamp_of(s, with_offset, name) {
            Ok(t) => Ok(Some(t)),
            Err(e) => Err(e),
        },
    }
}

/// On every text that denotes a decimal the optional form of the numeric
/// codec yields what the required form yields, and without a text it yields
/// no value.
pub proof fn lemma_optional_number_agrees(text: Seq<char>, name: Seq<char>)
    ensures
        number_of(text, name) matches Ok(d) ==> optional_number_of(Some(text), name) == Ok::<
            Option<DecimalView>,
            DecodeErrorView,
        >(Some(d)),
        number_of(text, name) matches Err(e) ==> optional_number_of(Some(text), name) == Err::<
            Option<DecimalView>,
            DecodeErrorView,
        >(e),
        optional_number_of(None, name) == Ok::<Option<DecimalView>, DecodeErrorView>(None),
{
}

/// Decodes a decimal written as text.
pub fn decode_number(text: &str, name: &str) -> (r: Result<Decimal, DecodeError>)
    ensures
        decoded(r) == number_of(text@, name@),
{
    match Decimal::parse(text) {
        Some(d) => Ok(d),
        None => Err(DecodeError::number(name)),
    }
}

/// Decodes a decimal written as text, if there is a text.
pub fn decode_optional_number(text: Option<&str>, name: &str) -> (r: Result<
    Option<Decimal>,
    DecodeError,
>)
    ensures
        decoded_opt(r) == optional_number_of(opt_view(text), name@),
{
    match text {
        None => Ok(None),
        Some(s) => match decode_number(s, name) {
            Ok(d) => Ok(Some(d)),
            Err(e) => Err(e),
        },
    }
}

/// Decodes a timestamp; `with_offset` demands the strict form that carries
/// a timezone offset.
pub fn decode_timestamp(text: &str, with_offset: bool, name: &str) -> (r: Result<
    Instant,
    DecodeError,
>)
    ensures
        decoded(r) == timestamp_of(text@, with_offset, name@),
{
    let found = if with_offset {
        Instant::parse_with_offset(text)
    } else {
        Instant::parse(text)
    };
    match found {
        Some(t) => Ok(t),
        None => Err(DecodeError::timestamp(name)),
    }
}

/// Decodes a timestamp, if there is a text.
pub fn decode_optional_timestamp(text: Option<&str>, with_offset: bool, name: &str) -> (r: Result<
    Option<Instant>,
    DecodeError,
>)
    ensures
        decoded_opt(r) == optional_timestamp_of(opt_view(text), with_offset, name@),
{
    match text {
        None => Ok(None),
        Some(s) => match decode_timestamp(s, with_offset, name) {
            Ok(t) => Ok(Some(t)),
            Err(e) => Err(e),
        },
    }
}

/// The fields of a payload that must be an object; `name` names the
/// payload in the error.
pub fn as_object<'a>(value: &'a Value, name: &str) -> (r: Result<
    &'a Vec<(String, Value)>,
    DecodeError,
>)
    ensures
        match r {
            Ok(fields) => object_of(value@, name@) == Ok::<Fields, DecodeErrorView>(
                fields_view(fields@),
            ),
            Err(e) => object_of(value@, name@) == Err::<Fields, DecodeErrorView>(e@),
        },
{
    broadcast use lemma_object_view;

    match value {
        Value::Object(fields) => Ok(fields),
        _ => Err(DecodeError::mismatch(name)),
    }
}

/// Reads a text from a value; `key` names the field in the error.
pub fn read_text(v: &Value, key: &str) -> (r: Result<String, DecodeError>)
    ensures
        decoded(r) == as_text(v@, key@),
{
    match v {
        Value::Text(s) => Ok(s.clone()),
        _ => Err(DecodeError::mismatch(key)),
    }
}

/// Reads a truth value from a value; `key` names the field in the error.
pub fn read_bool(v: &Value, key: &str) -> (r: Result<bool, DecodeError>)
    ensures
        decoded(r) == as_bool(v@, key@),
{
    match v {
        Value::Bool(b) => Ok(*b),
        _ => Err(DecodeError::mismatch(key)),
    }
}

/// Reads a number from a value; `key` names the field in the error.
pub fn read_number(v: &Value, key: &str) -> (r: Result<Decimal, DecodeError>)
    ensures
        decoded(r) == as_number(v@, key@),
{
    match v {
        Value::Number(d) => Ok(*d),
        _ => Err(DecodeError::mismatch(key)),
    }
}

/// Reads a count from a value; `key` names the field in the error.
pub fn read_count(v: &Value, key: &str) -> (r: Result<usize, DecodeError>)
    ensures
        decoded(r) == as_count(v@, key@),
{
    match v {
        Value::Number(d) => match d.to_unsigned() {
            Some(n) => Ok(n),
            None => Err(DecodeError::number(key)),
        },
        _ => Err(DecodeError::mismatch(key)),
    }
}

/// Reads a decimal written as text from a value; `key` names the field in the error.
pub fn read_decimal(v: &Value, key: &str) -> (r: Result<Decimal, DecodeError>)
    ensures
        decoded(r) == as_decimal(v@, key@),
{
    match v {
        Value::Text(s) => decode_number(s.as_str(), key),
        _ => Err(DecodeError::mismatch(key)),
    }
}

/// Reads a count written as text from a value; `key` names the field in the error.
pub fn read_count_text(v: &Value, key: &str) -> (r: Result<usize, DecodeError>)
    ensures
        decoded(r) == as_count_text(v@, key@),
{
    match v {
        Value::Text(s) => match parse_unsigned(s.as_str()) {
            Some(n) => Ok(n),
            None => Err(DecodeError::number(key)),
        },
        _ => Err(DecodeError::mismatch(key)),
    }
}

/// Reads a identifier from a value; `key` names the field in the error.
pub fn read_uuid(v: &Value, key: &str) -> (r: Result<Uuid, DecodeError>)
    ensures
        decoded(r) == as_uuid(v@, key@),
{
    match v {
        Value::Text(s) => match Uuid::parse(s.as_str()) {
            Some(id) => Ok(id),
            None => Err(DecodeError::mismatch(key)),
        },
        _ => Err(DecodeError::mismatch(key)),
    }
}

/// Reads a timestamp from a value; `key` names the field in the error.
pub fn read_instant(v: &Value, key: &str) -> (r: Result<Instant, DecodeError>)
    ensures
        decoded(r) == as_instant(v@, key@),
{
    match v {
        Value::Text(s) => decode_timestamp(s.as_str(), false, key),
        _ => Err(DecodeError::mismatch(key)),
    }
}

/// Reads a timestamp with offset from a value; `key` names the field in the error.
pub fn read_offset_instant(v: &Value, key: &str) -> (r: Result<Instant, DecodeError>)
    ensures
        decoded(r) == as_offset_instant(v@, key@),
{
    match v {
        Value::Text(s) => decode_timestamp(s.as_str(), true, key),
        _ => Err(DecodeError::mismatch(key)),
    }
}

/// Reads a token from a value; `key` names the field in the error.
pub fn read_token<T: Token>(v: &Value, key: &str) -> (r: Result<T, DecodeError>)
    ensures
        match r {
            Ok(t) => as_token::<T>(v@, key@) == Ok::<T, DecodeErrorView>(t),
            Err(e) => as_token::<T>(v@, key@) == Err::<T, DecodeErrorView>(e@),
        },
{
    match v {
        Value::Text(s) => match T::from_token(s.as_str()) {
            Some(t) => Ok(t),
            None => Err(DecodeError::unknown(s.as_str())),
        },
        _ => Err(DecodeError::mismatch(key)),
    }
}

/// The value of a field that must be present.
pub fn get<'a>(fields: &'a Vec<(String, Value)>, key: &str) -> (r: Result<&'a Value, DecodeError>)
    ensures
        decoded(r) == need(fields_view(fields@), key@),
{
    match find(fields, key) {
        Some(v) => Ok(v),
        None => Err(DecodeError::missing(key)),
    }
}

/// The value of a field that may be absent or null.
pub fn get_opt<'a>(fields: &'a Vec<(String, Value)>, key: &str) -> (r: Option<&'a Value>)
    ensures
        match r {
            Some(v) => present(field(fields_view(fields@), key@)) == Some(v@),
            None => present(field(fields_view(fields@), key@)) is None,
        },
{
    match find(fields, key) {
        Some(Value::Null) => None,
        other => other,
    }
}

/// The required text `key`.
pub open spec fn text_at(fields: Fields, key: Seq<char>) -> Result<Seq<char>, DecodeErrorView> {
    match need(fields, key) {
        Ok(v) => as_text(v, key),
        Err(e) => Err(e),
    }
}

/// Reads the required text `key`.
pub fn text_field(fields: &Vec<(String, Value)>, key: &str) -> (r: Result<String, DecodeError>)
    ensures
        decoded(r) == text_at(fields_view(fields@), key@),
{
    match get(fields, key) {
        Ok(v) => read_text(v, key),
        Err(e) => Err(e),
    }
}

/// The required truth value `key`.
pub open spec fn bool_at(fields: Fields, key: Seq<char>) -> Result<bool, DecodeErrorView> {
    match need(fields, key) {
        Ok(v) => as_bool(v, key),
        Err(e) => Err(e),
    }
}

/// Reads the required truth value `key`.
pub fn bool_field(fields: &Vec<(String, Value)>, key: &str) -> (r: Result<bool, DecodeError>)
    ensures
        decoded(r) == bool_at(fields_view(fields@), key@),
{
    match get(fields, key) {
        Ok(v) => read_bool(v, key),
        Err(e) => Err(e),
    }
}

/// The required number `key`.
pub open spec fn number_at(fields: Fields, key: Seq<char>) -> Result<DecimalView, DecodeErrorView> {
    match need(fields, key) {
        Ok(v) => as_number(v, key),
        Err(e) => Err(e),
    }
}

/// Reads the required number `key`.
pub fn number_field(fields: &Vec<(String, Value)>, key: &str) -> (r: Result<Decimal, DecodeError>)
    ensures
        decoded(r) == number_at(fields_view(fields@), key@),
{
    match get(fields, key) {
        Ok(v) => read_number(v, key),
        Err(e) => Err(e),
    }
}

/// The required count `key`.
pub open spec fn count_at(fields: Fields, key: Seq<char>) -> Result<usize, DecodeErrorView> {
    match need(fields, key) {
        Ok(v) => as_count(v, key),
        Err(e) => Err(e),
    }
}

/// Reads the required count `key`.
pub fn count_field(fields: &Vec<(String, Value)>, key: &str) -> (r: Result<usize, DecodeError>)
    ensures
        decoded(r) == count_at(fields_view(fields@), key@),
{
    match get(fields, key) {
        Ok(v) => read_count(v, key),
        Err(e) => Err(e),
    }
}

/// The required decimal written as text `key`.
pub open spec fn decimal_at(fields: Fields, key: Seq<char>) -> Result<DecimalView, DecodeErrorView> {
    match need(fields, key) {
        Ok(v) => as_decimal(v, key),
        Err(e) => Err(e),
    }
}

/// Reads the required decimal written as text `key`.
pub fn decimal_field(fields: &Vec<(String, Value)>, key: &str) -> (r: Result<Decimal, DecodeError>)
    ensures
        decoded(r) == decimal_at(fields_view(fields@), key@),
{
    match get(fields, key) {
        Ok(v) => read_decimal(v, key),
        Err(e) => Err(e),
    }
}

/// The required count written as text `key`.
pub open spec fn count_text_at(fields: Fields, key: Seq<char>) -> Result<usize, DecodeErrorView> {
    match need(fields, key) {
        Ok(v) => as_count_text(v, key),
        Err(e) => Err(e),
    }
}

/// Reads the required count written as text `key`.
pub fn count_text_field(fields: &Vec<(String, Value)>, key: &str) -> (r: Result<usize, DecodeError>)
    ensures
        decoded(r) == count_text_at(fields_view(fields@), key@),
{
    match get(fields, key) {
        Ok(v) => read_count_text(v, key),
        Err(e) => Err(e),
    }
}

/// The required identifier `key`.
pub open spec fn uuid_at(fields: Fields, key: Seq<char>) -> Result<Uuid, DecodeErrorView> {
    match need(fields, key) {
        Ok(v) => as_uuid(v, key),
        Err(e) => Err(e),
    }
}

/// Reads the required identifier `key`.
pub fn uuid_field(fields: &Vec<(String, Value)>, key: &str) -> (r: Result<Uuid, DecodeError>)
    ensures
        decoded(r) == uuid_at(fields_view(fields@), key@),
{
    match get(fields, key) {
        Ok(v) => read_uuid(v, key),
        Err(e) => Err(e),
    }
}

/// The required timestamp `key`.
pub open spec fn instant_at(fields: Fields, key: Seq<char>) -> Result<InstantView, DecodeErrorView> {
    match need(fields, key) {
        Ok(v) => as_instant(v, key),
        Err(e) => Err(e),
    }
}

/// Reads the required timestamp `key`.
pub fn instant_field(fields: &Vec<(String, Value)>, key: &str) -> (r: Result<Instant, DecodeError>)
    ensures
        decoded(r) == instant_at(fields_view(fields@), key@),
{
    match get(fields, key) {
        Ok(v) => read_instant(v, key),
        Err(e) => Err(e),
    }
}

/// The required timestamp with offset `key`.
pub open spec fn offset_instant_at(fields: Fields, key: Seq<char>) -> Result<InstantView, DecodeErrorView> {
    match need(fields, key) {
        Ok(v) => as_offset_instant(v, key),
        Err(e) => Err(e),
    }
}

/// Reads the required timestamp with offset `key`.
pub fn offset_instant_field(fields: &Vec<(String, Value)>, key: &str) -> (r: Result<Instant, DecodeError>)
    ensures
        decoded(r) == offset_instant_at(fields_view(fields@), key@),
{
    match get(fields, key) {
        Ok(v) => read_offset_instant(v, key),
        Err(e) => Err(e),
    }
}

/// An optional value read as text, from what was found under `key`: nothing or
/// null is no value.
pub open spec fn opt_text_of(found: Option<ValueView>, key: Seq<char>) -> Result<
    Option<Seq<char>>,
    DecodeErrorView,
> {
    match present(found) {
        Some(v) => match as_text(v, key) {
            Ok(x) => Ok(Some(x)),
            Err(e) => Err(e),
        },
        None => Ok(None),
    }
}

/// The optional text `key`: absent or null is no value.
pub open spec fn opt_text_at(fields: Fields, key: Seq<char>) -> Result<Option<Seq<char>>, DecodeErrorView> {
    opt_text_of(field(fields, key), key)
}

/// Reads the optional text `key`.
pub fn opt_text_field(fields: &Vec<(String, Value)>, key: &str) -> (r: Result<
    Option<String>,
    DecodeError,
>)
    ensures
        decoded_opt(r) == opt_text_at(fields_view(fields@), key@),
{
    match get_opt(fields, key) {
        Some(v) => match read_text(v, key) {
            Ok(x) => Ok(Some(x)),
            Err(e) => Err(e),
        },
        None => Ok(None),
    }
}

/// An optional value read as decimal, from what was found under `key`: nothing or
/// null is no value.
pub open spec fn opt_decimal_of(found: Option<ValueView>, key: Seq<char>) -> Result<
    Option<DecimalView>,
    DecodeErrorView,
> {
    match present(found) {
        Some(v) => match as_decimal(v, key) {
            Ok(x) => Ok(Some(x)),
            Err(e) => Err(e),
        },
        None => Ok(None),
    }
}

/// The optional decimal written as text `key`: absent or null is no value.
pub open spec fn opt_decimal_at(fields: Fields, key: Seq<char>) -> Result<Option<DecimalView>, DecodeErrorView> {
    opt_decimal_of(field(fields, key), key)
}

/// Reads the optional decimal written as text `key`.
pub fn opt_decimal_field(fields: &Vec<(String, Value)>, key: &str) -> (r: Result<
    Option<Decimal>,
    DecodeError,
>)
    ensures
        decoded_opt(r) == opt_decimal_at(fields_view(fields@), key@),
{
    match get_opt(fields, key) {
        Some(v) => match read_decimal(v, key) {
            Ok(x) => Ok(Some(x)),
            Err(e) => Err(e),
        },
        None => Ok(None),
    }
}

/// An optional value read as instant, from what was found under `key`: nothing or
/// null is no value.
pub open spec fn opt_instant_of(found: Option<ValueView>, key: Seq<char>) -> Result<
    Option<InstantView>,
    DecodeErrorView,
> {
    match present(found) {
        Some(v) => match as_instant(v, key) {
            Ok(x) => Ok(Some(x)),
            Err(e) => Err(e),
        },
        None => Ok(None),
    }
}

/// The optional timestamp `key`: absent or null is no value.
pub open spec fn opt_instant_at(fields: Fields, key: Seq<char>) -> Result<Option<InstantView>, DecodeErrorView> {
    opt_instant_of(field(fields, key), key)
}

/// Reads the optional timestamp `key`.
pub fn opt_instant_field(fields: &Vec<(String, Value)>, key: &str) -> (r: Result<
    Option<Instant>,
    DecodeError,
>)
    ensures
        decoded_opt(r) == opt_instant_at(fields_view(fields@), key@),
{
    match get_opt(fields, key) {
        Some(v) => match read_instant(v, key) {
            Ok(x) => Ok(Some(x)),
            Err(e) => Err(e),
        },
        None => Ok(None),
    }
}

/// An optional value read as offset instant, from what was found under `key`: nothing or
/// null is no value.
pub open spec fn opt_offset_instant_of(found: Option<ValueView>, key: Seq<char>) -> Result<
    Option<InstantView>,
    DecodeErrorView,
> {
    match present(found) {
        Some(v) => match as_offset_instant(v, key) {
            Ok(x) => Ok(Some(x)),
            Err(e) => Err(e),
        },
        None => Ok(None),
    }
}

/// The optional timestamp with offset `key`: absent or null is no value.
pub open spec fn opt_offset_instant_at(fields: Fields, key: Seq<char>) -> Result<Option<InstantView>, DecodeErrorView> {
    opt_offset_instant_of(field(fields, key), key)
}

/// Reads the optional timestamp with offset `key`.
pub fn opt_offset_instant_field(fields: &Vec<(String, Value)>, key: &str) -> (r: Result<
    Option<Instant>,
    DecodeError,
>)
    ensures
        decoded_opt(r) == opt_offset_instant_at(fields_view(fields@), key@),
{
    match get_opt(fields, key) {
        Some(v) => match read_offset_instant(v, key) {
            Ok(x) => Ok(Some(x)),
            Err(e) => Err(e),
        },
        None => Ok(None),
    }
}

/// The token `key`, of a closed set.
pub open spec fn token_at<T: Token>(fields: Fields, key: Seq<char>) -> Result<T, DecodeErrorView> {
    match need(fields, key) {
        Ok(v) => as_token::<T>(v, key),
        Err(e) => Err(e),
    }
}

/// Reads the required token `key`.
pub fn token_field<T: Token>(fields: &Vec<(String, Value)>, key: &str) -> (r: Result<
    T,
    DecodeError,
>)
    ensures
        match r {
            Ok(t) => token_at::<T>(fields_view(fields@), key@) == Ok::<T, DecodeErrorView>(t),
            Err(e) => token_at::<T>(fields_view(fields@), key@) == Err::<T, DecodeErrorView>(e@),
        },
{
    match get(fields, key) {
        Ok(v) => read_token::<T>(v, key),
        Err(e) => Err(e),
    }
}

/// The decimal `key`, which stands for zero when it is absent or null.
pub open spec fn decimal_or_zero_at(fields: Fields, key: Seq<char>) -> Result<
    DecimalView,
    DecodeErrorView,
> {
    decimal_or_zero_of(field(fields, key), key)
}

/// A decimal that stands for zero when nothing, or null, was found under
/// `key`.
pub open spec fn decimal_or_zero_of(found: Option<ValueView>, key: Seq<char>) -> Result<
    DecimalView,
    DecodeErrorView,
> {
    match present(found) {
        Some(v) => as_decimal(v, key),
        None => Ok(DecimalView { negative: false, mantissa: 0, scale: 0 }),
    }
}

/// Reads the decimal `key`, or zero where it is absent or null.
pub fn decimal_or_zero_field(fields: &Vec<(String, Value)>, key: &str) -> (r: Result<
    Decimal,
    DecodeError,
>)
    ensures
        decoded(r) == decimal_or_zero_at(fields_view(fields@), key@),
{
    match get_opt(fields, key) {
        Some(v) => read_decimal(v, key),
        None => Ok(Decimal::from_unsigned(0)),
    }
}

/// How a decimal is written: as its canonical text.
pub open spec fn decimal_value(d: DecimalView) -> ValueView {
    ValueView::Text(decimal_text(d))
}

/// How a count is written where the wire wants text.
pub open spec fn count_text_value(n: usize) -> ValueView {
    ValueView::Text(digits_of(n as nat))
}

/// How a count is written where the wire wants a number.
pub open spec fn count_value(n: usize) -> ValueView {
    ValueView::Number(DecimalView { negative: false, mantissa: n as nat, scale: 0 })
}

/// How an identifier is written: hyphenated.
pub open spec fn uuid_value(id: Uuid) -> ValueView {
    ValueView::Text(uuid_text(id.value))
}

/// How an instant is written: as RFC 3339 text.
pub open spec fn instant_value(t: InstantView) -> ValueView {
    ValueView::Text(instant_text(t))
}

/// How a token is written.
pub open spec fn token_value<T: Token>(t: T) -> ValueView {
    ValueView::Text(t.token_of())
}

/// How an optional text is written, when it is written at all.
pub open spec fn opt_text_value(s: Option<Seq<char>>) -> Option<ValueView> {
    match s {
        Some(s) => Some(ValueView::Text(s)),
        None => None,
    }
}

/// How an optional decimal is written, when it is written at all.
pub open spec fn opt_decimal_value(d: Option<DecimalView>) -> Option<ValueView> {
    match d {
        Some(d) => Some(decimal_value(d)),
        None => None,
    }
}

/// How an optional instant is written, when it is written at all.
pub open spec fn opt_instant_value(t: Option<InstantView>) -> Option<ValueView> {
    match t {
        Some(t) => Some(instant_value(t)),
        None => None,
    }
}

/// The view of an optional value.
pub open spec fn opt_view<T: View>(o: Option<T>) -> Option<T::V> {
    match o {
        Some(x) => Some(x@),
        None => None,
    }
}

/// Appends the text `key`.
pub fn put_text(fields: &mut Vec<(String, Value)>, key: &str, text: &String)
    ensures
        fields_view(final(fields)@) == fields_view(old(fields)@).push(
            (key@, ValueView::Text(text@)),
        ),
{
    put(fields, key, Value::Text(text.clone()));
}

/// Appends the text `key` from a string slice.
pub fn put_str(fields: &mut Vec<(String, Value)>, key: &str, text: &str)
    ensures
        fields_view(final(fields)@) == fields_view(old(fields)@).push(
            (key@, ValueView::Text(text@)),
        ),
{
    put(fields, key, Value::Text(text.to_owned()));
}

/// Appends the truth value `key`.
pub fn put_bool(fields: &mut Vec<(String, Value)>, key: &str, b: bool)
    ensures
        fields_view(final(fields)@) == fields_view(old(fields)@).push((key@, ValueView::Bool(b))),
{
    put(fields, key, Value::Bool(b));
}

/// Appends the number `key`.
pub fn put_number(fields: &mut Vec<(String, Value)>, key: &str, d: Decimal)
    ensures
        fields_view(final(fields)@) == fields_view(old(fields)@).push(
            (key@, ValueView::Number(d@)),
        ),
{
    put(fields, key, Value::Number(d));
}

/// Appends the count `key`.
pub fn put_count(fields: &mut Vec<(String, Value)>, key: &str, n: usize)
    ensures
        fields_view(final(fields)@) == fields_view(old(fields)@).push((key@, count_value(n))),
        as_count(count_value(n), key@) == Ok::<usize, DecodeErrorView>(n),
{
    put(fields, key, Value::Number(Decimal::from_unsigned(n as u64)));
}

/// Appends the decimal written as text `key`.
pub fn put_decimal(fields: &mut Vec<(String, Value)>, key: &str, d: Decimal)
    ensures
        fields_view(final(fields)@) == fields_view(old(fields)@).push((key@, decimal_value(d@))),
        as_decimal(decimal_value(d@), key@) == Ok::<DecimalView, DecodeErrorView>(d@),
{
    put(fields, key, Value::Text(d.to_text()));
}

/// Appends the count written as text `key`.
pub fn put_count_text(fields: &mut Vec<(String, Value)>, key: &str, n: usize)
    ensures
        fields_view(final(fields)@) == fields_view(old(fields)@).push((key@, count_text_value(n))),
        as_count_text(count_text_value(n), key@) == Ok::<usize, DecodeErrorView>(n),
{
    put(fields, key, Value::Text(unsigned_text(n)));
}

/// Appends the identifier `key`.
pub fn put_uuid(fields: &mut Vec<(String, Value)>, key: &str, id: Uuid)
    ensures
        fields_view(final(fields)@) == fields_view(old(fields)@).push((key@, uuid_value(id))),
        as_uuid(uuid_value(id), key@) == Ok::<Uuid, DecodeErrorView>(id),
{
    put(fields, key, Value::Text(id.to_text()));
}

/// Appends the timestamp `key`.
pub fn put_instant(fields: &mut Vec<(String, Value)>, key: &str, t: Instant)
    ensures
        fields_view(final(fields)@) == fields_view(old(fields)@).push((key@, instant_value(t@))),
        as_instant(instant_value(t@), key@) == Ok::<InstantView, DecodeErrorView>(t@),
        as_offset_instant(instant_value(t@), key@) == Ok::<InstantView, DecodeErrorView>(t@),
{
    put(fields, key, Value::Text(t.to_text()));
}

/// Appends the token `key`.
pub fn put_token<T: Token>(fields: &mut Vec<(String, Value)>, key: &str, t: T)
    ensures
        fields_view(final(fields)@) == fields_view(old(fields)@).push((key@, token_value(t))),
        as_token::<T>(token_value(t), key@) == Ok::<T, DecodeErrorView>(t),
{
    put(fields, key, Value::Text(t.token().to_owned()));
}

/// Appends the text `key`, if there is one.
pub fn put_opt_text(fields: &mut Vec<(String, Value)>, key: &str, text: &Option<String>)
    ensures
        fields_view(final(fields)@) == with_opt(
            fields_view(old(fields)@),
            key@,
            opt_text_value(opt_view(*text)),
        ),
        yields(opt_text_of(opt_text_value(opt_view(*text)), key@), opt_view(*text)),
{
    reveal(with_opt);
    match text {
        Some(s) => {
            put_text(fields, key, s);
        },
        None => {},
    }
}

/// Appends the decimal `key`, if there is one.
pub fn put_opt_decimal(fields: &mut Vec<(String, Value)>, key: &str, d: Option<Decimal>)
    ensures
        fields_view(final(fields)@) == with_opt(
            fields_view(old(fields)@),
            key@,
            opt_decimal_value(opt_view(d)),
        ),
        yields(opt_decimal_of(opt_decimal_value(opt_view(d)), key@), opt_view(d)),
        d matches Some(x) ==> yields(as_decimal(decimal_value(x@), key@), x@),
        yields(
            decimal_or_zero_of(opt_decimal_value(opt_view(d)), key@),
            match d {
                Some(x) => x@,
                None => DecimalView { negative: false, mantissa: 0, scale: 0 },
            },
        ),
{
    reveal(with_opt);
    match d {
        Some(x) => {
            put_decimal(fields, key, x);
        },
        None => {},
    }
}

/// Appends the instant `key`, if there is one.
pub fn put_opt_instant(fields: &mut Vec<(String, Value)>, key: &str, t: Option<Instant>)
    ensures
        fields_view(final(fields)@) == with_opt(
            fields_view(old(fields)@),
            key@,
            opt_instant_value(opt_view(t)),
        ),
        yields(opt_instant_of(opt_instant_value(opt_view(t)), key@), opt_view(t)),
        t matches Some(x) ==> yields(as_instant(instant_value(x@), key@), x@),
        yields(
            opt_offset_instant_of(opt_instant_value(opt_view(t)), key@),
            opt_view(t),
        ),
{
    reveal(with_opt);
    match t {
        Some(x) => {
            put_instant(fields, key, x);
        },
        None => {},
    }
}

/// How an optional token is written, when it is written at all.
pub open spec fn opt_token_value<T: Token>(t: Option<T>) -> Option<ValueView> {
    match t {
        Some(t) => Some(token_value(t)),
        None => None,
    }
}

/// Appends the token `key`, if there is one.
pub fn put_opt_token<T: Token>(fields: &mut Vec<(String, Value)>, key: &str, t: Option<T>)
    ensures
        fields_view(final(fields)@) == with_opt(fields_view(old(fields)@), key@, opt_token_value(t)),
        t matches Some(x) ==> yields(as_token::<T>(token_value(x), key@), x),
{
    reveal(with_opt);
    match t {
        Some(x) => {
            put_token(fields, key, x);
        },
        None => {},
    }
}

} // verus!
