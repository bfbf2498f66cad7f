//! Decode failures, and the error message that the exchange itself sends.
use vstd::prelude::*;

verus! {

/// Why a payload could not be decoded. Every variant carries the name of the
/// offending field, or the unknown tag itself.
#[derive(Clone, Debug, PartialEq, Eq)]
pub enum DecodeError {
    /// A required field is absent.
    MissingField(String),
    /// A field holds a value of the wrong shape.
    TypeMismatch(String),
    /// A field's text is not a decimal number.
    InvalidNumber(String),
    /// A field's text is not a timestamp.
    InvalidTimestamp(String),
    /// A discriminant names no variant of a closed set.
    UnknownVariant(String),
}

/// What a [`DecodeError`] holds, as mathematical values.
pub enum DecodeErrorView {
    MissingField(Seq<char>),
    TypeMismatch(Seq<char>),
    InvalidNumber(Seq<char>),
    InvalidTimestamp(Seq<char>),
    UnknownVariant(Seq<char>),
}

impl View for DecodeError {
    type V = DecodeErrorView;

    open spec fn view(&self) -> DecodeErrorView {
        match self {
            DecodeError::MissingField(name) => DecodeErrorView::MissingField(name@),
            DecodeError::TypeMismatch(name) => DecodeErrorView::TypeMismatch(name@),
            DecodeError::InvalidNumber(name) => DecodeErrorView::InvalidNumber(name@),
            DecodeError::InvalidTimestamp(name) => DecodeErrorView::InvalidTimestamp(name@),
            DecodeError::UnknownVariant(tag) => DecodeErrorView::UnknownVariant(tag@),
        }
    }
}

/// The view of a decoding result: the view of the value, or of the error.
pub open spec fn decoded<T: View>(r: Result<T, DecodeError>) -> Result<T::V, DecodeErrorView> {
    match r {
        Ok(value) => Ok(value@),
        Err(e) => Err(e@),
    }
}

/// Whether a decoding succeeds with `value`.
pub open spec fn yields<T>(r: Result<T, DecodeErrorView>, value: T) -> bool {
    r == Ok::<T, DecodeErrorView>(value)
}

/// The view of a decoding result that may hold no value.
pub open spec fn decoded_opt<T: View>(r: Result<Option<T>, DecodeError>) -> Result<
    Option<T::V>,
    DecodeErrorView,
> {
    match r {
        Ok(Some(value)) => Ok(Some(value@)),
        Ok(None) => Ok(None),
        Err(e) => Err(e@),
    }
}

impl DecodeError {
    /// A required field named `name` is absent.
    pub fn missing(name: &str) -> (e: DecodeError)
        ensures
            e@ == DecodeErrorView::MissingField(name@),
    {
        DecodeError::MissingField(name.to_owned())
    }

    /// The field named `name` has the wrong shape.
    pub fn mismatch(name: &str) -> (e: DecodeError)
        ensures
            e@ == DecodeErrorView::TypeMismatch(name@),
    {
        DecodeError::TypeMismatch(name.to_owned())
    }

    /// The text of the field named `name` is not a decimal number.
    pub fn number(name: &str) -> (e: DecodeError)
        ensures
            e@ == DecodeErrorView::InvalidNumber(name@),
    {
        DecodeError::InvalidNumber(name.to_owned())
    }

    /// The text of the field named `name` is not a timestamp.
    pub fn timestamp(name: &str) -> (e: DecodeError)
        ensures
            e@ == DecodeErrorView::InvalidTimestamp(name@),
    {
        DecodeError::InvalidTimestamp(name.to_owned())
    }

    /// The discriminant `tag` names no variant.
    pub fn unknown(tag: &str) -> (e: DecodeError)
        ensures
            e@ == DecodeErrorView::UnknownVariant(tag@),
    {
        DecodeError::UnknownVariant(tag.to_owned())
    }

    /// The name of the field, or the tag, that the error is about.
    pub fn subject(&self) -> (name: &String)
        ensures
            name@ == self@.subject(),
    {
        match self {
            DecodeError::MissingField(name) => name,
            DecodeError::TypeMismatch(name) => name,
            DecodeError::InvalidNumber(name) => name,
            DecodeError::InvalidTimestamp(name) => name,
            DecodeError::UnknownVariant(tag) => tag,
        }
    }
}

impl DecodeErrorView {
    /// The name of the field, or the tag, that the error is about.
    pub open spec fn subject(self) -> Seq<char> {
        match self {
            DecodeErrorView::MissingField(name) => name,
            DecodeErrorView::TypeMismatch(name) => name,
            DecodeErrorView::InvalidNumber(name) => name,
            DecodeErrorView::InvalidTimestamp(name) => name,
            DecodeErrorView::UnknownVariant(tag) => tag,
        }
    }
}

} // verus!
