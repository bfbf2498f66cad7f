//! The error message that the exchange sends in place of a result.
use crate::codec::{
    as_object, Fields, lemma_field_with_opt, object_of, put_text, text_at, text_field,
};
use crate::error::{decoded, DecodeError, DecodeErrorView};
use crate::value::{
    field, lemma_field_empty, lemma_field_push, lemma_initials, lemma_object_view, lemma_same_name,
    no_fields, Value, ValueView,
};
use vstd::prelude::*;

verus! {

/// The error that the exchange itself reports: a message.
#[derive(Clone, Debug, PartialEq)]
pub struct Error {
    message: String,
}

/// What [`Error`] holds, as mathematical values.
pub struct ErrorView {
    pub message: Seq<char>,
}

impl View for Error {
    type V = ErrorView;

    closed spec fn view(&self) -> ErrorView {
        ErrorView {
            message: self.message@,
        }
    }
}

impl Error {
    /// The error message that an object's fields denote: the first error met in the
    /// order of the fields below, or else the record of their values.
    pub open spec fn fields_spec(o: Fields) -> Result<ErrorView, DecodeErrorView> {
        if text_at(o, "message"@) is Err {
            Err(text_at(o, "message"@)->Err_0)
        } else {
            Ok(
                ErrorView {
                    message: text_at(o, "message"@)->Ok_0,
                },
            )
        }
    }

    /// The error message that a payload denotes.
    pub open spec fn decode_spec(v: ValueView) -> Result<ErrorView, DecodeErrorView> {
        match object_of(v, "error"@) {
            Ok(o) => Self::fields_spec(o),
            Err(e) => Err(e),
        }
    }

    /// The fields of an error message in wire order, given how each is written.
    pub open spec fn assemble(
        message: ValueView,
    ) -> Fields {
        let o = Fields::empty();
        let o = o.push(("message"@, message));
        o
    }

    /// Among the assembled fields each name finds its own value.
    pub proof fn lemma_assembled(
        message: ValueView,
    )
        ensures
            ({
                let o = Self::assemble(message);
                &&& field(o, "message"@) == Some(message)
            }),
    {
        broadcast use {
            lemma_field_push,
            lemma_field_empty,
            lemma_field_with_opt,
            lemma_same_name,
        };

        reveal_strlit("message");
        lemma_initials("message"@);
    }

    /// The fields that the error message is written as.
    pub open spec fn encoded_fields(a: ErrorView) -> Fields {
        Self::assemble(
            ValueView::Text(a.message),
        )
    }

    /// The payload that the error message is written as.
    pub open spec fn encode_spec(a: ErrorView) -> ValueView {
        ValueView::Object(Self::encoded_fields(a))
    }

    /// Decodes an error message from its payload.
    pub fn decode(value: &Value) -> (r: Result<Error, DecodeError>)
        ensures
            decoded(r) == Self::decode_spec(value@),
    {
        let o = as_object(value, "error")?;
        let message = text_field(o, "message")?;
        Ok(Error { message })
    }

    /// Writes the error message as a payload, which decodes back to the same error message.
    pub fn encode(&self) -> (value: Value)
        ensures
            value@ == Self::encode_spec(self@),
            Self::decode_spec(value@) == Ok::<ErrorView, DecodeErrorView>(self@),
    {
        broadcast use lemma_object_view;

        let mut o = no_fields();
        put_text(&mut o, "message", &self.message);
        proof {
            Self::lemma_assembled(
                ValueView::Text(self@.message),
            );
        }
        Value::Object(o)
    }

    /// The error with the given message.
    pub fn new(message: String) -> (e: Error)
        ensures
            e@.message == message@,
    {
        Error { message }
    }

    /// The message.
    pub fn message(&self) -> (message: &String)
        ensures
            message@ == self@.message,
    {
        &self.message
    }

    /// The message, as it is shown.
    pub fn to_string(&self) -> (text: String)
        ensures
            text@ == self@.message,
    {
        self.message.clone()
    }
}

} // verus!
