//! How an operation of the store fails.

use vstd::prelude::*;

verus! {

/// One of the two fields that make a record.
#[derive(Debug, Clone, Copy, PartialEq, Eq)]
pub enum Field {
    /// The identifier, `id`.
    Id,
    /// The payload, `text`.
    Text,
}

/// Why a row is no record.
#[derive(Debug, Clone, Copy, PartialEq, Eq)]
pub enum DecodeError {
    /// The row binds no node to the name `n`.
    NoNode,
    /// The node has no such field.
    MissingField(Field),
    /// The node has the field, and what it holds is not a string.
    NotAString(Field),
}

/// What a [`StoreError`] is, as mathematical values.
pub enum Failure {
    /// The backend could not run the statement; the text is its own.
    Backend(Seq<char>),
    /// A row did not hold a record of the expected shape.
    Decode(DecodeError),
    /// A write came back without the record it made.
    NoResult,
}

/// The failure of an operation of the store.
#[derive(Debug, Clone, PartialEq, Eq)]
pub enum StoreError {
    /// The backend could not run the statement. Holds the backend's message.
    Backend(String),
    /// A row did not hold a record of the expected shape.
    Decode(DecodeError),
    /// A write came back without the record it made.
    NoResult,
}

impl View for StoreError {
    type V = Failure;

    open spec fn view(&self) -> Failure {
        match self {
            StoreError::Backend(message) => Failure::Backend(message@),
            StoreError::Decode(error) => Failure::Decode(*error),
            StoreError::NoResult => Failure::NoResult,
        }
    }
}

/// The text that describes a row that is no record.
pub open spec fn decode_text(error: DecodeError) -> Seq<char> {
    match error {
        DecodeError::NoNode => "The row holds no node 'n'"@,
        DecodeError::MissingField(Field::Id) => "The node has no field 'id'"@,
        DecodeError::MissingField(Field::Text) => "The node has no field 'text'"@,
        DecodeError::NotAString(Field::Id) => "The field 'id' is not a string"@,
        DecodeError::NotAString(Field::Text) => "The field 'text' is not a string"@,
    }
}

/// The text to show for a failure: the backend's own, the description of the
/// row that is no record, or `no result`.
pub open spec fn message_of(failure: Failure) -> Seq<char> {
    match failure {
        Failure::Backend(message) => message,
        Failure::Decode(error) => decode_text(error),
        Failure::NoResult => "no result"@,
    }
}

impl DecodeError {
    /// The text that describes this error.
    pub fn message(&self) -> (text: String)
        ensures
            text@ == decode_text(*self),
    {
        match self {
            DecodeError::NoNode => "The row holds no node 'n'".to_owned(),
            DecodeError::MissingField(Field::Id) => "The node has no field 'id'".to_owned(),
            DecodeError::MissingField(Field::Text) => "The node has no field 'text'".to_owned(),
            DecodeError::NotAString(Field::Id) => "The field 'id' is not a string".to_owned(),
            DecodeError::NotAString(Field::Text) => "The field 'text' is not a string".to_owned(),
        }
    }
}

impl StoreError {
    /// The text to show for this failure.
    pub fn message(&self) -> (text: String)
        ensures
            text@ == message_of(self@),
    {
        match self {
            StoreError::Backend(message) => message.clone(),
            StoreError::Decode(error) => error.message(),
            StoreError::NoResult => "no result".to_owned(),
        }
    }
}

} // verus!
