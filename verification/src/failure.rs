//! What the store fails with.

use vstd::prelude::*;

verus! {

/// The five ways in which an operation of the store fails.
#[derive(Clone, Copy, Debug, PartialEq, Eq, Structural)]
pub enum ErrorKind {
    /// The data directory cannot be determined or created.
    Location,
    /// The data file cannot be read or written.
    Io,
    /// The payloads cannot be encoded.
    Serialization,
    /// The data file does not hold a valid envelope.
    Deserialization,
    /// There is no data file yet.
    NotFound,
}

/// A failure of the store, with its message for the user.
#[derive(Debug)]
pub enum StoreError {
    Location(String),
    Io(String),
    Serialization(String),
    Deserialization(String),
    NotFound,
}

/// A failure as a mathematical value.
pub enum Failure {
    Location(Seq<char>),
    Io(Seq<char>),
    Serialization(Seq<char>),
    Deserialization(Seq<char>),
    NotFound,
}

impl Failure {
    pub open spec fn kind(self) -> ErrorKind {
        match self {
            Failure::Location(_) => ErrorKind::Location,
            Failure::Io(_) => ErrorKind::Io,
            Failure::Serialization(_) => ErrorKind::Serialization,
            Failure::Deserialization(_) => ErrorKind::Deserialization,
            Failure::NotFound => ErrorKind::NotFound,
        }
    }

    pub open spec fn message(self) -> Seq<char> {
        match self {
            Failure::Location(text) => text,
            Failure::Io(text) => text,
            Failure::Serialization(text) => text,
            Failure::Deserialization(text) => text,
            Failure::NotFound => "No saved data found"@,
        }
    }
}

impl View for StoreError {
    type V = Failure;

    open spec fn view(&self) -> Failure {
        match self {
            StoreError::Location(text) => Failure::Location(text@),
            StoreError::Io(text) => Failure::Io(text@),
            StoreError::Serialization(text) => Failure::Serialization(text@),
            StoreError::Deserialization(text) => Failure::Deserialization(text@),
            StoreError::NotFound => Failure::NotFound,
        }
    }
}

impl StoreError {
    /// Which of the five failures this is.
    pub fn kind(&self) -> (kind: ErrorKind)
        ensures
            kind == self@.kind(),
    {
        match self {
            StoreError::Location(_) => ErrorKind::Location,
            StoreError::Io(_) => ErrorKind::Io,
            StoreError::Serialization(_) => ErrorKind::Serialization,
            StoreError::Deserialization(_) => ErrorKind::Deserialization,
            StoreError::NotFound => ErrorKind::NotFound,
        }
    }

    /// The message for the user.
    pub fn message(&self) -> (text: String)
        ensures
            text@ == self@.message(),
    {
        match self {
            StoreError::Location(text) => text.clone(),
            StoreError::Io(text) => text.clone(),
            StoreError::Serialization(text) => text.clone(),
            StoreError::Deserialization(text) => text.clone(),
            StoreError::NotFound => "No saved data found".to_owned(),
        }
    }
}

/// `prefix` followed by `cause`.
pub fn explain(prefix: &str, cause: &str) -> (text: String)
    ensures
        text@ == prefix@ + cause@,
{
    let mut text = prefix.to_owned();
    text.append(cause);
    text
}

} // verus!
