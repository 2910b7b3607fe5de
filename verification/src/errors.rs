//! Errors of parsing and of the local database.

use vstd::prelude::*;

verus! {

/// A text could not be read as what it should stand for.
#[derive(Debug)]
pub struct ParseError {
    message: String,
}

impl ParseError {
    /// The message this error carries.
    pub closed spec fn message(&self) -> Seq<char> {
        self.message@
    }

    /// An error with the given message.
    pub fn new(message: &str) -> (e: ParseError)
        ensures
            e.message() == message@,
    {
        ParseError { message: String::from_str(message) }
    }

    /// The message shown to the user: the message that the error carries.
    pub fn to_string(&self) -> (r: String)
        ensures
            r@ == self.message(),
    {
        self.message.clone()
    }
}

/// An error of the local database.
#[derive(Debug)]
pub enum DbError {
    NotFound { message: String },
    Generic { message: String },
    MapError { message: String },
}

/// The message of a database error, as shown to the user.
pub open spec fn db_error_message(e: DbError) -> Seq<char> {
    match e {
        DbError::NotFound { message } => "Not found: "@ + message@,
        DbError::Generic { message } => "Generic error: "@ + message@,
        DbError::MapError { message } => "Map error: "@ + message@,
    }
}

impl DbError {
    /// The message shown to the user.
    pub fn to_string(&self) -> (r: String)
        ensures
            r@ == db_error_message(*self),
    {
        match self {
            DbError::NotFound { message } => String::from_str("Not found: ").concat(message.as_str()),
            DbError::Generic { message } => String::from_str("Generic error: ").concat(message.as_str()),
            DbError::MapError { message } => String::from_str("Map error: ").concat(message.as_str()),
        }
    }

    /// A stored value that could not be read back maps to a `MapError` with
    /// the parse error's message.
    pub fn from_parse_error(value: ParseError) -> (e: DbError)
        ensures
            e matches DbError::MapError { message } && message@ == value.message(),
    {
        DbError::MapError { message: value.to_string() }
    }
}

} // verus!
