use vstd::prelude::*;
use vstd::string::StringExecFns;
use crate::data_source::types::{kind_name, PropertyInfo};
use crate::text::{eq_ignore_ascii_case, lower};
use crate::types::ErrorResponse;

verus! {

/// Why a document could not be read as the shape that was expected of it.
#[derive(Debug, PartialEq, Eq)]
pub enum DecodeError {
    /// The text is not JSON; the message says where it stops being so.
    MalformedJson(String),
    /// A member that must be there is missing; its name is given.
    MissingField(String),
    /// A member holds another kind of JSON value than it must.
    WrongType(String),
    /// The `type` of a property names no kind that this library knows.
    UnknownPropertyKind(String),
    /// A formula carries no rendered string.
    MissingFormulaString,
    /// A title carries no span of text.
    EmptyTitle,
    /// A list says that more follows and gives no cursor, or gives a cursor
    /// and says that nothing follows.
    CursorMismatch,
}

/// The mathematical value of a [`DecodeError`].
pub enum DecodeErrorView {
    MalformedJson(Seq<char>),
    MissingField(Seq<char>),
    WrongType(Seq<char>),
    UnknownPropertyKind(Seq<char>),
    MissingFormulaString,
    EmptyTitle,
    CursorMismatch,
}

impl View for DecodeError {
    type V = DecodeErrorView;

    open spec fn view(&self) -> DecodeErrorView {
        match self {
            DecodeError::MalformedJson(message) => DecodeErrorView::MalformedJson(message@),
            DecodeError::MissingField(name) => DecodeErrorView::MissingField(name@),
            DecodeError::WrongType(name) => DecodeErrorView::WrongType(name@),
            DecodeError::UnknownPropertyKind(raw) => DecodeErrorView::UnknownPropertyKind(raw@),
            DecodeError::MissingFormulaString => DecodeErrorView::MissingFormulaString,
            DecodeError::EmptyTitle => DecodeErrorView::EmptyTitle,
            DecodeError::CursorMismatch => DecodeErrorView::CursorMismatch,
        }
    }
}

impl DecodeErrorView {
    /// The message that tells a reader what went wrong.
    pub open spec fn message(self) -> Seq<char> {
        match self {
            DecodeErrorView::MalformedJson(text) => "malformed JSON: "@ + text,
            DecodeErrorView::MissingField(name) => "missing field: "@ + name,
            DecodeErrorView::WrongType(name) => "wrong type: "@ + name,
            DecodeErrorView::UnknownPropertyKind(raw) => "unknown property kind: "@ + raw,
            DecodeErrorView::MissingFormulaString => "missing formula string"@,
            DecodeErrorView::EmptyTitle => "empty title"@,
            DecodeErrorView::CursorMismatch => "cursor mismatch"@,
        }
    }
}

impl DecodeError {
    /// The message that tells a reader what went wrong.
    pub fn to_string(&self) -> (res: String)
        ensures
            res@ == self@.message(),
    {
        match self {
            DecodeError::MalformedJson(text) => String::from_str("malformed JSON: ").concat(
                text.as_str(),
            ),
            DecodeError::MissingField(name) => String::from_str("missing field: ").concat(
                name.as_str(),
            ),
            DecodeError::WrongType(name) => String::from_str("wrong type: ").concat(name.as_str()),
            DecodeError::UnknownPropertyKind(raw) => String::from_str(
                "unknown property kind: ",
            ).concat(raw.as_str()),
            DecodeError::MissingFormulaString => String::from_str("missing formula string"),
            DecodeError::EmptyTitle => String::from_str("empty title"),
            DecodeError::CursorMismatch => String::from_str("cursor mismatch"),
        }
    }
}

/// A misuse of the library that is caught before anything is sent.
#[derive(Debug, Clone, Copy, PartialEq, Eq, Structural)]
pub enum ValidationError {
    /// A filter was added under `and` to a node that is no `and` node.
    NotAnAndFilter,
    /// A filter was added under `or` to a node that is no `or` node.
    NotAnOrFilter,
    /// A value of this kind cannot be written to a page.
    UnsupportedWriteKind(PropertyInfo),
}

impl ValidationError {
    /// The message that tells a reader what went wrong.
    pub open spec fn message(self) -> Seq<char> {
        match self {
            ValidationError::NotAnAndFilter => "not an and filter"@,
            ValidationError::NotAnOrFilter => "not an or filter"@,
            ValidationError::UnsupportedWriteKind(kind) => "unsupported write kind: "@ + kind_name(
                kind,
            ),
        }
    }

    /// The message that tells a reader what went wrong.
    pub fn to_string(&self) -> (res: String)
        ensures
            res@ == self.message(),
    {
        match self {
            ValidationError::NotAnAndFilter => String::from_str("not an and filter"),
            ValidationError::NotAnOrFilter => String::from_str("not an or filter"),
            ValidationError::UnsupportedWriteKind(kind) => {
                let name = kind.to_string();
                String::from_str("unsupported write kind: ").concat(name.as_str())
            },
        }
    }
}

/// Why a call did not give its result.
#[derive(Debug, PartialEq, Eq)]
pub enum ClientError {
    /// The request did not get through or was not answered; the text is
    /// what the transport said, passed on as it came.
    ReqwestError(String),
    /// The remote service did not accept the token.
    UnauthorizedError,
    /// The remote service asks the caller to slow down.
    RateLimitedError,
    /// The remote service reported a failure under another code; the text
    /// is its message.
    InternalError(String),
    /// An answer did not have the shape that was expected of it.
    DecodeError(DecodeError),
    /// The library was asked for what it cannot do.
    ValidationError(ValidationError),
}

/// The mathematical value of a [`ClientError`].
pub enum ClientErrorView {
    ReqwestError(Seq<char>),
    UnauthorizedError,
    RateLimitedError,
    InternalError(Seq<char>),
    DecodeError(DecodeErrorView),
    ValidationError(ValidationError),
}

impl View for ClientError {
    type V = ClientErrorView;

    open spec fn view(&self) -> ClientErrorView {
        match self {
            ClientError::ReqwestError(text) => ClientErrorView::ReqwestError(text@),
            ClientError::UnauthorizedError => ClientErrorView::UnauthorizedError,
            ClientError::RateLimitedError => ClientErrorView::RateLimitedError,
            ClientError::InternalError(message) => ClientErrorView::InternalError(message@),
            ClientError::DecodeError(error) => ClientErrorView::DecodeError(error@),
            ClientError::ValidationError(error) => ClientErrorView::ValidationError(*error),
        }
    }
}

impl ClientErrorView {
    /// The message that tells a reader what went wrong.
    pub open spec fn message(self) -> Seq<char> {
        match self {
            ClientErrorView::ReqwestError(text) => "Reqwest error: "@ + text,
            ClientErrorView::UnauthorizedError => "Unauthorized Error"@,
            ClientErrorView::RateLimitedError => "RateLimited Error"@,
            ClientErrorView::InternalError(message) => "Internal error: "@ + message,
            ClientErrorView::DecodeError(error) => "Decode error: "@ + error.message(),
            ClientErrorView::ValidationError(error) => "Validation error: "@ + error.message(),
        }
    }
}

/// The error that a failure reported by the remote service stands for, by
/// its code: `unauthorized` and `rate_limited`, in capitals or not, have
/// errors of their own; under any other code the message is kept.
pub open spec fn classify(code: Seq<char>, message: Seq<char>) -> ClientErrorView {
    if lower(code) == "unauthorized"@ {
        ClientErrorView::UnauthorizedError
    } else if lower(code) == "rate_limited"@ {
        ClientErrorView::RateLimitedError
    } else {
        ClientErrorView::InternalError(message)
    }
}

/// The two codes that have errors of their own hold no capital: lowering
/// them changes nothing.
pub proof fn lemma_codes_are_lower_case()
    ensures
        lower("unauthorized"@) == "unauthorized"@,
        lower("rate_limited"@) == "rate_limited"@,
{
    reveal_strlit("unauthorized");
    reveal_strlit("rate_limited");
    assert(lower("unauthorized"@) =~= "unauthorized"@);
    assert(lower("rate_limited"@) =~= "rate_limited"@);
}

impl ClientError {
    /// The message that tells a reader what went wrong.
    pub fn to_string(&self) -> (res: String)
        ensures
            res@ == self@.message(),
    {
        match self {
            ClientError::ReqwestError(text) => String::from_str("Reqwest error: ").concat(
                text.as_str(),
            ),
            ClientError::UnauthorizedError => String::from_str("Unauthorized Error"),
            ClientError::RateLimitedError => String::from_str("RateLimited Error"),
            ClientError::InternalError(message) => String::from_str("Internal error: ").concat(
                message.as_str(),
            ),
            ClientError::DecodeError(error) => {
                let inner = error.to_string();
                String::from_str("Decode error: ").concat(inner.as_str())
            },
            ClientError::ValidationError(error) => {
                let inner = error.to_string();
                String::from_str("Validation error: ").concat(inner.as_str())
            },
        }
    }

    /// The error that a failure reported by the remote service stands for.
    pub fn from(res: ErrorResponse) -> (error: ClientError)
        ensures
            error@ == classify(res@.code, res@.message),
    {
        proof {
            lemma_codes_are_lower_case();
        }
        if eq_ignore_ascii_case(res.get_code(), "unauthorized") {
            ClientError::UnauthorizedError
        } else if eq_ignore_ascii_case(res.get_code(), "rate_limited") {
            ClientError::RateLimitedError
        } else {
            ClientError::InternalError(String::from_str(res.get_message()))
        }
    }
}

} // verus!
