//! The request/response envelope of the exchange's WebSocket APIs: a request
//! carries an id (`rid`), and its response carries the same id with either a
//! result or an error.
use vstd::prelude::*;
use crate::text::{push_signed_decimal, signed_decimal_text};

verus! {

/// A request with its id.
#[derive(Debug, Clone)]
pub struct Request<T> {
    pub request_id: i32,
    pub request: T,
}

/// An error answered by the server: a code and an optional message.
#[derive(Debug, Clone, PartialEq, Eq)]
pub struct Error {
    pub code: i32,
    pub message: Option<String>,
}

impl Error {
    /// The text `code: <code>, message: <message>`, with `unknown error` when
    /// there is no message (the `Display` of the type).
    pub fn to_string(&self) -> (r: String)
        ensures
            r@ == "code: "@ + signed_decimal_text(self.code as int) + ", message: "@ + match self.message {
                Some(m) => m@,
                None => "unknown error"@,
            },
    {
        let mut s = String::from_str("code: ");
        push_signed_decimal(&mut s, self.code as i64);
        s.append(", message: ");
        match &self.message {
            Some(m) => s.append(m.as_str()),
            None => s.append("unknown error"),
        }
        s
    }
}

/// A response: the id of the request it answers (if known), and a result or
/// an error, with optional extra data.
#[derive(Debug, Clone)]
pub struct Response<T> {
    pub request_id: Option<i32>,
    pub response: Option<T>,
    pub error: Option<Error>,
    pub data: Option<String>,
}

/// Why a response carries no result.
#[derive(Debug, Clone, PartialEq, Eq)]
pub enum ResponseError {
    /// The server answered with an error.
    Server(Error),
    /// Neither a result nor an error.
    Malformed,
}

impl ResponseError {
    /// The human-readable text of the error.
    pub fn message(&self) -> (r: String)
        ensures
            r@ == match self {
                ResponseError::Server(e) => "code: "@ + signed_decimal_text(e.code as int) + ", message: "@
                    + match e.message {
                    Some(m) => m@,
                    None => "unknown error"@,
                },
                ResponseError::Malformed => "malformed response"@,
            },
    {
        match self {
            ResponseError::Server(e) => e.to_string(),
            ResponseError::Malformed => String::from_str("malformed response"),
        }
    }
}

impl<T> Response<T> {
    /// A successful answer to request `request_id`.
    pub fn ok(request_id: i32, response: T) -> (r: Response<T>)
        ensures
            r.request_id == Some(request_id),
            r.response == Some(response),
            r.error is None,
            r.data is None,
    {
        Response { request_id: Some(request_id), response: Some(response), error: None, data: None }
    }

    /// An error answer with the given code and message.
    pub fn error(request_id: Option<i32>, code: i32, message: Option<String>) -> (r: Response<T>)
        ensures
            r.request_id == request_id,
            r.response is None,
            r.error == Some(Error { code, message }),
            r.data is None,
    {
        Response { request_id, response: None, error: Some(Error { code, message }), data: None }
    }

    /// An error answer with extra data.
    pub fn error_with_data(request_id: Option<i32>, code: i32, message: Option<String>, data: String) -> (r: Response<T>)
        ensures
            r.request_id == request_id,
            r.response is None,
            r.error == Some(Error { code, message }),
            r.data == Some(data),
    {
        Response { request_id, response: None, error: Some(Error { code, message }), data: Some(data) }
    }

    /// A 400 error answer.
    pub fn bad_request(request_id: Option<i32>, message: Option<String>) -> (r: Response<T>)
        ensures
            r.request_id == request_id,
            r.response is None,
            r.error == Some(Error { code: 400, message }),
            r.data is None,
    {
        Self::error(request_id, 400, message)
    }

    /// A 500 error answer.
    pub fn internal_server_error(request_id: Option<i32>, message: Option<String>) -> (r: Response<T>)
        ensures
            r.request_id == request_id,
            r.response is None,
            r.error == Some(Error { code: 500, message }),
            r.data is None,
    {
        Self::error(request_id, 500, message)
    }

    /// The result: the server's error when there is one, else the result,
    /// else `Malformed`.
    pub fn into_inner(self) -> (r: Result<T, ResponseError>)
        ensures
            r == response_outcome(self),
    {
        match self.error {
            Some(e) => Err(ResponseError::Server(e)),
            None => match self.response {
                Some(inner) => Ok(inner),
                None => Err(ResponseError::Malformed),
            },
        }
    }
}

/// What a response amounts to: its error if it has one, else its result,
/// else a malformed response.
pub open spec fn response_outcome<T>(r: Response<T>) -> Result<T, ResponseError> {
    match r.error {
        Some(e) => Err(ResponseError::Server(e)),
        None => match r.response {
            Some(v) => Ok(v),
            None => Err(ResponseError::Malformed),
        },
    }
}

/// A successful answer yields its result; an error answer yields its error,
/// whatever data it carries.
pub proof fn lemma_response_round_trip<T>(request_id: i32, value: T, rid: Option<i32>, code: i32, message: Option<String>, data: Option<String>)
    ensures
        response_outcome(Response { request_id: Some(request_id), response: Some(value), error: None, data: None })
            == Ok::<T, ResponseError>(value),
        response_outcome(Response::<T> { request_id: rid, response: None, error: Some(Error { code, message }), data })
            == Err::<T, ResponseError>(ResponseError::Server(Error { code, message })),
{
}

} // verus!
