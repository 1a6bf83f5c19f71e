//! A JSON-RPC-like request/response protocol over WebSocket.
use vstd::prelude::*;

verus! {

/// A call of `method` with `params`.
#[derive(Debug, Clone)]
pub struct Request<T> {
    pub id: i32,
    pub method: String,
    pub params: T,
}

/// The answer to call `id`: a result or an error.
#[derive(Debug, Clone)]
pub struct Response<T, E> {
    pub id: i32,
    pub result: Option<T>,
    pub error: Option<Error<E>>,
}

/// An error answer.
#[derive(Debug, Clone)]
pub struct Error<E> {
    pub code: i32,
    pub message: Option<String>,
    pub data: Option<E>,
}

/// The error codes of JSON-RPC.
#[derive(Debug, Clone, Copy, PartialEq, Eq, Structural)]
pub enum ErrorCode {
    /// The server could not parse the JSON text.
    ParseError,
    /// The JSON text is not a valid request.
    InvalidRequest,
    /// No such method.
    MethodNotFound,
    /// Invalid method parameters.
    InvalidParams,
    /// An internal error.
    InternalError,
}

impl ErrorCode {
    /// The number of the code.
    pub fn code(&self) -> (r: i32)
        ensures
            r == match self {
                ErrorCode::ParseError => -32700i32,
                ErrorCode::InvalidRequest => -32600i32,
                ErrorCode::MethodNotFound => -32601i32,
                ErrorCode::InvalidParams => -32602i32,
                ErrorCode::InternalError => -32603i32,
            },
    {
        match self {
            ErrorCode::ParseError => -32700,
            ErrorCode::InvalidRequest => -32600,
            ErrorCode::MethodNotFound => -32601,
            ErrorCode::InvalidParams => -32602,
            ErrorCode::InternalError => -32603,
        }
    }

    /// The code of a number, if it is one of the five.
    pub fn from_code(code: i32) -> (r: Option<ErrorCode>)
        ensures
            r == error_code_of(code),
    {
        if code == -32700 {
            Some(ErrorCode::ParseError)
        } else if code == -32600 {
            Some(ErrorCode::InvalidRequest)
        } else if code == -32601 {
            Some(ErrorCode::MethodNotFound)
        } else if code == -32602 {
            Some(ErrorCode::InvalidParams)
        } else if code == -32603 {
            Some(ErrorCode::InternalError)
        } else {
            None
        }
    }

    /// The number of the code.
    pub open spec fn code_spec(&self) -> i32 {
        match self {
            ErrorCode::ParseError => -32700i32,
            ErrorCode::InvalidRequest => -32600i32,
            ErrorCode::MethodNotFound => -32601i32,
            ErrorCode::InvalidParams => -32602i32,
            ErrorCode::InternalError => -32603i32,
        }
    }
}

/// The code whose number is `n`, if any.
pub open spec fn error_code_of(n: i32) -> Option<ErrorCode> {
    if n == -32700 {
        Some(ErrorCode::ParseError)
    } else if n == -32600 {
        Some(ErrorCode::InvalidRequest)
    } else if n == -32601 {
        Some(ErrorCode::MethodNotFound)
    } else if n == -32602 {
        Some(ErrorCode::InvalidParams)
    } else if n == -32603 {
        Some(ErrorCode::InternalError)
    } else {
        None
    }
}

/// Reading a code's number gives the code back, and a number that reads as
/// a code is that code's number.
pub proof fn lemma_error_code_round_trip(c: ErrorCode, n: i32)
    ensures
        error_code_of(c.code_spec()) == Some(c),
        error_code_of(n) matches Some(d) ==> d.code_spec() == n,
{
}

} // verus!
