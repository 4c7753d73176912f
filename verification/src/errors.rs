//! The errors this library reports, and the vendor's status-code tables.
//!
//! The vendor grades failures by HTTP status, with one table per resource
//! family; those tables are part of its external contract and are kept
//! here exactly: orders answer 403, 404, 422 and 500; history answers
//! 400, 403, 404, 422 and 429.  A status outside its family's table is
//! reported as [`Error::Unexpected`].

use vstd::prelude::*;

verus! {

/// A frame that could not be understood.
#[derive(Clone, Copy, Debug, PartialEq, Eq, Structural)]
pub enum ProtocolError {
    /// The frame's discriminant names no known variant.
    UnknownVariant,
    /// The frame is not shaped as its discriminant demands, or is not one
    /// well-formed JSON document at all.
    MalformedFrame,
}

/// Everything that can go wrong while working with this library.
#[derive(Clone, Debug, PartialEq)]
pub enum Error {
    /// The socket transport failed; carries the transport's own words.
    Websocket(String),
    /// The realtime feed reported a protocol error of its own.
    Realtime(RealtimeError),
    /// The history API graded a request as failed.
    History(HistoryError),
    /// The order API graded a request as failed.
    Order(OrderError),
    /// A body that should have been JSON could not be read as JSON.
    Json,
    /// A frame arrived that could not be understood.
    Protocol(ProtocolError),
    /// The HTTP transport failed; carries the transport's own words.
    HttpError(String),
    /// An HTTP status outside the resource family's table.
    Unexpected(u16),
}

/// A protocol error reported by the realtime feed itself.
#[derive(Clone, Debug, PartialEq)]
pub struct RealtimeError {
    /// Code identifying the problem.
    pub code: RealtimeErrorCode,
    /// Human-readable explanation of the failure.
    pub message: String,
}

/// The realtime feed's error codes.  The wire number is authoritative.
#[derive(Clone, Copy, Debug, PartialEq, Eq, Structural)]
pub enum RealtimeErrorCode {
    /// The message sent to the server did not follow the specification.
    InvalidSyntax,
    /// Subscribing or unsubscribing before authentication.
    NotAuthenticated,
    /// Invalid authentication credentials.
    AuthFailed,
    /// Already successfully authenticated during this session.
    AlreadyAuthenticated,
    /// No successful authentication within a few seconds of connecting.
    AuthTimeout,
    /// The subscription request would pass the package's symbol limit.
    SymbolLimitExceeded,
    /// Another authenticated session is already running.
    ConnectionLimitExceeded,
    /// Too slow to process the messages sent by the server.
    SlowClient,
    /// The account has no access to this data interface.
    DataV2NotEnabled,
    /// The requested data source is outside the subscription package.
    InsufficientSubscription,
    /// An unexpected error on the vendor's side.
    InternalError,
}

impl RealtimeErrorCode {
    /// The wire number of this code.
    pub open spec fn spec_code(self) -> u16 {
        match self {
            RealtimeErrorCode::InvalidSyntax => 400,
            RealtimeErrorCode::NotAuthenticated => 401,
            RealtimeErrorCode::AuthFailed => 402,
            RealtimeErrorCode::AlreadyAuthenticated => 403,
            RealtimeErrorCode::AuthTimeout => 404,
            RealtimeErrorCode::SymbolLimitExceeded => 405,
            RealtimeErrorCode::ConnectionLimitExceeded => 406,
            RealtimeErrorCode::SlowClient => 407,
            RealtimeErrorCode::DataV2NotEnabled => 408,
            RealtimeErrorCode::InsufficientSubscription => 409,
            RealtimeErrorCode::InternalError => 500,
        }
    }

    /// The code a wire number names.
    pub open spec fn of_code(c: u16) -> Option<RealtimeErrorCode> {
        if c == 400 {
            Some(RealtimeErrorCode::InvalidSyntax)
        } else if c == 401 {
            Some(RealtimeErrorCode::NotAuthenticated)
        } else if c == 402 {
            Some(RealtimeErrorCode::AuthFailed)
        } else if c == 403 {
            Some(RealtimeErrorCode::AlreadyAuthenticated)
        } else if c == 404 {
            Some(RealtimeErrorCode::AuthTimeout)
        } else if c == 405 {
            Some(RealtimeErrorCode::SymbolLimitExceeded)
        } else if c == 406 {
            Some(RealtimeErrorCode::ConnectionLimitExceeded)
        } else if c == 407 {
            Some(RealtimeErrorCode::SlowClient)
        } else if c == 408 {
            Some(RealtimeErrorCode::DataV2NotEnabled)
        } else if c == 409 {
            Some(RealtimeErrorCode::InsufficientSubscription)
        } else if c == 500 {
            Some(RealtimeErrorCode::InternalError)
        } else {
            None
        }
    }

    /// Reads a code from its wire number.
    pub fn from_code(c: u16) -> (r: Option<RealtimeErrorCode>)
        ensures
            r == RealtimeErrorCode::of_code(c),
    {
        match c {
            400 => Some(RealtimeErrorCode::InvalidSyntax),
            401 => Some(RealtimeErrorCode::NotAuthenticated),
            402 => Some(RealtimeErrorCode::AuthFailed),
            403 => Some(RealtimeErrorCode::AlreadyAuthenticated),
            404 => Some(RealtimeErrorCode::AuthTimeout),
            405 => Some(RealtimeErrorCode::SymbolLimitExceeded),
            406 => Some(RealtimeErrorCode::ConnectionLimitExceeded),
            407 => Some(RealtimeErrorCode::SlowClient),
            408 => Some(RealtimeErrorCode::DataV2NotEnabled),
            409 => Some(RealtimeErrorCode::InsufficientSubscription),
            500 => Some(RealtimeErrorCode::InternalError),
            _ => None,
        }
    }

    /// The wire number of this code.
    pub fn code(self) -> (r: u16)
        ensures
            r == self.spec_code(),
    {
        match self {
            RealtimeErrorCode::InvalidSyntax => 400,
            RealtimeErrorCode::NotAuthenticated => 401,
            RealtimeErrorCode::AuthFailed => 402,
            RealtimeErrorCode::AlreadyAuthenticated => 403,
            RealtimeErrorCode::AuthTimeout => 404,
            RealtimeErrorCode::SymbolLimitExceeded => 405,
            RealtimeErrorCode::ConnectionLimitExceeded => 406,
            RealtimeErrorCode::SlowClient => 407,
            RealtimeErrorCode::DataV2NotEnabled => 408,
            RealtimeErrorCode::InsufficientSubscription => 409,
            RealtimeErrorCode::InternalError => 500,
        }
    }

    /// Wire numbers name codes uniquely, both ways round.
    pub proof fn lemma_code_round_trip(self, c: u16)
        ensures
            RealtimeErrorCode::of_code(self.spec_code()) == Some(self),
            RealtimeErrorCode::of_code(c) matches Some(x) ==> x.spec_code() == c,
    {
    }
}

/// How the history API grades a failed request, by HTTP status.
#[derive(Clone, Copy, Debug, PartialEq, Eq, PartialOrd, Ord, Hash, Structural)]
pub enum HistoryError {
    /// Invalid value for a query parameter (status 400).
    BadRequest,
    /// Unauthorized (status 403).
    Forbidden,
    /// Not found (status 404).
    NotFound,
    /// Invalid query parameter (status 422).
    Unprocessable,
    /// Rate limit exceeded (status 429).
    TooManyRequests,
}

impl HistoryError {
    /// The HTTP status this grade mirrors.
    pub open spec fn spec_code(self) -> u16 {
        match self {
            HistoryError::BadRequest => 400,
            HistoryError::Forbidden => 403,
            HistoryError::NotFound => 404,
            HistoryError::Unprocessable => 422,
            HistoryError::TooManyRequests => 429,
        }
    }

    /// The grade of an HTTP status, per the history family's table.
    pub open spec fn of_code(c: u16) -> Option<HistoryError> {
        if c == 400 {
            Some(HistoryError::BadRequest)
        } else if c == 403 {
            Some(HistoryError::Forbidden)
        } else if c == 404 {
            Some(HistoryError::NotFound)
        } else if c == 422 {
            Some(HistoryError::Unprocessable)
        } else if c == 429 {
            Some(HistoryError::TooManyRequests)
        } else {
            None
        }
    }

    /// Reads a grade from an HTTP status.
    pub fn from_code(c: u16) -> (r: Option<HistoryError>)
        ensures
            r == HistoryError::of_code(c),
    {
        match c {
            400 => Some(HistoryError::BadRequest),
            403 => Some(HistoryError::Forbidden),
            404 => Some(HistoryError::NotFound),
            422 => Some(HistoryError::Unprocessable),
            429 => Some(HistoryError::TooManyRequests),
            _ => None,
        }
    }

    /// The HTTP status this grade mirrors.
    pub fn code(self) -> (r: u16)
        ensures
            r == self.spec_code(),
    {
        match self {
            HistoryError::BadRequest => 400,
            HistoryError::Forbidden => 403,
            HistoryError::NotFound => 404,
            HistoryError::Unprocessable => 422,
            HistoryError::TooManyRequests => 429,
        }
    }
}

/// How the order API grades a failed request, by HTTP status.
#[derive(Clone, Copy, Debug, PartialEq, Eq, PartialOrd, Ord, Hash, Structural)]
pub enum OrderError {
    /// Buying power or shares are not sufficient (status 403).
    Forbidden,
    /// The order is not found (status 404).
    NotFound,
    /// Input parameters are not recognised (status 422).
    Unprocessable,
    /// The order could not be canceled (status 500).
    InternalError,
}

impl OrderError {
    /// The HTTP status this grade mirrors.
    pub open spec fn spec_code(self) -> u16 {
        match self {
            OrderError::Forbidden => 403,
            OrderError::NotFound => 404,
            OrderError::Unprocessable => 422,
            OrderError::InternalError => 500,
        }
    }

    /// The grade of an HTTP status, per the order family's table.
    pub open spec fn of_code(c: u16) -> Option<OrderError> {
        if c == 403 {
            Some(OrderError::Forbidden)
        } else if c == 404 {
            Some(OrderError::NotFound)
        } else if c == 422 {
            Some(OrderError::Unprocessable)
        } else if c == 500 {
            Some(OrderError::InternalError)
        } else {
            None
        }
    }

    /// Reads a grade from an HTTP status.
    pub fn from_code(c: u16) -> (r: Option<OrderError>)
        ensures
            r == OrderError::of_code(c),
    {
        match c {
            403 => Some(OrderError::Forbidden),
            404 => Some(OrderError::NotFound),
            422 => Some(OrderError::Unprocessable),
            500 => Some(OrderError::InternalError),
            _ => None,
        }
    }

    /// The HTTP status this grade mirrors.
    pub fn code(self) -> (r: u16)
        ensures
            r == self.spec_code(),
    {
        match self {
            OrderError::Forbidden => 403,
            OrderError::NotFound => 404,
            OrderError::Unprocessable => 422,
            OrderError::InternalError => 500,
        }
    }
}

/// What a history response's status demands of the caller: `Ok` exactly on
/// status 200 (read the body); otherwise the family's error for the
/// status, or [`Error::Unexpected`] outside the table.
pub fn classify_history_status(status: u16) -> (r: Result<(), Error>)
    ensures
        r is Ok <==> status == 200,
        r matches Err(e) ==> e == (match HistoryError::of_code(status) {
            Some(h) => Error::History(h),
            None => Error::Unexpected(status),
        }),
{
    if status == 200 {
        Ok(())
    } else {
        match HistoryError::from_code(status) {
            Some(h) => Err(Error::History(h)),
            None => Err(Error::Unexpected(status)),
        }
    }
}

/// What an order response's status demands of the caller: `Ok` exactly on
/// the order family's success statuses 200, 204 and 207; otherwise the
/// family's error for the status, or [`Error::Unexpected`] outside the
/// table.
pub fn classify_order_status(status: u16) -> (r: Result<(), Error>)
    ensures
        r is Ok <==> (status == 200 || status == 204 || status == 207),
        r matches Err(e) ==> e == (match OrderError::of_code(status) {
            Some(o) => Error::Order(o),
            None => Error::Unexpected(status),
        }),
{
    if status == 200 || status == 204 || status == 207 {
        Ok(())
    } else {
        match OrderError::from_code(status) {
            Some(o) => Err(Error::Order(o)),
            None => Err(Error::Unexpected(status)),
        }
    }
}

} // verus!
