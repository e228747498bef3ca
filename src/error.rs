use vstd::prelude::*;
use crate::models::{ErrorResponse, status_line, status_text};

verus! {

/// What can go wrong in the sync module.
///
/// Variants that wrap an outside failure carry its text only: the caller
/// turns the transport, store or validation error into a string.
#[derive(Debug, Clone, PartialEq, Eq)]
pub enum Error {
    Generic,
    /// The request body could not be parsed.
    Json,
    /// The peer store failed.
    Query,
    /// A fail-fast broadcast met a peer it could not reach; the text of the
    /// transport error.
    CannotReachProxies(String),
    /// The liveness probe of a candidate peer failed.
    CannotReachProxy,
    /// The url is registered already.
    ProxyAlreadyExists,
    ProxyNotFound,
    CannotCreateProxy,
    CannotDeleteProxy,
    /// The input did not validate; the validation message.
    InvalidInput(String),
}

/// The HTTP status that answers `e`.
pub open spec fn error_status(e: Error) -> u16 {
    match e {
        Error::Generic => 500,
        Error::CannotReachProxies(_) => 500,
        Error::CannotCreateProxy => 500,
        Error::ProxyNotFound => 404,
        _ => 400,
    }
}

/// The short message that answers `e`.
pub open spec fn error_message(e: Error) -> Seq<char> {
    match e {
        Error::Generic => "Server error"@,
        Error::Json => "Invalid request body"@,
        Error::Query => "Database query error"@,
        Error::CannotReachProxies(_) => "Request to proxies error"@,
        Error::CannotReachProxy => "Request to one proxy error"@,
        Error::ProxyAlreadyExists => "Proxy already exists"@,
        Error::CannotCreateProxy => "Cannot create proxy"@,
        Error::CannotDeleteProxy => "Cannot delete proxy"@,
        Error::ProxyNotFound => "Proxy not found"@,
        Error::InvalidInput(_) => "Invalid input"@,
    }
}

/// The explanation that answers `e`.
pub open spec fn error_detail(e: Error) -> Seq<char> {
    match e {
        Error::Generic => "Something wrong happened"@,
        Error::Json => "The request body sent to the server was incorrect."@,
        Error::Query => "The information provided could not be queried."@,
        Error::CannotReachProxies(cause) => "A connection to one of the proxies could not be made. Error: "@
            + cause@ + "."@,
        Error::CannotReachProxy => "The proxy provided is unreachable"@,
        Error::ProxyAlreadyExists => "This proxy is already exists, please try another"@,
        Error::CannotCreateProxy => "This proxy could not be created, something went wrong"@,
        Error::CannotDeleteProxy => "This proxy could not be deleted, something went wrong"@,
        Error::ProxyNotFound => "The url provided cannot be found in the database"@,
        Error::InvalidInput(why) => why@,
    }
}

impl Error {
    /// The HTTP status that answers this error.
    pub fn status_code(&self) -> (r: u16)
        ensures
            r == error_status(*self),
    {
        match self {
            Error::Generic => 500,
            Error::CannotReachProxies(_) => 500,
            Error::CannotCreateProxy => 500,
            Error::ProxyNotFound => 404,
            _ => 400,
        }
    }

    /// The short message that answers this error.
    pub fn message(&self) -> (r: String)
        ensures
            r@ == error_message(*self),
    {
        match self {
            Error::Generic => String::from_str("Server error"),
            Error::Json => String::from_str("Invalid request body"),
            Error::Query => String::from_str("Database query error"),
            Error::CannotReachProxies(_) => String::from_str("Request to proxies error"),
            Error::CannotReachProxy => String::from_str("Request to one proxy error"),
            Error::ProxyAlreadyExists => String::from_str("Proxy already exists"),
            Error::CannotCreateProxy => String::from_str("Cannot create proxy"),
            Error::CannotDeleteProxy => String::from_str("Cannot delete proxy"),
            Error::ProxyNotFound => String::from_str("Proxy not found"),
            Error::InvalidInput(_) => String::from_str("Invalid input"),
        }
    }

    /// The explanation that answers this error.
    pub fn detail(&self) -> (r: String)
        ensures
            r@ == error_detail(*self),
    {
        match self {
            Error::Generic => String::from_str("Something wrong happened"),
            Error::Json => String::from_str("The request body sent to the server was incorrect."),
            Error::Query => String::from_str("The information provided could not be queried."),
            Error::CannotReachProxies(cause) => {
                let mut s = String::from_str(
                    "A connection to one of the proxies could not be made. Error: ",
                );
                s.append(cause.as_str());
                s.append(".");
                s
            },
            Error::CannotReachProxy => String::from_str("The proxy provided is unreachable"),
            Error::ProxyAlreadyExists => String::from_str(
                "This proxy is already exists, please try another",
            ),
            Error::CannotCreateProxy => String::from_str(
                "This proxy could not be created, something went wrong",
            ),
            Error::CannotDeleteProxy => String::from_str(
                "This proxy could not be deleted, something went wrong",
            ),
            Error::ProxyNotFound => String::from_str(
                "The url provided cannot be found in the database",
            ),
            Error::InvalidInput(why) => why.clone(),
        }
    }

    /// The response body that answers this error: the status line, the
    /// message, no data, and the explanation.
    pub fn to_response(&self) -> (r: ErrorResponse)
        ensures
            r.code@ == status_text(error_status(*self)),
            r.message@ == error_message(*self),
            r.error@ == error_detail(*self),
    {
        let code = self.status_code();
        ErrorResponse {
            code: status_line(code),
            message: self.message(),
            data: (),
            error: self.detail(),
        }
    }
}

} // verus!
