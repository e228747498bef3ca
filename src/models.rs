use vstd::prelude::*;
use crate::error::Error;

verus! {

/// A registered peer, identified by its base url.
#[derive(Debug, Clone, PartialEq, Eq)]
pub struct Proxy {
    pub url: String,
}

/// The body of a successful response.
#[derive(Debug, PartialEq, Eq)]
pub struct SuccessResponse {
    pub code: String,
    pub message: String,
    pub data: (),
    pub error: String,
}

/// The body of a failed response.
#[derive(Debug, PartialEq, Eq)]
pub struct ErrorResponse {
    pub code: String,
    pub message: String,
    pub data: (),
    pub error: String,
}

/// A request to register a peer.
#[derive(Debug, Clone, PartialEq, Eq)]
pub struct AddProxyRequest {
    pub url: String,
}

/// A request to deregister a peer.
#[derive(Debug, Clone, PartialEq, Eq)]
pub struct DeleteProxyRequest {
    pub url: String,
}

/// A request to delete one key on every peer; `ttl` is forwarded as is.
#[derive(Debug, Clone, PartialEq, Eq)]
pub struct DeleteDataRequest {
    pub _type: String,
    pub key: String,
    pub ttl: Option<i64>,
}

impl From<AddProxyRequest> for Proxy {
    fn from(req: AddProxyRequest) -> (r: Proxy) {
        Proxy { url: req.url }
    }
}

impl vstd::std_specs::convert::FromSpecImpl<AddProxyRequest> for Proxy {
    open spec fn obeys_from_spec() -> bool {
        true
    }

    open spec fn from_spec(req: AddProxyRequest) -> Proxy {
        Proxy { url: req.url }
    }
}

impl From<DeleteProxyRequest> for Proxy {
    fn from(req: DeleteProxyRequest) -> (r: Proxy) {
        Proxy { url: req.url }
    }
}

impl vstd::std_specs::convert::FromSpecImpl<DeleteProxyRequest> for Proxy {
    open spec fn obeys_from_spec() -> bool {
        true
    }

    open spec fn from_spec(req: DeleteProxyRequest) -> Proxy {
        Proxy { url: req.url }
    }
}

/// Whether the url parser accepts `s` as an absolute url.
pub uninterp spec fn url_is_valid(s: Seq<char>) -> bool;

/// Relies on validator::validate_url, which answers whether `url::Url::parse`
/// accepts the text; the answer depends on the text alone.
#[verifier::external_body]
fn check_url(s: &str) -> (r: bool)
    ensures
        r == url_is_valid(s@),
{
    validator::validate_url(s)
}

/// The message of a rejected peer url.
pub open spec fn invalid_url_message() -> Seq<char> {
    "Proxy url is invalid"@
}

/// The verdict on a peer url, given whether it parsed: nothing, or an
/// `InvalidInput` error with the rule's message.
pub fn url_verdict(parsed: bool) -> (r: Result<(), Error>)
    ensures
        parsed ==> r is Ok,
        !parsed ==> r is Err && r->Err_0 is InvalidInput && r->Err_0->InvalidInput_0@
            == invalid_url_message(),
{
    if parsed {
        Ok(())
    } else {
        Err(Error::InvalidInput(String::from_str("Proxy url is invalid")))
    }
}

impl AddProxyRequest {
    /// Checks that the url parses.
    pub fn validate(&self) -> (r: Result<(), Error>)
        ensures
            url_is_valid(self.url@) ==> r is Ok,
            !url_is_valid(self.url@) ==> r is Err && r->Err_0 is InvalidInput
                && r->Err_0->InvalidInput_0@ == invalid_url_message(),
    {
        url_verdict(check_url(self.url.as_str()))
    }
}

impl DeleteProxyRequest {
    /// Checks that the url parses.
    pub fn validate(&self) -> (r: Result<(), Error>)
        ensures
            url_is_valid(self.url@) ==> r is Ok,
            !url_is_valid(self.url@) ==> r is Err && r->Err_0 is InvalidInput
                && r->Err_0->InvalidInput_0@ == invalid_url_message(),
    {
        url_verdict(check_url(self.url.as_str()))
    }
}

/// The text of an HTTP status line for the statuses this module answers with.
pub open spec fn status_text(code: u16) -> Seq<char> {
    if code == 200 {
        "200 OK"@
    } else if code == 201 {
        "201 Created"@
    } else if code == 400 {
        "400 Bad Request"@
    } else if code == 404 {
        "404 Not Found"@
    } else {
        "500 Internal Server Error"@
    }
}

/// The status line for `code`; any status other than the four named ones is
/// answered as an internal error.
pub fn status_line(code: u16) -> (r: String)
    ensures
        r@ == status_text(code),
{
    if code == 200 {
        String::from_str("200 OK")
    } else if code == 201 {
        String::from_str("201 Created")
    } else if code == 400 {
        String::from_str("400 Bad Request")
    } else if code == 404 {
        String::from_str("404 Not Found")
    } else {
        String::from_str("500 Internal Server Error")
    }
}

/// A success body with the given status and message, no data and no error.
pub fn success_response(code: u16, message: &str) -> (r: SuccessResponse)
    ensures
        r.code@ == status_text(code),
        r.message@ == message@,
        r.error@ == Seq::<char>::empty(),
{
    SuccessResponse {
        code: status_line(code),
        message: message.to_owned(),
        data: (),
        error: String::new(),
    }
}

} // verus!
