use sync_module::error::Error;
use sync_module::models::{
    status_line, success_response, url_verdict, AddProxyRequest, DeleteProxyRequest,
};

#[test]
fn error_responses_carry_status_message_and_detail() {
    let r = Error::ProxyAlreadyExists.to_response();
    assert_eq!(r.code, "400 Bad Request");
    assert_eq!(r.message, "Proxy already exists");
    assert_eq!(r.error, "This proxy is already exists, please try another");

    let r = Error::ProxyNotFound.to_response();
    assert_eq!(r.code, "404 Not Found");
    assert_eq!(r.error, "The url provided cannot be found in the database");

    let r = Error::CannotCreateProxy.to_response();
    assert_eq!(r.code, "500 Internal Server Error");

    let r = Error::Generic.to_response();
    assert_eq!(r.message, "Server error");
    assert_eq!(r.error, "Something wrong happened");
}

#[test]
fn unreachable_peers_response_quotes_the_cause() {
    let r = Error::CannotReachProxies("connection refused".to_string()).to_response();
    assert_eq!(r.code, "500 Internal Server Error");
    assert_eq!(r.message, "Request to proxies error");
    assert_eq!(
        r.error,
        "A connection to one of the proxies could not be made. Error: connection refused."
    );
}

#[test]
fn every_error_has_its_status() {
    assert_eq!(Error::Json.status_code(), 400);
    assert_eq!(Error::Query.status_code(), 400);
    assert_eq!(Error::CannotReachProxy.status_code(), 400);
    assert_eq!(Error::CannotDeleteProxy.status_code(), 400);
    assert_eq!(Error::InvalidInput("bad".to_string()).status_code(), 400);
    assert_eq!(Error::ProxyNotFound.status_code(), 404);
    assert_eq!(Error::Generic.status_code(), 500);
    assert_eq!(Error::InvalidInput("Proxy url is invalid".to_string()).detail(), "Proxy url is invalid");
    assert_eq!(Error::Json.message(), "Invalid request body");
}

#[test]
fn status_lines_and_success_bodies() {
    assert_eq!(status_line(200), "200 OK");
    assert_eq!(status_line(201), "201 Created");
    assert_eq!(status_line(418), "500 Internal Server Error");
    let r = success_response(201, "New proxy created");
    assert_eq!(r.code, "201 Created");
    assert_eq!(r.message, "New proxy created");
    assert_eq!(r.error, "");
}

#[test]
fn peer_urls_are_validated() {
    let ok = AddProxyRequest { url: "http://localhost:3000".to_string() };
    assert_eq!(ok.validate(), Ok(()));
    let bad = AddProxyRequest { url: "http".to_string() };
    assert_eq!(bad.validate(), Err(Error::InvalidInput("Proxy url is invalid".to_string())));
    let bad = DeleteProxyRequest { url: "not a url".to_string() };
    assert_eq!(bad.validate(), Err(Error::InvalidInput("Proxy url is invalid".to_string())));
    let ok = DeleteProxyRequest { url: "http://invalid".to_string() };
    assert_eq!(ok.validate(), Ok(()));
    assert_eq!(url_verdict(true), Ok(()));
    assert_eq!(url_verdict(false), Err(Error::InvalidInput("Proxy url is invalid".to_string())));
}
