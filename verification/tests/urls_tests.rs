use ax_exchange_sdk::session::urls::{
    client_endpoints, host_header, marketdata_ws_url, order_gateway_ws_url, query_fits, rest_url, ws_url,
    EndpointError, EndpointFailure,
};

fn pair(k: &str, v: &str) -> (String, String) {
    (k.to_string(), v.to_string())
}

#[test]
fn ws_url_sets_websocket_scheme() {
    assert_eq!(ws_url("http://example.com", false), Ok("ws://example.com/".to_string()));
    assert_eq!(ws_url("https://example.com/x?y=1", false), Ok("wss://example.com/x?y=1".to_string()));
    assert_eq!(ws_url("http://example.com:8080/", false), Ok("ws://example.com:8080/".to_string()));
    assert_eq!(ws_url("https://example.com:8443/", true), Ok("wss://example.com:8443/".to_string()));
}

#[test]
fn ws_url_keeps_websocket_urls_only_when_asked() {
    assert_eq!(ws_url("ws://example.com", false), Err(EndpointError::InvalidScheme));
    assert_eq!(ws_url("ws://example.com", true), Ok("ws://example.com/".to_string()));
    assert_eq!(ws_url("wss://Example.com:443/a", true), Ok("wss://example.com/a".to_string()));
}

#[test]
fn ws_url_refuses_other_schemes() {
    assert_eq!(ws_url("ftp://example.com", true), Err(EndpointError::InvalidScheme));
    assert_eq!(ws_url("ftp://example.com", false), Err(EndpointError::InvalidScheme));
    assert_eq!(ws_url("ftp://example.com", false).unwrap_err().kind(), EndpointFailure::InvalidScheme);
}

#[test]
fn ws_url_reports_parse_errors() {
    let r = ws_url("not a url", false);
    assert_eq!(r, Err(EndpointError::Url(url::ParseError::RelativeUrlWithoutBase)));
    assert_eq!(r.unwrap_err().kind(), EndpointFailure::Url);
}

#[test]
fn marketdata_url_joins_md_ws() {
    assert_eq!(marketdata_ws_url("http://example.com"), Ok("ws://example.com/md/ws".to_string()));
    assert_eq!(
        marketdata_ws_url("https://gateway.architect.exchange"),
        Ok("wss://gateway.architect.exchange/md/ws".to_string())
    );
    assert_eq!(marketdata_ws_url("ws://example.com"), Err(EndpointError::InvalidScheme));
    assert_eq!(marketdata_ws_url(""), Err(EndpointError::Url(url::ParseError::RelativeUrlWithoutBase)));
}

#[test]
fn order_gateway_url_without_query() {
    assert_eq!(
        order_gateway_ws_url("https://example.com/", "ws", false, None),
        Ok("wss://example.com/ws".to_string())
    );
    assert_eq!(
        order_gateway_ws_url("http://example.com/orders/", "ws", false, None),
        Ok("ws://example.com/orders/ws".to_string())
    );
}

#[test]
fn order_gateway_url_with_session_query() {
    assert_eq!(
        order_gateway_ws_url("https://example.com/", "ws", true, Some("A")),
        Ok("wss://example.com/ws?cancel_on_disconnect=true&account_id=A".to_string())
    );
    assert_eq!(
        order_gateway_ws_url("https://example.com/", "ws", true, None),
        Ok("wss://example.com/ws?cancel_on_disconnect=true".to_string())
    );
    assert_eq!(
        order_gateway_ws_url("https://example.com/", "ws", false, Some("acc 1&x")),
        Ok("wss://example.com/ws?account_id=acc+1%26x".to_string())
    );
}

#[test]
fn order_gateway_url_refuses_websocket_base() {
    assert_eq!(order_gateway_ws_url("wss://example.com/", "ws", true, None), Err(EndpointError::InvalidScheme));
}

#[test]
fn rest_url_joins_path() {
    assert_eq!(rest_url("https://example.com/api/", "orders"), Ok("https://example.com/api/orders".to_string()));
    assert_eq!(rest_url("https://example.com/api", "orders"), Ok("https://example.com/orders".to_string()));
    assert_eq!(rest_url("nope", "x"), Err(EndpointError::Url(url::ParseError::RelativeUrlWithoutBase)));
}

#[test]
fn host_header_drops_user_part() {
    assert_eq!(host_header("wss://user:pw@example.com:8443/ws"), Ok("example.com:8443".to_string()));
    assert_eq!(host_header("wss://example.com/ws?a=1"), Ok("example.com".to_string()));
}

#[test]
fn client_endpoints_of_production() {
    let c = client_endpoints("https://gateway.architect.exchange").unwrap();
    assert_eq!(c.base_url, "https://gateway.architect.exchange/");
    assert_eq!(c.api_gateway_base_url, "https://gateway.architect.exchange/api/");
    assert_eq!(c.order_gateway_base_url, "https://gateway.architect.exchange/orders/");
    assert!(matches!(client_endpoints("gateway"), Err(EndpointError::Url(_))));
}

#[test]
fn query_fits_counts_growth() {
    assert!(query_fits(10, &vec![pair("a", "b")]));
    assert!(!query_fits(0xFFFF_FFF0, &vec![pair("abcd", "efgh")]));
    assert!(query_fits(0xFFFF_FFFE, &vec![]));
    assert!(!query_fits(0xFFFF_FFFF, &vec![]));
}
