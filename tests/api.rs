use polygon_client::api::{Polygon, Request};
use polygon_client::common::{ResponseObject, Ticker};
use polygon_client::error::PolygonError;

const LOCAL: &str = "http://127.0.0.1:1234";

const TICKERS_BODY: &str = r#"{
  "results": [
    {
      "ticker": "A",
      "name": "Agilent Technologies Inc.",
      "market": "stocks",
      "locale": "us",
      "primary_exchange": "XNYS",
      "type": "CS",
      "active": true,
      "currency_name": "usd",
      "cik": "0001090872",
      "composite_figi": "BBG000C2V3D6",
      "share_class_figi": "BBG001SCTQY4",
      "last_updated_utc": "2024-01-08T00:00:00Z"
    },
    {
      "ticker": "AA",
      "name": "Alcoa Corporation",
      "market": "stocks",
      "locale": "us",
      "primary_exchange": "XNYS",
      "type": "CS",
      "active": true,
      "currency_name": "usd",
      "cik": "0001675149",
      "composite_figi": "BBG00B3T3HD3",
      "share_class_figi": "BBG00B3T3HF1",
      "last_updated_utc": "2024-01-08T00:00:00Z",
      "delisted_utc": null
    }
  ],
  "status": "OK",
  "request_id": "e70013d92930de90e089dc8fa098888e",
  "count": 1000,
  "next_url": "https://api.polygon.io/v3/reference/tickers?cursor=abc"
}"#;

const FINANCIALS_BODY: &str = r#"{
  "results": [{"cik": "0000320193", "company_name": "Apple Inc.", "tickers": ["AAPL"]}],
  "status": "OK",
  "request_id": "8a4f2a2bd1d0c5f1a6f3d1e5b0f6c7d8",
  "count": 1
}"#;

fn local_client() -> Polygon {
    Polygon::new_with_base_url(Some("test-key".to_string()), LOCAL.to_string()).unwrap()
}

#[test]
fn test_polygon_markets() {
    let polygon = Polygon::new_with_base_url(Some("test-key".to_string()), LOCAL.to_string())
        .expect("Failed to create Polygon API");
    let request = polygon.markets().expect("Failed to fetch markets....");
    assert_eq!(
        request.url,
        format!("{}{}{}", LOCAL, "/v3/reference/tickers", "?market=stocks&active=true")
    );
    assert_eq!(request.authorization, "Bearer test-key");
    let response =
        Polygon::fetch(&request, 200, TICKERS_BODY.to_string()).expect("Failed to fetch markets....");

    let ticker: Ticker =
        Ticker::from_value(response.results.first().unwrap()).expect("Failed to deserialize Ticker...");
    assert_eq!(ticker.ticker, "A");
    assert_eq!(ticker.name, "Agilent Technologies Inc.");
    assert_eq!(ticker.market, "stocks");
    assert_eq!(ticker.locale, "us");
    assert_eq!(ticker.currency_name, "usd");
    assert_eq!(ticker.active, true);
    assert_eq!(ticker.primary_exchange, "XNYS");
    assert_eq!(ticker.type_, "CS");
    assert_eq!(response.status, "OK");
}

#[test]
fn api_test_polygon_financials() {
    let polygon = local_client();
    let aapl_request = polygon.financials("AAPL".to_string()).unwrap();
    let all_request = polygon.financials("".to_string()).unwrap();
    assert_eq!(
        aapl_request.url,
        format!("{}{}{}", LOCAL, "/vX/reference/financials", "?ticker=AAPL")
    );
    assert_eq!(all_request.url, format!("{}{}", LOCAL, "/vX/reference/financials"));

    let aapl_response = Polygon::fetch(&aapl_request, 200, FINANCIALS_BODY.to_string()).unwrap();
    let financials_response = Polygon::fetch(&all_request, 200, FINANCIALS_BODY.to_string()).unwrap();
    assert_eq!(aapl_response.status, "OK");
    assert_eq!(financials_response.status, "OK");
}

#[test]
fn test_polygon_api() {
    let polygon = Polygon::new(Some("test-key".to_string())).unwrap();
    let request = polygon.markets().unwrap();
    assert_eq!(
        request.url,
        "https://api.polygon.io/v3/reference/tickers?market=stocks&active=true"
    );
    let response = Polygon::fetch(&request, 200, TICKERS_BODY.to_string()).unwrap();
    assert_eq!(response.status, "OK");
}

#[test]
fn polygon_test_polygon_financials() {
    let polygon = Polygon::new(Some("test-key".to_string())).unwrap();
    let aapl_request = polygon.financials("AAPL".to_string()).unwrap();
    assert_eq!(
        aapl_request.url,
        "https://api.polygon.io/vX/reference/financials?ticker=AAPL"
    );
    let aapl_response = Polygon::fetch(&aapl_request, 200, FINANCIALS_BODY.to_string()).unwrap();
    assert_eq!(aapl_response.status, "OK");
    let request = polygon.financials("".to_string()).unwrap();
    assert_eq!(request.url, "https://api.polygon.io/vX/reference/financials");
    let response = Polygon::fetch(&request, 200, FINANCIALS_BODY.to_string()).unwrap();
    assert_eq!(response.status, "OK");
}

#[test]
fn missing_key_gives_no_client() {
    assert!(matches!(Polygon::new(None), Err(PolygonError::Configuration)));
    assert!(matches!(
        Polygon::new_with_base_url(None, LOCAL.to_string()),
        Err(PolygonError::Configuration)
    ));
}

#[test]
fn client_keeps_its_configuration() {
    let polygon = Polygon::new(Some("abc".to_string())).unwrap();
    assert_eq!(polygon.base_url(), "https://api.polygon.io");
    assert_eq!(polygon.api_key(), "abc");
    assert_eq!(polygon.authorization(), "Bearer abc");
}

#[test]
fn financials_query_holds_only_the_symbol() {
    let request = local_client().financials("BRK.A".to_string()).unwrap();
    let (_, query) = request.url.split_once('?').unwrap();
    assert_eq!(query, "ticker=BRK.A");
    let request = local_client().financials(String::new()).unwrap();
    assert!(!request.url.contains('?'));
}

#[test]
fn markets_query_is_fixed() {
    for base in ["http://localhost:8080", "https://api.polygon.io"] {
        let polygon = Polygon::new_with_base_url(Some("k".to_string()), base.to_string()).unwrap();
        let request = polygon.markets().unwrap();
        let (path, query) = request.url.split_once('?').unwrap();
        assert!(path.ends_with("/v3/reference/tickers"));
        assert_eq!(query, "market=stocks&active=true");
    }
}

#[test]
fn base_that_is_no_url_is_refused() {
    let polygon = Polygon::new_with_base_url(Some("k".to_string()), "not a url".to_string()).unwrap();
    match polygon.markets() {
        Err(PolygonError::InvalidUrl { url }) => {
            assert_eq!(url, "not a url/v3/reference/tickers?market=stocks&active=true")
        }
        other => panic!("unexpected {:?}", other),
    }
}

fn local_request() -> Request {
    local_client().markets().unwrap()
}

#[test]
fn not_found_is_an_http_status_error() {
    match Polygon::fetch(&local_request(), 404, "no such page".to_string()) {
        Err(PolygonError::HttpStatus { url, status, body }) => {
            assert_eq!(url, "http://127.0.0.1:1234/v3/reference/tickers?market=stocks&active=true");
            assert_eq!(status, 404);
            assert_eq!(body, "no such page");
        }
        other => panic!("unexpected {:?}", other),
    }
}

#[test]
fn server_error_is_an_http_status_error() {
    match Polygon::fetch(&local_request(), 500, TICKERS_BODY.to_string()) {
        Err(PolygonError::HttpStatus { status, body, .. }) => {
            assert_eq!(status, 500);
            assert_eq!(body, TICKERS_BODY);
        }
        other => panic!("unexpected {:?}", other),
    }
}

#[test]
fn body_that_is_no_json_is_a_decode_error() {
    match Polygon::fetch(&local_request(), 200, "<html>oops</html>".to_string()) {
        Err(PolygonError::Decode { url, .. }) => {
            assert_eq!(url, "http://127.0.0.1:1234/v3/reference/tickers?market=stocks&active=true")
        }
        other => panic!("unexpected {:?}", other),
    }
}

#[test]
fn body_of_another_shape_is_a_decode_error() {
    let r = Polygon::fetch(&local_request(), 200, r#"{"status":"OK"}"#.to_string());
    assert!(matches!(r, Err(PolygonError::Decode { .. })));
    let r = Polygon::fetch(&local_request(), 200, "[1,2]".to_string());
    assert!(matches!(r, Err(PolygonError::Decode { .. })));
}

#[test]
fn envelope_decodes_field_by_field() {
    let e = ResponseObject::from_json(TICKERS_BODY).unwrap();
    assert_eq!(e.count, 1000);
    assert_eq!(
        e.next_url.as_deref(),
        Some("https://api.polygon.io/v3/reference/tickers?cursor=abc")
    );
    assert_eq!(e.request_id, "e70013d92930de90e089dc8fa098888e");
    assert_eq!(e.results.len(), 2);
    assert_eq!(e.status, "OK");
    let second = Ticker::from_value(&e.results[1]).unwrap();
    assert_eq!(second.ticker, "AA");
    assert_eq!(second.delisted_utc, None);
}

#[test]
fn count_must_fit_and_next_url_may_be_null() {
    let base = r#""request_id":"r","results":[],"status":"OK""#;
    let e = ResponseObject::from_json(&format!("{{\"count\":-5,\"next_url\":null,{}}}", base)).unwrap();
    assert_eq!(e.count, -5);
    assert_eq!(e.next_url, None);
    assert!(ResponseObject::from_json(&format!("{{\"count\":2147483648,{}}}", base)).is_err());
    assert!(ResponseObject::from_json(&format!("{{\"count\":1.5,{}}}", base)).is_err());
    assert!(ResponseObject::from_json(&format!("{{\"count\":1,\"next_url\":3,{}}}", base)).is_err());
    assert!(ResponseObject::from_json(&format!("{{\"next_url\":\"x\",{}}}", base)).is_err());
}

#[test]
fn ticker_needs_its_fields() {
    let v: serde_json::Value = serde_json::from_str(r#"{"ticker":"A"}"#).unwrap();
    assert!(Ticker::from_value(&v).is_err());
}

#[test]
fn paged_envelope_is_returned_as_is() {
    let response = Polygon::fetch(&local_request(), 200, TICKERS_BODY.to_string()).unwrap();
    assert_eq!(response.count, 1000);
    assert_eq!(response.results.len(), 2);
    assert_eq!(
        response.next_url.as_deref(),
        Some("https://api.polygon.io/v3/reference/tickers?cursor=abc")
    );
    assert_eq!(response.request_id, "e70013d92930de90e089dc8fa098888e");
}
