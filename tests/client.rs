use finnhub::client::{Client, ClientError, Step, DEFAULT_ROOT, TOO_MANY_REQUESTS};
use finnhub::response::ApiResponse;
use finnhub::url::{escape_text, UrlBuilder};

#[derive(Debug, Clone, PartialEq)]
struct Quote {
    c: f64,
    h: f64,
    l: f64,
    o: f64,
}

fn field(v: &serde_json::Value, name: &str) -> Result<f64, String> {
    v.get(name)
        .and_then(|x| x.as_f64())
        .ok_or_else(|| format!("missing field `{}`", name))
}

fn decode_quote(body: &[u8]) -> Result<Quote, String> {
    let v: serde_json::Value = serde_json::from_slice(body).map_err(|e| e.to_string())?;
    Ok(Quote {
        c: field(&v, "c")?,
        h: field(&v, "h")?,
        l: field(&v, "l")?,
        o: field(&v, "o")?,
    })
}

fn example_client() -> Client {
    Client {
        api_key: "abc123".to_string(),
        url_bldr: UrlBuilder::new("https://api.example.com/v1"),
    }
}

#[test]
fn example_quote_call() {
    let client = example_client();
    let mut params = vec![("symbol", "AAPL".to_string())];
    let request = client.prepare("quote", &mut params).unwrap();
    let expected = "https://api.example.com/v1/quote?symbol=AAPL&token=abc123";
    assert_eq!(request.text, expected);
    assert_eq!(request.url.as_str(), expected);
    let body = br#"{"c":150.0,"h":151.2,"l":149.0,"o":150.5}"#;
    let request = match request.on_status::<Quote>(200) {
        Step::DecodeBody(r) => r,
        Step::Finished(..) => panic!("status 200 must lead to decoding"),
    };
    let (outcome, url) = request.on_body(decode_quote(body)).unwrap();
    assert_eq!(url.as_str(), expected);
    let quote = outcome.try_into_response().unwrap();
    assert_eq!(quote, Quote { c: 150.0, h: 151.2, l: 149.0, o: 150.5 });
}

#[test]
fn credential_is_appended_last() {
    let client = example_client();
    let mut params = vec![("b", "2".to_string()), ("a", "1".to_string())];
    let request = client.prepare("stock/candle", &mut params).unwrap();
    assert_eq!(
        request.text,
        "https://api.example.com/v1/stock/candle?b=2&a=1&token=abc123"
    );
    assert_eq!(params.len(), 3);
    assert_eq!(params[2], ("token", "abc123".to_string()));
}

#[test]
fn credential_alone_without_parameters() {
    let client = example_client();
    let mut params: Vec<(&str, String)> = vec![];
    let request = client.prepare("forex/exchange", &mut params).unwrap();
    assert_eq!(
        request.text,
        "https://api.example.com/v1/forex/exchange?token=abc123"
    );
}

#[test]
fn url_is_deterministic() {
    let b = UrlBuilder::new("https://api.example.com/v1");
    let params = vec![("symbol", "AAPL".to_string()), ("symbol", "MSFT".to_string())];
    let first = b.url("quote", &params);
    let second = b.url("quote", &params.clone());
    assert_eq!(first, second);
    assert_eq!(first, "https://api.example.com/v1/quote?symbol=AAPL&symbol=MSFT");
}

#[test]
fn url_without_parameters() {
    let b = UrlBuilder::new("https://api.example.com/v1");
    assert_eq!(b.url("forex/exchange", &vec![]), "https://api.example.com/v1/forex/exchange?");
}

#[test]
fn parameters_are_escaped() {
    let b = UrlBuilder::new("https://api.example.com/v1");
    let params = vec![("q", "a b&c=d".to_string()), ("k~_.-", "é".to_string())];
    assert_eq!(
        b.url("search", &params),
        "https://api.example.com/v1/search?q=a%20b%26c%3Dd&k~_.-=%C3%A9"
    );
}

#[test]
fn escape_keeps_unreserved_and_encodes_the_rest() {
    assert_eq!(escape_text(""), "");
    assert_eq!(escape_text("AAPL09az-._~"), "AAPL09az-._~");
    assert_eq!(escape_text("/?#"), "%2F%3F%23");
    assert_eq!(escape_text("\n"), "%0A");
    assert_eq!(escape_text("€"), "%E2%82%AC");
}

#[test]
fn rate_limit_status_skips_decoding() {
    let client = example_client();
    let request = client.prepare("quote", &mut vec![("symbol", "AAPL".to_string())]).unwrap();
    match request.on_status::<Quote>(TOO_MANY_REQUESTS) {
        Step::Finished(outcome, url) => {
            assert!(outcome.is_rate_limit_reached());
            assert!(!outcome.is_response());
            assert_eq!(
                url.as_str(),
                "https://api.example.com/v1/quote?symbol=AAPL&token=abc123"
            );
        }
        Step::DecodeBody(_) => panic!("status 429 must not lead to decoding"),
    }
}

#[test]
fn other_statuses_lead_to_decoding() {
    let client = example_client();
    for status in [200u16, 404, 500, 428, 430] {
        let request = client.prepare("quote", &mut vec![]).unwrap();
        assert!(matches!(request.on_status::<Quote>(status), Step::DecodeBody(_)));
    }
}

#[test]
fn wrong_shape_is_a_decode_error() {
    let client = example_client();
    let request = client.prepare("quote", &mut vec![("symbol", "AAPL".to_string())]).unwrap();
    let decoded = decode_quote(br#"{"c":150.0,"h":151.2,"l":149.0}"#);
    assert_eq!(
        request.on_body(decoded).unwrap_err(),
        ClientError::DecodeError("missing field `o`".to_string())
    );
}

#[test]
fn malformed_json_is_a_decode_error() {
    let client = example_client();
    let request = client.prepare("quote", &mut vec![]).unwrap();
    let result = request.on_body(decode_quote(b"<html>bad gateway</html>"));
    assert!(matches!(result, Err(ClientError::DecodeError(_))));
}

#[test]
fn unparseable_url_is_invalid_url() {
    let client = Client {
        api_key: "abc123".to_string(),
        url_bldr: UrlBuilder::new("not a url"),
    };
    let mut params = vec![("symbol", "AAPL".to_string())];
    let result = client.prepare("quote", &mut params);
    assert!(matches!(result, Err(ClientError::InvalidUrl(_))));
    assert_eq!(params.last().unwrap().0, "token");

    let bad_port = Client {
        api_key: "abc123".to_string(),
        url_bldr: UrlBuilder::new("https://api.example.com:99999/v1"),
    };
    assert!(matches!(
        bad_port.prepare("quote", &mut vec![]),
        Err(ClientError::InvalidUrl(_))
    ));
}

#[test]
fn default_client_uses_provider_root() {
    let client = Client::new("key".to_string());
    assert_eq!(client.api_key, "key");
    assert_eq!(client.url_bldr.root, DEFAULT_ROOT);
    assert_eq!(client.url_bldr.root, "https://finnhub.io/api/v1");
    let v1 = Client::v1("key".to_string());
    assert_eq!(v1.url_bldr.root, "https://finnhub.io/api/v1");
}

#[test]
fn maybe_add_appends_only_present_values() {
    let mut params = vec![("exchange", "US".to_string())];
    Client::maybe_add(&mut params, "mic", None);
    assert_eq!(params, vec![("exchange", "US".to_string())]);
    Client::maybe_add(&mut params, "currency", Some("USD".to_string()));
    assert_eq!(
        params,
        vec![("exchange", "US".to_string()), ("currency", "USD".to_string())]
    );
}

#[test]
fn api_response_accessors() {
    let r: ApiResponse<u32> = ApiResponse::Response(7);
    assert!(r.is_response());
    assert!(!r.is_rate_limit_reached());
    assert_eq!(r.as_response(), Some(&7));
    assert_eq!(r.try_into_response().unwrap(), 7);

    let l: ApiResponse<u32> = ApiResponse::RateLimitReached;
    assert!(!l.is_response());
    assert!(l.is_rate_limit_reached());
    assert_eq!(l.as_response(), None);
    assert!(matches!(l.try_into_response(), Err(ApiResponse::RateLimitReached)));
}
