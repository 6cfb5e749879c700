use stripe::client::{Client, Method, Params};
use stripe::form::form_body;
use stripe::headers::{HeaderValue, Headers};

fn header<'a>(headers: &'a Headers, name: &str) -> Vec<&'a HeaderValue> {
    headers.entries.iter().filter(|h| h.name == name).map(|h| &h.value).collect()
}

fn example_params() -> serde_json::Value {
    let mut nested = serde_json::Map::new();
    nested.insert("x".to_string(), serde_json::Value::from(1u64));
    let mut params = serde_json::Map::new();
    params.insert("foo".to_string(), serde_json::Value::from("bar"));
    params.insert("nested".to_string(), serde_json::Value::Object(nested));
    serde_json::Value::Object(params)
}

#[test]
fn url_drops_leading_separator() {
    assert_eq!(Client::url("/charges"), "https://api.stripe.com/v1/charges");
    assert_eq!(Client::url("/customers/cus_1"), "https://api.stripe.com/v1/customers/cus_1");
    assert_eq!(Client::url("/"), "https://api.stripe.com/v1/");
}

#[test]
fn get_builds_authenticated_request() {
    let client = Client::new("sk_test_key");
    let request = client.get("/charges");
    assert_eq!(request.method, Method::Get);
    assert_eq!(request.url, "https://api.stripe.com/v1/charges");
    assert!(request.body.is_none());
    assert_eq!(request.headers.entries.len(), 2);
    assert_eq!(header(&request.headers, "Authorization"), vec![&HeaderValue::Basic("sk_test_key".to_string())]);
    assert_eq!(
        header(&request.headers, "Content-Type"),
        vec![&HeaderValue::Text("application/x-www-form-urlencoded".to_string())]
    );
}

#[test]
fn methods_of_each_operation() {
    let client = Client::new("sk");
    assert_eq!(client.post_empty("/charges/ch_1/capture").method, Method::Post);
    assert!(client.post_empty("/charges/ch_1/capture").body.is_none());
    assert_eq!(client.delete("/customers/cus_1").method, Method::Delete);
    assert!(client.delete("/customers/cus_1").body.is_none());
    assert_eq!(client.post("/charges", "amount=100").method, Method::Post);
}

#[test]
fn account_header_present_once_when_scoped() {
    let mut client = Client::new("sk");
    client.set_stripe_account("acct_1");
    let request = client.get("/charges");
    assert_eq!(header(&request.headers, "Stripe-Account"), vec![&HeaderValue::Text("acct_1".to_string())]);
    assert_eq!(request.headers.entries.len(), 3);
}

#[test]
fn account_header_absent_when_not_scoped() {
    let client = Client::new("sk");
    let request = client.delete("/customers/cus_1");
    assert!(header(&request.headers, "Stripe-Account").is_empty());
}

#[test]
fn with_leaves_original_unscoped() {
    let original = Client::new("sk");
    let clone = original.with(Params { stripe_account: Some("acct_123".to_string()) });
    let cloned_request = clone.get("/charges");
    assert_eq!(
        header(&cloned_request.headers, "Stripe-Account"),
        vec![&HeaderValue::Text("acct_123".to_string())]
    );
    assert_eq!(header(&cloned_request.headers, "Authorization"), vec![&HeaderValue::Basic("sk".to_string())]);
    let request = original.get("/charges");
    assert!(header(&request.headers, "Stripe-Account").is_empty());
    assert!(original.params.stripe_account.is_none());
}

#[test]
fn set_headers_twice_changes_nothing() {
    let mut client = Client::new("sk");
    client.set_stripe_account("acct_9");
    let mut headers = Headers::new();
    client.set_headers(&mut headers);
    let once = headers.clone();
    client.set_headers(&mut headers);
    assert_eq!(once.entries.len(), headers.entries.len());
    for (a, b) in once.entries.iter().zip(headers.entries.iter()) {
        assert_eq!(a.name, b.name);
        assert_eq!(a.value, b.value);
    }
}

#[test]
fn set_replaces_entry_of_same_name() {
    let mut headers = Headers::new();
    headers.set("Stripe-Account".to_string(), HeaderValue::Text("acct_a".to_string()));
    headers.set("Other".to_string(), HeaderValue::Text("x".to_string()));
    headers.set("Stripe-Account".to_string(), HeaderValue::Text("acct_b".to_string()));
    assert_eq!(headers.entries.len(), 2);
    assert_eq!(headers.entries[0].name, "Stripe-Account");
    assert_eq!(headers.entries[0].value, HeaderValue::Text("acct_b".to_string()));
    assert_eq!(headers.entries[1].value, HeaderValue::Text("x".to_string()));
}

#[test]
fn post_body_nests_keys_with_encoded_brackets() {
    let client = Client::new("sk");
    let query = serde_qs::to_string(&example_params()).unwrap();
    let request = client.post("/v1/example", &query);
    assert_eq!(request.body.as_deref(), Some("foo=bar&nested%5Bx%5D=1"));
    assert_eq!(request.url, "https://api.stripe.com/v1/v1/example");
}

#[test]
fn encoding_twice_gives_identical_bytes() {
    let first = form_body(&serde_qs::to_string(&example_params()).unwrap());
    let second = form_body(&serde_qs::to_string(&example_params()).unwrap());
    assert_eq!(first.as_bytes(), second.as_bytes());
}

#[test]
fn form_body_escapes_only_brackets() {
    assert_eq!(form_body(""), "");
    assert_eq!(form_body("a=1"), "a=1");
    assert_eq!(form_body("card[number]=4242&x[]=%5B"), "card%5Bnumber%5D=4242&x%5B%5D=%5B");
    assert_eq!(form_body("é[ü]"), "é%5Bü%5D");
}

#[test]
fn target_parses_request_address() {
    let client = Client::new("sk");
    let target = client.get("/charges").target().unwrap();
    assert_eq!(target.path(), "/v1/charges");
    assert_eq!(target.host(), Some("api.stripe.com"));
}
