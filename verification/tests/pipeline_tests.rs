use jsonwebtoken::{encode, EncodingKey, Header};
use search::pipeline::{
    authorize, begin_search, complete_search, extract_query, new_request, respond, Response,
};
use search::task::Task;

const SECRET: &str = "supersecretkey";

fn make_header(secret: &str) -> String {
    let mut claims = serde_json::Map::new();
    claims.insert("exp".to_string(), serde_json::Value::from(4102444800u64));
    let token = encode(
        &Header::default(),
        &serde_json::Value::Object(claims),
        &EncodingKey::from_secret(secret.as_bytes()),
    )
    .unwrap();
    format!("Bearer {}", token)
}

fn store() -> Vec<Task> {
    vec![
        Task {
            id: "1".to_string(),
            title: "Buy milk".to_string(),
            description: "groceries".to_string(),
        },
        Task {
            id: "2".to_string(),
            title: "Write report".to_string(),
            description: "quarterly".to_string(),
        },
    ]
}

fn run(
    header: Option<&str>,
    secret: &str,
    q: Option<&str>,
    fetched: Option<Vec<Task>>,
) -> Response {
    let state = new_request();
    let state = authorize(state, header, secret);
    let state = extract_query(state, q.map(|text| text.to_string()));
    let (state, _filter) = begin_search(state);
    let state = complete_search(state, fetched);
    respond(state)
}

#[test]
fn milk_query_returns_the_matching_record() {
    let header = make_header(SECRET);
    let response = run(Some(&header), SECRET, Some("milk"), Some(store()));
    assert_eq!(response.status, 200);
    assert_eq!(
        response.body,
        r#"[{"_id":"1","title":"Buy milk","description":"groceries"}]"#
    );
}

#[test]
fn upper_case_query_returns_the_same_record() {
    let header = make_header(SECRET);
    let lower = run(Some(&header), SECRET, Some("milk"), Some(store()));
    let upper = run(Some(&header), SECRET, Some("MILK"), Some(store()));
    assert_eq!(upper.status, 200);
    assert_eq!(upper.body, lower.body);
    assert_eq!(
        upper.body,
        r#"[{"_id":"1","title":"Buy milk","description":"groceries"}]"#
    );
}

#[test]
fn missing_header_yields_401_with_empty_body() {
    let response = run(None, SECRET, Some("milk"), Some(store()));
    assert_eq!(response.status, 401);
    assert_eq!(response.body, "");
}

#[test]
fn bad_token_yields_401_whatever_the_query() {
    let response = run(Some("Bearer nonsense"), SECRET, Some("milk"), Some(store()));
    assert_eq!(response.status, 401);
    assert_eq!(response.body, "");
    let response = run(Some("Bearer nonsense"), SECRET, Some(""), Some(store()));
    assert_eq!(response.status, 401);
    assert_eq!(response.body, "");
}

#[test]
fn wrong_secret_yields_401() {
    let header = make_header("another-secret");
    let response = run(Some(&header), SECRET, Some("milk"), Some(store()));
    assert_eq!(response.status, 401);
    assert_eq!(response.body, "");
}

#[test]
fn storage_failure_yields_500_with_empty_body() {
    let header = make_header(SECRET);
    let response = run(Some(&header), SECRET, Some("milk"), None);
    assert_eq!(response.status, 500);
    assert_eq!(response.body, "");
}

#[test]
fn missing_query_parameter_yields_400() {
    let header = make_header(SECRET);
    let response = run(Some(&header), SECRET, None, Some(store()));
    assert_eq!(response.status, 400);
    assert_eq!(response.body, "");
}

#[test]
fn empty_query_returns_every_record() {
    let header = make_header(SECRET);
    let response = run(Some(&header), SECRET, Some(""), Some(store()));
    assert_eq!(response.status, 200);
    let expected = r#"[{"_id":"1","title":"Buy milk","description":"groceries"},{"_id":"2","title":"Write report","description":"quarterly"}]"#;
    assert_eq!(response.body, expected);
}

#[test]
fn query_matching_nothing_returns_empty_array_with_200() {
    let header = make_header(SECRET);
    let response = run(Some(&header), SECRET, Some("holiday"), Some(store()));
    assert_eq!(response.status, 200);
    assert_eq!(response.body, "[]");
}

#[test]
fn repeating_a_request_gives_the_same_body() {
    let header = make_header(SECRET);
    let first = run(Some(&header), SECRET, Some("quarterly"), Some(store()));
    let second = run(Some(&header), SECRET, Some("quarterly"), Some(store()));
    assert_eq!(first.status, 200);
    assert_eq!(first.body, second.body);
}

#[test]
fn failure_passes_through_every_later_step() {
    // The storage outcome is ignored once the request has failed: an
    // unauthorized request never reports a storage error.
    let response = run(Some("Bearer nonsense"), SECRET, Some("milk"), None);
    assert_eq!(response.status, 401);
    assert_eq!(response.body, "");
}

#[test]
fn filter_is_built_from_the_query() {
    let header = make_header(SECRET);
    let state = new_request();
    let state = authorize(state, Some(header.as_str()), SECRET);
    let state = extract_query(state, Some("Milk".to_string()));
    let (_state, filter) = begin_search(state);
    let filter = filter.expect("a live request builds a filter");
    assert_eq!(filter.pattern, "Milk");
    assert!(filter.case_insensitive);
}
