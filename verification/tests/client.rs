use postgrest::request::{Method, RequestError};
use postgrest::Postgrest;

const REST_URL: &str = "http://localhost:3000";

#[test]
fn initialize() {
    assert_eq!(Postgrest::new(REST_URL).url(), REST_URL);
}

#[test]
fn switch_schema() {
    assert_eq!(
        Postgrest::new(REST_URL).schema("private").schema_name(),
        &Some("private".to_string())
    );
}

#[test]
fn with_insert_header() {
    assert_eq!(
        Postgrest::new(REST_URL)
            .insert_header("apikey", "super.secret.key")
            .unwrap()
            .headers()
            .get("apikey")
            .unwrap(),
        "super.secret.key"
    );
}

#[test]
fn new_client_has_no_schema_and_no_header() {
    let client = Postgrest::new("http://host/");
    assert_eq!(client.url(), "http://host/");
    assert_eq!(client.schema_name(), &None);
    assert!(client.headers().is_empty());
}

#[test]
fn insert_header_refuses_bad_text() {
    assert_eq!(
        Postgrest::new(REST_URL).insert_header("api key", "v").err(),
        Some(RequestError::InvalidHeaderName)
    );
    assert_eq!(
        Postgrest::new(REST_URL).insert_header("apikey", "v\r\n").err(),
        Some(RequestError::InvalidHeaderValue)
    );
}

#[test]
fn insert_header_overwrites() {
    let client = Postgrest::new(REST_URL)
        .insert_header("apikey", "one")
        .unwrap()
        .insert_header("ApiKey", "two")
        .unwrap();
    assert_eq!(client.headers().len(), 1);
    assert_eq!(client.headers().get("apikey").unwrap(), "two");
}

#[test]
fn from_select_all() {
    let builder = Postgrest::new(REST_URL).from("users").select("*");
    assert_eq!(builder.method(), Method::GET);
    assert_eq!(builder.url(), "http://localhost:3000/users");
    assert_eq!(
        builder.queries(),
        &vec![("select".to_string(), "*".to_string())]
    );
    assert_eq!(builder.body(), &None);
    assert_eq!(builder.is_rpc(), false);
}

#[test]
fn from_joins_the_address_as_it_is() {
    assert_eq!(
        Postgrest::new("http://host/").from("a b/c").url(),
        "http://host//a b/c"
    );
    assert_eq!(Postgrest::new("").from("").url(), "/");
}

#[test]
fn from_copies_schema_and_headers() {
    let client = Postgrest::new(REST_URL)
        .schema("personal")
        .insert_header("apikey", "k")
        .unwrap();
    let builder = client.from("users");
    assert_eq!(builder.schema(), &Some("personal".to_string()));
    assert_eq!(builder.headers().get("apikey").unwrap(), "k");
    assert_eq!(builder.headers().get("Accept").unwrap(), "application/json");
    assert_eq!(builder.headers().len(), 2);
    assert_eq!(client.headers().len(), 1);
}

#[test]
fn schema_set_later_does_not_reach_a_builder() {
    let client = Postgrest::new(REST_URL);
    let builder = client.from("users");
    let client = client.schema("personal");
    assert_eq!(builder.schema(), &None);
    assert_eq!(client.from("users").schema(), &Some("personal".to_string()));
}

#[test]
fn rpc_builds_a_call() {
    let builder = Postgrest::new(REST_URL).rpc("add", "{\"a\":1,\"b\":2}");
    assert_eq!(builder.method(), Method::POST);
    assert_eq!(builder.body(), &Some("{\"a\":1,\"b\":2}".to_string()));
    assert_eq!(builder.is_rpc(), true);
    assert!(builder.url().ends_with("/rpc/add"));
    assert_eq!(builder.url(), "http://localhost:3000/rpc/add");
    assert!(builder.queries().is_empty());
}

#[test]
fn rpc_in_a_schema() {
    let request = Postgrest::new(REST_URL)
        .schema("personal")
        .rpc("get_status", "{\"name_param\": \"leroyjenkins\"}")
        .build()
        .unwrap();
    assert_eq!(request.url, "http://localhost:3000/rpc/get_status");
    assert_eq!(
        request.headers.get("Content-Profile").unwrap(),
        "personal"
    );
    assert_eq!(
        request.headers.get("Content-Type").unwrap(),
        "application/json"
    );
    assert_eq!(
        request.body,
        Some("{\"name_param\": \"leroyjenkins\"}".to_string())
    );
}

#[test]
fn read_in_a_schema() {
    let request = Postgrest::new(REST_URL)
        .schema("private")
        .from("channels")
        .select("*")
        .build()
        .unwrap();
    assert_eq!(request.method, Method::GET);
    assert_eq!(request.headers.get("Accept-Profile").unwrap(), "private");
}

#[test]
fn write_in_a_schema() {
    let request = Postgrest::new(REST_URL)
        .schema("private")
        .from("channels")
        .update("{\"slug\": \"private\"}")
        .eq("slug", "random")
        .build()
        .unwrap();
    assert_eq!(request.method, Method::PATCH);
    assert_eq!(request.headers.get("Content-Profile").unwrap(), "private");
    assert_eq!(
        request.queries,
        vec![("slug".to_string(), "eq.random".to_string())]
    );
}

#[test]
fn has_room_follows_the_default_headers() {
    let client = Postgrest::new(REST_URL);
    assert!(client.has_room(4096));
    assert!(!client.has_room(4097));
    let client = client.insert_header("apikey", "k").unwrap();
    assert!(client.has_room(4095));
    assert!(!client.has_room(4096));
}
