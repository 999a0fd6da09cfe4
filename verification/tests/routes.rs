use dates_backend::models::palms;
use dates_backend::models::sea_orm_active_enums::Growth;
use dates_backend::models::users::Model;
use dates_backend::routes::miror_agent::{find_header, get_header, header_text, miror_agent, HeaderEntry};
use dates_backend::routes::miror_body::{miror_body, RequestBody};
use dates_backend::routes::path_vars::path_vars;
use dates_backend::routes::query_params::{query_params, QueryParams};
use dates_backend::routes::return_json::return_json;
use dates_backend::routes::users::{palms_json, to_palm, translate_error, user_detalis, Palm};
use dates_backend::utilities::errors::{AppError, DbError};

fn header(name: &str, value: &[u8]) -> HeaderEntry {
    HeaderEntry { name: name.as_bytes().to_vec(), value: value.to_vec() }
}

fn alice() -> Model {
    Model {
        id: 7,
        name: "Alice".to_string(),
        email: "alice@example.com".to_string(),
        password: "$2b$hash".to_string(),
        token: Some("tok".to_string()),
        coins: 12,
        dates: 34,
    }
}

#[test]
fn path_vars_renders_decimal() {
    assert_eq!(path_vars(0), "0");
    assert_eq!(path_vars(42), "42");
    assert_eq!(path_vars(-7), "-7");
    assert_eq!(path_vars(1000), "1000");
    assert_eq!(path_vars(i32::MAX), "2147483647");
    assert_eq!(path_vars(i32::MIN), "-2147483648");
}

#[test]
fn query_params_adds_ten() {
    let r = query_params(QueryParams { message: "hi".to_string(), id: 5 });
    assert_eq!(r.message, "hi");
    assert_eq!(r.id, 15);
    let r = query_params(QueryParams { message: String::new(), id: i16::MAX - 10 });
    assert_eq!(r.id, i16::MAX);
    let r = query_params(QueryParams { message: String::new(), id: i16::MIN });
    assert_eq!(r.id, i16::MIN + 10);
}

#[test]
fn return_json_is_fixed() {
    let r = return_json();
    assert_eq!(r.message, "helllo mr.Json");
    assert_eq!(r.count, 14);
    assert_eq!(r.user, "dabest");
}

#[test]
fn miror_body_echoes() {
    let body = RequestBody { message: "ping".to_string() };
    assert_eq!(miror_body(body), RequestBody { message: "ping".to_string() });
}

#[test]
fn miror_agent_reads_first_user_agent() {
    let headers = vec![
        header("accept", b"*/*"),
        header("user-agent", b"curl/8.0\tx"),
        header("user-agent", b"second"),
    ];
    assert_eq!(miror_agent(&headers), "curl/8.0\tx");
    assert_eq!(find_header(&headers, b"user-agent"), Some(1));
    assert_eq!(get_header(&headers, b"accept"), Some(&b"*/*".to_vec()));
}

#[test]
fn missing_header_is_not_found() {
    let headers = vec![header("accept", b"*/*")];
    assert_eq!(find_header(&headers, b"user-agent"), None);
    assert_eq!(get_header(&headers, b"user-agent"), None);
    assert_eq!(find_header(&Vec::new(), b"accept"), None);
}

#[test]
fn header_text_refuses_invisible_bytes() {
    assert_eq!(header_text(b"Mozilla/5.0 (X11)"), Some("Mozilla/5.0 (X11)".to_string()));
    assert_eq!(header_text(b""), Some(String::new()));
    assert_eq!(header_text(b"a\x7fb"), None);
    assert_eq!(header_text(b"a\nb"), None);
    assert_eq!(header_text("é".as_bytes()), None);
    assert_eq!(header_text(b"\t~ "), Some("\t~ ".to_string()));
}

#[test]
fn user_details_is_the_profile() {
    let p = user_detalis(alice());
    assert_eq!((p.id, p.name.as_str(), p.email.as_str(), p.dates, p.coins), (7, "Alice", "alice@example.com", 34, 12));
}

#[test]
fn translate_error_query_uses_driver_text() {
    let e = translate_error(DbError::Query {
        error: "Query Error: boom".to_string(),
        query_error: "boom".to_string(),
    });
    assert_eq!(e, AppError { code: 500, message: "boom".to_string() });
}

#[test]
fn translate_error_other_uses_whole_text() {
    let e = translate_error(DbError::Other { error: "Connection Error: down".to_string() });
    assert_eq!(e, AppError { code: 500, message: "Connection Error: down".to_string() });
}

#[test]
fn db_error_text_is_the_whole_error() {
    let e = DbError::Query { error: "Query Error: boom".to_string(), query_error: "boom".to_string() };
    assert_eq!(e.text(), "Query Error: boom");
}

#[test]
fn palms_show_their_growth() {
    let rows = vec![
        palms::Model { id: 1, dpm: 3, growth: Some(Growth::Adult), user_id: 7 },
        palms::Model { id: 2, dpm: 5, growth: Some(Growth::Young), user_id: 7 },
    ];
    assert_eq!(
        palms_json(rows),
        vec![
            Palm { id: 1, dpm: 3, growth: Growth::Adult, user_id: 7 },
            Palm { id: 2, dpm: 5, growth: Growth::Young, user_id: 7 },
        ]
    );
    assert_eq!(palms_json(Vec::new()), Vec::new());
    assert_eq!(to_palm(palms::Model { id: 9, dpm: 1, growth: Some(Growth::New), user_id: 2 }).growth, Growth::New);
}

#[test]
fn growth_defaults_to_adult() {
    assert_eq!(Growth::default(), Growth::Adult);
}

#[test]
fn duplicate_copies_the_row() {
    let a = alice();
    assert_eq!(a.duplicate(), a);
}
