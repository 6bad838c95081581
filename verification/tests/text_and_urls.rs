use watch_presence::decimal::{decimal_string, push_decimal_u64};
use watch_presence::greeting::greet;
use watch_presence::watching::{check_status, watch_page_url, watching_url, FetchError};

#[test]
fn decimal_renders_like_display() {
    assert_eq!(decimal_string(0), "0");
    assert_eq!(decimal_string(7), "7");
    assert_eq!(decimal_string(10), "10");
    assert_eq!(decimal_string(1203), "1203");
    assert_eq!(decimal_string(-1), "-1");
    assert_eq!(decimal_string(-305), "-305");
    assert_eq!(decimal_string(i64::MAX), i64::MAX.to_string());
    assert_eq!(decimal_string(i64::MIN), i64::MIN.to_string());
}

#[test]
fn decimal_appends_to_existing_text() {
    let mut s = String::from("n=");
    push_decimal_u64(&mut s, u64::MAX);
    assert_eq!(s, format!("n={}", u64::MAX));
}

#[test]
fn watching_endpoint_for_user() {
    assert_eq!(
        watching_url("user-42"),
        "https://o.jwd.gg/api/users/user-42/watching"
    );
    assert_eq!(watching_url(""), "https://o.jwd.gg/api/users//watching");
}

#[test]
fn episode_page_link() {
    assert_eq!(
        watch_page_url("one-piece", "ep-1071"),
        "https://o.jwd.gg/watch/one-piece/ep-1071"
    );
}

#[test]
fn success_statuses_are_accepted() {
    assert!(check_status(200).is_ok());
    assert!(check_status(204).is_ok());
    assert!(check_status(299).is_ok());
}

#[test]
fn failure_statuses_name_the_status() {
    assert_eq!(
        check_status(404).unwrap_err(),
        "API request failed with status: 404 Not Found"
    );
    assert_eq!(
        check_status(500).unwrap_err(),
        "API request failed with status: 500 Internal Server Error"
    );
    assert_eq!(
        check_status(300).unwrap_err(),
        "API request failed with status: 300 Multiple Choices"
    );
    assert_eq!(
        check_status(199).unwrap_err(),
        "API request failed with status: 199 <unknown status code>"
    );
    assert_eq!(
        check_status(999).unwrap_err(),
        "API request failed with status: 999 <unknown status code>"
    );
}

#[test]
fn greeting_text() {
    assert_eq!(greet("Ana"), "Hello, Ana! You've been greeted from Rust!");
    assert_eq!(greet(""), "Hello, ! You've been greeted from Rust!");
}

#[test]
fn fetch_error_messages() {
    assert_eq!(
        FetchError::Send("connection refused".to_string()).message(),
        "Failed to fetch watching data: connection refused"
    );
    assert_eq!(
        FetchError::Decode("missing field `watching`".to_string()).message(),
        "Failed to parse API response: missing field `watching`"
    );
}
