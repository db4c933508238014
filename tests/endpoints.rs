use user_auth::endpoints::{check_leading_slash, format_endpoint, trim_trailing_slash, Endpoint};
use user_auth::forms::format_name;

#[test]
fn check_leading_slash_exists() {
    let test1 = check_leading_slash("some/route");
    assert_eq!(test1, String::from("/some/route"));
}

#[test]
fn check_leading_slash_exists2() {
    let test1 = check_leading_slash("/some/route");
    assert_eq!(test1, String::from("/some/route"));
}

#[test]
fn check_trailing_slash_removed1() {
    let test1 = trim_trailing_slash(Ok(String::from("/some/route/")));
    assert_eq!(test1, Ok(String::from("/some/route")));
}

#[test]
fn check_trailing_slash_removed2() {
    let test1 = trim_trailing_slash(Ok(String::from("/some/route")));
    assert_eq!(test1, Ok(String::from("/some/route")));
}

#[test]
fn format_endpoint_joins_base_and_path() {
    let base = Ok(String::from("http://localhost:8082/"));
    assert_eq!(format_endpoint(base, "some/route"), Ok(String::from("http://localhost:8082/some/route")));
    let missing: Result<String, String> = Err(String::from("ENDPOINT not set"));
    assert_eq!(format_endpoint(missing, "/x"), Err(String::from("ENDPOINT not set")));
}

#[test]
fn endpoint_urls_and_settings() {
    let e = Endpoint::Notify("email/welcome");
    assert_eq!(e.as_path(), "email/welcome");
    assert_eq!(e.as_url("http://notify:8080"), "http://notify:8080/email/welcome");
    assert_eq!(e.env_var(), "GUN_NOTIFY_URL");
    assert_eq!(Endpoint::Base("/test").env_var(), "ENDPOINT");
    assert_eq!(Endpoint::Payment("/test").as_url("https://pay/"), "https://pay/test");
}

#[test]
fn format_name_cases() {
    assert_eq!(format_name(Some(String::from("Jack")), Some(String::from("Black"))), "Jack Black");
    assert_eq!(format_name(Some(String::from("Jack")), None), "Jack");
    assert_eq!(format_name(None, Some(String::from("Black"))), "Black");
    assert_eq!(format_name(None, None), "");
}
