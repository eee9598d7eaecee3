use rackhost::auth::{AuthState, Authed, NotAuthed};
use rackhost::base::RackhostClient;
use rackhost::config::Config;
use rackhost::error::{Error, ErrorKind};
use rackhost::request::Method;

const LOGIN_PAGE: &str = r#"<!DOCTYPE html>
<html><head><title>Belépés</title></head>
<body>
<form id="login-form" action="/site/login" method="post">
<input type="hidden" name="rackhost-csrf" value="dG9rZW4tMTIzNDU2Nzg5MA==">
<input type="text" name="LoginForm[username]">
<input type="password" name="LoginForm[password]">
</form>
</body></html>"#;

#[test]
fn the_token_of_the_login_page_is_found() {
    let client = RackhostClient::default();
    assert_eq!(client.get_csrf_token(LOGIN_PAGE), Ok("dG9rZW4tMTIzNDU2Nzg5MA==".to_string()));
}

#[test]
fn a_page_without_the_token_field_is_a_structural_failure() {
    let client = RackhostClient::default();
    let page = LOGIN_PAGE.replace(
        r#"<input type="hidden" name="rackhost-csrf" value="dG9rZW4tMTIzNDU2Nzg5MA==">"#,
        "",
    );
    let outcome = client.get_csrf_token(&page);
    assert_eq!(outcome, Err(Error::MissingElement));
    assert_eq!(outcome.unwrap_err().kind(), ErrorKind::Structure);
}

#[test]
fn a_token_field_without_a_value_is_a_structural_failure() {
    let client = RackhostClient::default();
    let page = r#"<form><input type="hidden" name="rackhost-csrf"></form>"#;
    assert_eq!(client.get_csrf_token(page), Err(Error::MissingAttribute));
    assert_eq!(client.get_csrf_token(""), Err(Error::MissingElement));
}

#[test]
fn a_page_too_long_for_the_parser_is_refused_unread() {
    let client = RackhostClient::default();
    let endless = LOGIN_PAGE.to_string() + &" ".repeat(rackhost::html::PAGE_LIMIT);
    assert_eq!(client.get_csrf_token(&endless), Err(Error::PageTooLong));
    assert_eq!(Error::PageTooLong.kind(), ErrorKind::Structure);
    assert!(rackhost::html::check_page_fits(LOGIN_PAGE));
    assert!(!rackhost::html::check_page_fits(&endless));
}

#[test]
fn the_first_of_several_token_fields_counts() {
    let client = RackhostClient::default();
    let page = r#"<input name="rackhost-csrf" value="first"><input name="rackhost-csrf" value="second">"#;
    assert_eq!(client.get_csrf_token(page), Ok("first".to_string()));
}

#[test]
fn the_token_is_found_in_either_state() {
    let client = RackhostClient::default().authenticate(302, Some("/")).unwrap();
    assert_eq!(client.get_csrf_token(LOGIN_PAGE), Ok("dG9rZW4tMTIzNDU2Nzg5MA==".to_string()));
}

#[test]
fn the_login_page_is_fetched_from_its_path() {
    let request = RackhostClient::default().login_page_request().unwrap();
    assert_eq!(request.method, Method::Get);
    assert_eq!(request.url, "https://www.rackhost.hu/site/login");
    assert!(request.headers.is_empty());
    assert!(request.form.is_empty());
}

#[test]
fn the_login_form_carries_the_token_and_the_credentials() {
    let client = RackhostClient::default();
    let request = client
        .login_request("tok".to_string(), "user@example.com".to_string(), "s3cret".to_string())
        .unwrap();
    assert_eq!(request.method, Method::Post);
    assert_eq!(request.url, "https://www.rackhost.hu/site/login");
    assert_eq!(
        request.form,
        vec![
            ("rackhost-csrf".to_string(), "tok".to_string()),
            ("LoginForm[username]".to_string(), "user@example.com".to_string()),
            ("LoginForm[password]".to_string(), "s3cret".to_string()),
        ]
    );
}

#[test]
fn a_redirect_after_the_login_gives_an_authenticated_session() {
    let session =
        RackhostClient::default().authenticate(302, Some("/")).expect("a redirect is a login");
    assert!(session.is_authenticated());
}

#[test]
fn a_page_shown_again_after_the_login_is_a_failed_login() {
    let outcome = RackhostClient::default().authenticate(200, None);
    assert_eq!(outcome.as_ref().err(), Some(&Error::LoginFailed));
    assert_eq!(outcome.unwrap_err().kind(), ErrorKind::Authentication);
    assert!(RackhostClient::default().authenticate(200, Some("/")).is_err());
}

#[test]
fn only_the_statuses_300_to_399_are_a_login() {
    for status in 0..=1000u16 {
        let outcome = RackhostClient::default().authenticate(status, Some("/account"));
        assert_eq!(outcome.is_ok(), (300..400).contains(&status), "{}", status);
        if let Err(error) = outcome {
            assert_eq!(error, Error::LoginFailed);
        }
    }
}

#[test]
fn a_redirect_counts_only_where_it_leads_to_another_page_of_the_console() {
    let login = |location: Option<&str>| RackhostClient::default().authenticate(302, location).is_ok();
    assert!(login(Some("/")));
    assert!(login(Some("https://www.rackhost.hu/")));
    assert!(login(Some("https://www.rackhost.hu:443/account?tab=1")));
    assert!(login(Some("index")));
    assert!(login(Some("//www.rackhost.hu/x")));
    assert!(!login(None));
    assert!(!login(Some("/site/login")));
    assert!(!login(Some("")));
    assert!(!login(Some("?failed=1")));
    assert!(!login(Some("login#again")));
    assert!(!login(Some("https://www.rackhost.hu/site/login?next=%2F")));
    assert!(!login(Some("http://www.rackhost.hu/")));
    assert!(!login(Some("https://rackhost.hu/")));
    assert!(!login(Some("https://www.rackhost.hu:8443/")));
    assert!(!login(Some("https://example.com/")));
    assert!(!login(Some("//example.com/")));
    assert!(!login(Some("mailto:admin@rackhost.hu")));
    assert!(!login(Some("https://")));
}

#[test]
fn a_target_too_long_to_be_judged_is_a_failed_login() {
    let long = format!("/{}", "a".repeat(5000));
    assert!(RackhostClient::default().authenticate(302, Some(&long)).is_err());
    let fits = format!("/{}", "a".repeat(4000));
    assert!(RackhostClient::default().authenticate(302, Some(&fits)).is_ok());
}

#[test]
fn an_address_nested_in_others_has_the_origin_of_the_innermost() {
    let nested = "blob:".repeat(800) + "https://www.rackhost.hu/";
    assert!(RackhostClient::default().authenticate(302, Some(&nested)).is_ok());
    let foreign = "blob:".repeat(800) + "https://example.com/";
    assert!(RackhostClient::default().authenticate(302, Some(&foreign)).is_err());
}

#[test]
fn a_new_session_has_not_logged_in() {
    assert!(!RackhostClient::default().is_authenticated());
    assert!(!RackhostClient::default().clone().is_authenticated());
    assert!(!NotAuthed::is_authenticated());
    assert!(Authed::is_authenticated());
}

#[test]
fn a_configuration_keeps_what_it_is_given() {
    let config = Config::new("agent/1.0".to_string(), "user".to_string(), "pass".to_string());
    assert_eq!(config.user_agent, "agent/1.0");
    assert_eq!(config.username, "user");
    assert_eq!(config.password, "pass");
}

#[test]
fn failures_fall_into_three_classes() {
    assert_eq!(Error::LoginFailed.kind(), ErrorKind::Authentication);
    assert_eq!(Error::Rejected.kind(), ErrorKind::Rejection);
    for error in [
        Error::InvalidUrl,
        Error::PageTooLong,
        Error::InvalidSelector,
        Error::MissingElement,
        Error::MissingAttribute,
        Error::MissingText,
        Error::InvalidNumber,
        Error::InvalidTtl,
        Error::InvalidRecordType,
        Error::InvalidJson,
        Error::MissingField,
        Error::UnsupportedCurrency,
        Error::InvalidPrice,
        Error::UnsupportedTerm,
        Error::IncompletePricing,
    ] {
        assert_eq!(error.kind(), ErrorKind::Structure);
    }
}
