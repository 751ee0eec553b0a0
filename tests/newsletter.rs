use newsletter::auth::{bearer_token, role_grants_admin};
use newsletter::dispatch::{format_body, Action, Dispatch, Event, Stage, TEMPLATE_HEAD, TEMPLATE_TAIL};
use newsletter::request::{default_true, SendNewsletterRequest, SubscribeRequest};
use newsletter::subscription::{check_subscription, is_acceptable_email, normalize_email, subscribe_reply};
use newsletter::text::{contains_char, contains_text, decimal_string, same_text};

fn request(content: &str, is_html: bool) -> SendNewsletterRequest {
    let mut r = SendNewsletterRequest::new("Weekly news", content);
    r.is_html = is_html;
    r
}

fn expect_reply(a: Action, status: u16, message: &str) {
    match a {
        Action::Respond(r) => {
            assert_eq!(r.status, status);
            assert_eq!(r.message, message);
        }
        _ => panic!("expected a reply"),
    }
}

fn expect_send(a: Action, to: &str, body: &str, html: bool) {
    match a {
        Action::Send { to: t, subject, body: b, html: h } => {
            assert_eq!(t, to);
            assert_eq!(subject, "Weekly news");
            assert_eq!(b, body);
            assert_eq!(h, html);
        }
        _ => panic!("expected a send"),
    }
}

fn expect_idle(a: Action) {
    assert!(matches!(a, Action::Idle));
}

fn admitted(content: &str, is_html: bool) -> Dispatch {
    let mut d = Dispatch::new(request(content, is_html));
    assert!(matches!(
        d.step(Event::Identity(Some("boss@example.com".to_string()))),
        Action::CheckAdmin(e) if e == "boss@example.com"
    ));
    assert!(matches!(d.step(Event::Role(true)), Action::FetchSubscribers));
    d
}

fn list(items: &[&str]) -> Event {
    Event::Subscribers(Some(items.iter().map(|s| s.to_string()).collect()))
}

#[test]
fn is_html_defaults_to_true() {
    assert!(default_true());
    assert!(SendNewsletterRequest::new("s", "c").is_html);
}

#[test]
fn address_is_trimmed_and_lowercased() {
    assert_eq!(normalize_email("  USER@Example.com "), "user@example.com");
    let r = check_subscription(&SubscribeRequest::new("  USER@Example.com "));
    assert_eq!(r.ok().unwrap(), "user@example.com");
}

#[test]
fn address_without_at_is_refused() {
    match check_subscription(&SubscribeRequest::new("notanemail")) {
        Err(reply) => {
            assert_eq!(reply.status, 400);
            assert_eq!(reply.message, "Invalid email address");
        }
        Ok(_) => panic!("accepted"),
    }
}

#[test]
fn empty_address_is_refused() {
    assert_eq!(check_subscription(&SubscribeRequest::new("")).err().unwrap().status, 400);
    assert_eq!(check_subscription(&SubscribeRequest::new("   ")).err().unwrap().status, 400);
    assert!(!is_acceptable_email(""));
    assert!(is_acceptable_email("@"));
}

#[test]
fn subscribing_twice_replies_success_both_times() {
    let first = check_subscription(&SubscribeRequest::new("Ann@Example.com")).ok().unwrap();
    let second = check_subscription(&SubscribeRequest::new(" ann@example.COM")).ok().unwrap();
    assert_eq!(first, second);
    let a = subscribe_reply(true);
    let b = subscribe_reply(true);
    assert_eq!((a.status, a.message.as_str()), (200, "Subscribed successfully"));
    assert_eq!((b.status, b.message.as_str()), (200, "Subscribed successfully"));
}

#[test]
fn store_failure_on_subscribe_is_internal_error() {
    let r = subscribe_reply(false);
    assert_eq!(r.status, 500);
    assert_eq!(r.message, "Failed to subscribe");
}

#[test]
fn bearer_header_forms() {
    assert_eq!(bearer_token(Some("Bearer abc.def")), Some("abc.def"));
    assert_eq!(bearer_token(Some("Bearer ")), Some(""));
    assert_eq!(bearer_token(Some("Bearer")), None);
    assert_eq!(bearer_token(Some("bearer abc")), None);
    assert_eq!(bearer_token(Some("Basic abc")), None);
    assert_eq!(bearer_token(None), None);
}

#[test]
fn only_admin_role_grants() {
    assert!(role_grants_admin(Some("admin")));
    assert!(!role_grants_admin(Some("Admin")));
    assert!(!role_grants_admin(Some("user")));
    assert!(!role_grants_admin(None));
}

#[test]
fn text_helpers() {
    assert_eq!(decimal_string(0), "0");
    assert_eq!(decimal_string(7), "7");
    assert_eq!(decimal_string(1234567890), "1234567890");
    assert_eq!(decimal_string(u64::MAX), u64::MAX.to_string());
    assert!(contains_char("a@b", '@'));
    assert!(!contains_char("ab", '@'));
    assert!(contains_text("x<html>", "<html"));
    assert!(!contains_text("<HTML>", "<html"));
    assert!(contains_text("abc", ""));
    assert!(!contains_text("ab", "abc"));
    assert!(same_text("München", "München"));
    assert!(!same_text("a", "ab"));
}

#[test]
fn html_fragment_is_wrapped() {
    let body = format_body("<p>Hi</p>", true);
    assert_eq!(body, format!("{}<p>Hi</p>{}", TEMPLATE_HEAD, TEMPLATE_TAIL));
    assert!(body.starts_with("<!DOCTYPE html>"));
    assert!(body.contains("Nguyen Restaurant"));
    assert!(body.contains("Georgenstraße 67, 80799 München"));
    assert_eq!(format_body(&body, true), body);
}

#[test]
fn whole_document_is_not_wrapped() {
    let doc = "<html><body>Hi</body></html>";
    assert_eq!(format_body(doc, true), doc);
}

#[test]
fn plain_text_is_never_wrapped() {
    assert_eq!(format_body("Hello there", false), "Hello there");
    assert_eq!(format_body("<p>tag</p>", false), "<p>tag</p>");
}

#[test]
fn missing_credential_is_unauthorized() {
    let mut d = Dispatch::new(request("<p>x</p>", true));
    expect_reply(d.step(Event::Identity(None)), 401, "Unauthorized");
    assert_eq!(d.stage(), Stage::Finished);
    expect_idle(d.step(Event::Role(true)));
    expect_idle(d.step(list(&["a@x.com"])));
    expect_idle(d.step(Event::Delivery(true)));
}

#[test]
fn non_admin_is_forbidden() {
    let mut d = Dispatch::new(request("<p>x</p>", true));
    assert!(matches!(d.step(Event::Identity(Some("u@x.com".to_string()))), Action::CheckAdmin(_)));
    expect_reply(d.step(Event::Role(false)), 403, "Forbidden");
    expect_idle(d.step(list(&["a@x.com"])));
    expect_idle(d.step(Event::Delivery(true)));
}

#[test]
fn no_subscribers_is_success_without_sends() {
    let mut d = admitted("<p>x</p>", true);
    expect_reply(d.step(list(&[])), 200, "No subscribers found");
    expect_idle(d.step(Event::Delivery(true)));
}

#[test]
fn subscriber_fetch_failure_is_internal_error() {
    let mut d = admitted("<p>x</p>", true);
    expect_reply(d.step(Event::Subscribers(None)), 500, "Failed to fetch subscribers");
}

#[test]
fn one_failed_send_does_not_stop_the_rest() {
    let mut d = admitted("Plain words", false);
    expect_send(d.step(list(&["a@x.com", "b@x.com", "c@x.com"])), "a@x.com", "Plain words", false);
    expect_send(d.step(Event::Delivery(true)), "b@x.com", "Plain words", false);
    expect_send(d.step(Event::Delivery(false)), "c@x.com", "Plain words", false);
    expect_reply(d.step(Event::Delivery(true)), 200, "Newsletter sent. Success: 2, Failed: 1");
    expect_idle(d.step(Event::Delivery(true)));
}

#[test]
fn html_sends_carry_the_wrapped_body() {
    let mut d = admitted("<p>Hi</p>", true);
    let wrapped = format!("{}<p>Hi</p>{}", TEMPLATE_HEAD, TEMPLATE_TAIL);
    expect_send(d.step(list(&["a@x.com"])), "a@x.com", &wrapped, true);
    expect_reply(d.step(Event::Delivery(false)), 200, "Newsletter sent. Success: 0, Failed: 1");
}

#[test]
fn html_document_is_sent_as_given() {
    let doc = "<html><body>Hi</body></html>";
    let mut d = admitted(doc, true);
    expect_send(d.step(list(&["a@x.com"])), "a@x.com", doc, true);
}

#[test]
fn events_out_of_order_are_ignored() {
    let mut d = Dispatch::new(request("x", false));
    expect_idle(d.step(Event::Role(true)));
    expect_idle(d.step(Event::Delivery(true)));
    assert_eq!(d.stage(), Stage::Authenticating);
}
