use newsletter::new_subscriber::FormData;
use newsletter::newsletter::{
    get_confirmed_subscribers, publish_newsletter, BodyData, Content, PublishAction,
    PublishError, PublishEvent, PublishFailure,
};
use newsletter::subscriber_record::{SubscriptionStatus};
use newsletter::subscriptions::{
    confirmation_email, subscribe, ServerSideFailure, StepOutcome, SubscribeAction,
    SubscribeError, SubscribeFlow,
};
use newsletter::subscriptions_confirm::{confirm, ConfirmAction, ConfirmError, ConfirmEvent, Parameters};
use newsletter::new_subscriber::parse_subscriber;
use newsletter::validation::ValidationError;

const BASE_URL: &str = "http://127.0.0.1";

fn form(name: &str, email: &str) -> FormData {
    FormData { name: name.to_string(), email: email.to_string() }
}

/// Runs a subscription, answering each step with the outcome that `fail_at`
/// picks (by step number from 0), and records the actions asked for.
fn run_subscription(
    f: FormData,
    fail_at: Option<usize>,
) -> (Result<(), SubscribeError>, Vec<SubscribeAction>) {
    let mut actions = Vec::new();
    let mut flow: SubscribeFlow = match subscribe(f, BASE_URL.to_string()) {
        Ok(flow) => flow,
        Err(e) => return (Err(e), actions),
    };
    let mut step = 0;
    loop {
        let action = flow.next_action();
        let done = matches!(action, SubscribeAction::Done);
        actions.push(action);
        if done {
            return (Ok(()), actions);
        }
        let outcome = if fail_at == Some(step) { StepOutcome::Failed } else { StepOutcome::Succeeded };
        flow = match flow.advance(outcome) {
            Ok(next) => next,
            Err(e) => return (Err(e), actions),
        };
        step += 1;
    }
}

fn status(r: &Result<(), SubscribeError>) -> u16 {
    match r {
        Ok(()) => 200,
        Err(e) => e.status_code(),
    }
}

fn link_in_html(html: &str) -> String {
    let start = html.find("href=\"").unwrap() + "href=\"".len();
    let end = start + html[start..].find('"').unwrap();
    html[start..end].to_string()
}

fn link_in_text(text: &str) -> String {
    let start = text.find("Visit ").unwrap() + "Visit ".len();
    let end = start + text[start..].find(' ').unwrap();
    text[start..end].to_string()
}

#[test]
fn subscriptions_subscribe_returns_a_400_when_fields_are_present_but_invalid() {
    let test_cases = vec![
        ("", "ursula_le_guin@gmail.com", "empty name"),
        ("Ursula", "", "empty email"),
        ("Ursula", "definitely-not-an-email", "invalid email"),
    ];
    for (name, email, desc) in test_cases {
        let (r, actions) = run_subscription(form(name, email), None);
        assert_eq!(400, status(&r), "api did not return 400 when the payload was {}", desc);
        assert!(actions.is_empty());
    }
}

#[test]
fn health_check_subscribe_returns_a_400_when_fields_are_present_but_invalid() {
    let test_cases = vec![
        ("", "ursula_le_guin@gmail.com", "empty name"),
        ("Ursula", "", "empty email"),
        ("Ursula", "definitely-not-an-email", "invalid email"),
    ];
    for (name, email, desc) in test_cases {
        let (r, _) = run_subscription(form(name, email), None);
        assert_eq!(400, status(&r), "api did not return 400 when the payload was {}", desc);
    }
}

#[test]
fn subscribe_returns_a_200_for_valid_form_data() {
    let (r, actions) = run_subscription(form("aryan", "aryan@gmail.com"), None);
    assert_eq!(200, status(&r));
    let inserted: Vec<_> = actions
        .iter()
        .filter_map(|a| match a {
            SubscribeAction::InsertSubscriber(rec) => Some(rec),
            _ => None,
        })
        .collect();
    assert_eq!(inserted.len(), 1);
    assert_eq!(inserted[0].email, "aryan@gmail.com");
}

#[test]
fn subscribe_sends_a_confirmation_email_for_valid_data() {
    let (r, actions) = run_subscription(form("le guin", "ursula_a_@gmail.com"), None);
    assert_eq!(200, status(&r));
    let sent = actions
        .iter()
        .filter(|a| matches!(a, SubscribeAction::SendConfirmationEmail(_)))
        .count();
    assert_eq!(sent, 1);
}

#[test]
fn subscribe_sends_a_confirmation_email_with_a_link() {
    let (_, actions) = run_subscription(form("aryan", "aryan@gmail.com"), None);
    let email = actions
        .iter()
        .find_map(|a| match a {
            SubscribeAction::SendConfirmationEmail(e) => Some(e),
            _ => None,
        })
        .unwrap();
    let html = link_in_html(&email.html_body);
    let plain_text = link_in_text(&email.text_body);
    assert_eq!(plain_text, html);
    assert!(html.starts_with("http://127.0.0.1/subscriptions/confirm?subscription_token="));
    assert_eq!(email.recipient.as_ref(), "aryan@gmail.com");
    assert_eq!(email.subject, "Welcome!");
}

#[test]
fn subscribe_persists_the_new_subscriber() {
    let name = "aryan";
    let email = "aryan@gmail.com";
    let (r, actions) = run_subscription(form(name, email), None);
    assert_eq!(200, status(&r));
    let rec = actions
        .iter()
        .find_map(|a| match a {
            SubscribeAction::InsertSubscriber(rec) => Some(rec),
            _ => None,
        })
        .unwrap();
    assert_eq!(rec.email, email);
    assert_eq!(rec.name, name);
    assert_eq!(rec.status.as_str(), "pending_confirmation");
    // a version 4 UUID
    assert_eq!(rec.id >> 76 & 0xF, 4);
}

#[test]
fn the_stored_token_is_the_token_in_the_link() {
    let (_, actions) = run_subscription(form("aryan", "aryan@gmail.com"), None);
    let mut id = None;
    let mut token = None;
    let mut link = None;
    for a in &actions {
        match a {
            SubscribeAction::InsertSubscriber(rec) => id = Some(rec.id),
            SubscribeAction::StoreToken { subscriber_id, token: t } => {
                assert_eq!(Some(*subscriber_id), id);
                token = Some(t.clone());
            }
            SubscribeAction::SendConfirmationEmail(e) => link = Some(link_in_html(&e.html_body)),
            _ => {}
        }
    }
    let token = token.unwrap();
    assert_eq!(token.len(), 25);
    assert_eq!(
        link.unwrap(),
        format!("http://127.0.0.1/subscriptions/confirm?subscription_token={}", token)
    );
    assert!(matches!(actions[0], SubscribeAction::BeginTransaction));
    assert!(matches!(actions[3], SubscribeAction::Commit));
}

#[test]
fn subscribe_fails_if_there_is_a_fatal_database_error() {
    // the insert is the second step
    let (r, actions) = run_subscription(form("le guin", "ursula_le_guin@gmail.com"), Some(1));
    assert_eq!(500, status(&r));
    assert_eq!(r, Err(SubscribeError::ServerSideError(ServerSideFailure::InsertSubscriber)));
    assert!(!actions.iter().any(|a| matches!(a, SubscribeAction::SendConfirmationEmail(_))));
}

#[test]
fn every_failure_after_validation_is_a_server_error() {
    let expected = [
        ServerSideFailure::AcquireTransaction,
        ServerSideFailure::InsertSubscriber,
        ServerSideFailure::StoreToken,
        ServerSideFailure::Commit,
        ServerSideFailure::SendConfirmationEmail,
    ];
    for (step, failure) in expected.iter().enumerate() {
        let (r, _) = run_subscription(form("aryan", "aryan@gmail.com"), Some(step));
        assert_eq!(500, status(&r));
        assert_eq!(r, Err(SubscribeError::ServerSideError(*failure)));
        assert_eq!(failure.is_persistence(), step < 4);
    }
    assert_eq!(ServerSideFailure::Commit.context(), "failed to commit");
}

#[test]
fn validation_errors_are_reported_as_such() {
    let (r, _) = run_subscription(form("Ursula", "definitely-not-an-email"), None);
    assert_eq!(r, Err(SubscribeError::ValidationError(ValidationError::InvalidSubscriberEmail)));
    assert_eq!(SubscribeError::from(ValidationError::InvalidSubscriberName).status_code(), 400);
}

#[test]
fn confirmation_email_bodies_are_exact() {
    let s = parse_subscriber(form("aryan", "aryan@gmail.com")).unwrap();
    let e = confirmation_email(&s, "https://x.io", "abc");
    assert_eq!(
        e.html_body,
        "Welcome to our newsletter! <br />Click <a href=\"https://x.io/subscriptions/confirm?subscription_token=abc\">here</a> to confirm your subscription."
    );
    assert_eq!(
        e.text_body,
        "Welcome to our newsletter!\n Visit https://x.io/subscriptions/confirm?subscription_token=abc to confirm your subscription."
    );
}

fn run_confirmation(token: Option<&str>, found: Option<u128>) -> Result<Vec<ConfirmAction>, ConfirmError> {
    let mut flow = confirm(Parameters { subscription_token: token.map(|t| t.to_string()) })?;
    let mut actions = Vec::new();
    loop {
        let action = flow.next_action();
        let event = match &action {
            ConfirmAction::LookupToken(_) => ConfirmEvent::Found(found),
            ConfirmAction::ConfirmSubscriber(_) => ConfirmEvent::Updated,
            ConfirmAction::Done => {
                actions.push(action);
                return Ok(actions);
            }
        };
        actions.push(action);
        flow = flow.advance(event)?;
    }
}

#[test]
fn confirmations_without_token_are_rejected_with_400() {
    let r = run_confirmation(None, Some(7));
    assert_eq!(r.as_ref().err(), Some(&ConfirmError::BadRequest));
    assert_eq!(r.err().unwrap().status_code(), 400);
    assert_eq!(run_confirmation(Some(""), Some(7)).err(), Some(ConfirmError::BadRequest));
}

#[test]
fn an_unknown_token_is_rejected_with_400() {
    assert_eq!(run_confirmation(Some("abc"), None).err(), Some(ConfirmError::BadRequest));
}

#[test]
fn clicking_the_confirmation_link_confirms_a_subscriber() {
    let mut status = SubscriptionStatus::PendingConfirmation;
    for _ in 0..2 {
        let actions = run_confirmation(Some("abc"), Some(42)).unwrap();
        assert!(matches!(&actions[0], ConfirmAction::LookupToken(t) if t == "abc"));
        assert!(matches!(actions[1], ConfirmAction::ConfirmSubscriber(42)));
        assert!(matches!(actions[2], ConfirmAction::Done));
        status = status.confirm();
        assert_eq!(status.as_str(), "confirmed");
    }
}

#[test]
fn a_store_failure_while_confirming_is_a_server_error() {
    let flow = confirm(Parameters { subscription_token: Some("abc".to_string()) }).unwrap();
    let e = flow.advance(ConfirmEvent::Failed).err().unwrap();
    assert_eq!(e, ConfirmError::ServerSideError);
    assert_eq!(e.status_code(), 500);
}

fn issue() -> BodyData {
    BodyData {
        title: "Issue 1".to_string(),
        content: Content { html: "<p>hi</p>".to_string(), text: "hi".to_string() },
    }
}

fn rows() -> Vec<String> {
    vec!["a@x.com".to_string(), "broken".to_string(), "b@y.org".to_string()]
}

#[test]
fn confirmed_subscribers_with_invalid_emails_are_reported_individually() {
    let r = get_confirmed_subscribers(rows());
    assert_eq!(r.len(), 3);
    assert_eq!(r[0].as_ref().ok().unwrap().email.as_ref(), "a@x.com");
    assert_eq!(r[1].as_ref().err(), Some(&ValidationError::InvalidSubscriberEmail));
    assert_eq!(r[2].as_ref().ok().unwrap().email.as_ref(), "b@y.org");
}

#[test]
fn publishing_skips_invalid_emails_and_sends_to_the_rest() {
    let mut flow = publish_newsletter(issue());
    assert!(matches!(flow.next_action(), PublishAction::ListConfirmedSubscribers));
    flow = flow.advance(PublishEvent::Listed(rows())).ok().unwrap();
    let mut sent = Vec::new();
    loop {
        match flow.next_action() {
            PublishAction::SendEmail { recipient, subject, html_body, text_body } => {
                assert_eq!(subject, "Issue 1");
                assert_eq!(html_body, "<p>hi</p>");
                assert_eq!(text_body, "hi");
                sent.push(recipient.as_ref().to_string());
            }
            PublishAction::Done => break,
            PublishAction::ListConfirmedSubscribers => panic!("listed twice"),
        }
        flow = flow.advance(PublishEvent::Sent).ok().unwrap();
    }
    assert_eq!(sent, vec!["a@x.com".to_string(), "b@y.org".to_string()]);
}

#[test]
fn publishing_stops_at_the_first_failed_delivery() {
    let flow = publish_newsletter(issue());
    let flow = flow.advance(PublishEvent::Listed(rows())).ok().unwrap();
    let e = flow.advance(PublishEvent::Failed).err().unwrap();
    assert_eq!(e, PublishError::ServerSideError(PublishFailure::SendNewsletter));
    assert_eq!(e.status_code(), 500);
}

#[test]
fn publishing_to_nobody_is_done_at_once() {
    let flow = publish_newsletter(issue());
    let flow = flow.advance(PublishEvent::Listed(vec![])).ok().unwrap();
    assert!(matches!(flow.next_action(), PublishAction::Done));
}
