use reporting::init::{InitAction, InitState};
use reporting::scope::{apply_source_tag, configure_user_scope, user_identity, SOURCE_TAG_KEY};
use reporting::source::SentrySource;

#[test]
fn source_tags() {
    assert_eq!(SentrySource::Backend.tag(), "backend");
    assert_eq!(SentrySource::Mcp.tag(), "mcp");
    assert_eq!(SOURCE_TAG_KEY, "source");
}

#[test]
fn user_identity_keeps_given_fields_only() {
    let user = user_identity("u1", None, None);
    assert_eq!(user.id, "u1");
    assert_eq!(user.username, None);
    assert_eq!(user.email, None);

    let user = user_identity("u2", Some("bob"), Some("b@example.com"));
    assert_eq!(user.id, "u2");
    assert_eq!(user.username.as_deref(), Some("bob"));
    assert_eq!(user.email.as_deref(), Some("b@example.com"));

    let user = user_identity("7", None, Some("x@y"));
    assert_eq!(user.username, None);
    assert_eq!(user.email.as_deref(), Some("x@y"));
}

#[test]
fn second_user_scope_replaces_the_first() {
    let events = sentry::test::with_captured_events(|| {
        configure_user_scope("u1", None, None);
        configure_user_scope("u2", Some("bob"), Some("b@example.com"));
        sentry::capture_message("after", sentry::Level::Error);
    });
    assert_eq!(events.len(), 1);
    let user = events[0].user.clone().expect("a user on the event");
    assert_eq!(user.id.as_deref(), Some("u2"));
    assert_eq!(user.username.as_deref(), Some("bob"));
    assert_eq!(user.email.as_deref(), Some("b@example.com"));
}

#[test]
fn later_user_without_optional_fields_drops_them() {
    let events = sentry::test::with_captured_events(|| {
        configure_user_scope("u2", Some("bob"), Some("b@example.com"));
        configure_user_scope("u1", None, None);
        sentry::capture_message("after", sentry::Level::Error);
    });
    let user = events[0].user.clone().expect("a user on the event");
    assert_eq!(user.id.as_deref(), Some("u1"));
    assert_eq!(user.username, None);
    assert_eq!(user.email, None);
}

#[test]
fn unconfigured_run_builds_no_client() {
    let mut state = InitState::new();
    assert!(matches!(state.initialize(None, false), InitAction::Disable));
    configure_user_scope("42", None, None);
    assert!(!state.is_enabled());
    assert!(sentry::Hub::current().client().is_none());
}

#[test]
fn repeated_mcp_initialization_tags_mcp() {
    let mut state = InitState::new();
    let events = sentry::test::with_captured_events(|| {
        for _ in 0..2 {
            match state.initialize(Some("https://key@host/1"), false) {
                InitAction::Construct(_) | InitAction::Tag => apply_source_tag(SentrySource::Mcp),
                other => panic!("unexpected action {:?}", other),
            }
        }
        sentry::capture_message("tagged", sentry::Level::Error);
    });
    assert_eq!(events.len(), 1);
    assert_eq!(events[0].tags.get("source").map(|t| t.as_str()), Some("mcp"));
}

#[test]
fn last_source_tag_wins() {
    let events = sentry::test::with_captured_events(|| {
        apply_source_tag(SentrySource::Mcp);
        apply_source_tag(SentrySource::Backend);
        sentry::capture_message("tagged", sentry::Level::Error);
    });
    assert_eq!(events[0].tags.get("source").map(|t| t.as_str()), Some("backend"));
}
