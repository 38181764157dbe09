use vstd::prelude::*;

use crate::config::opt_str_view;
use crate::source::SentrySource;

verus! {

/// The key of the scope tag that names the source of events.
pub const SOURCE_TAG_KEY: &'static str = "source";

/// A user identity attached to the current reporting scope.
#[derive(Debug)]
pub struct UserIdentity {
    pub id: String,
    pub username: Option<String>,
    pub email: Option<String>,
}

/// The character view of an optional string.
pub open spec fn opt_string_view(s: Option<String>) -> Option<Seq<char>> {
    match s {
        Some(t) => Some(t@),
        None => None,
    }
}

impl UserIdentity {
    pub open spec fn id_view(&self) -> Seq<char> {
        self.id@
    }

    pub open spec fn username_view(&self) -> Option<Seq<char>> {
        opt_string_view(self.username)
    }

    pub open spec fn email_view(&self) -> Option<Seq<char>> {
        opt_string_view(self.email)
    }
}

fn copy_opt(s: Option<&str>) -> (r: Option<String>)
    ensures
        opt_string_view(r) == opt_str_view(s),
{
    match s {
        Some(t) => Some(t.to_owned()),
        None => None,
    }
}

/// The record for a user: the identifier always, the username and email
/// exactly when they are given.
pub fn user_identity(user_id: &str, username: Option<&str>, email: Option<&str>) -> (r:
    UserIdentity)
    ensures
        r.id_view() == user_id@,
        r.username_view() == opt_str_view(username),
        r.email_view() == opt_str_view(email),
{
    UserIdentity { id: user_id.to_owned(), username: copy_opt(username), email: copy_opt(email) }
}

/// Relies on sentry::configure_scope with Scope::set_user: the user of the
/// current scope becomes this record, replacing any earlier one. Nothing
/// happens while no client is bound.
#[verifier::external_body]
fn scope_set_user(user: &UserIdentity) {
    let record = sentry::User {
        id: Some(user.id.clone()),
        username: user.username.clone(),
        email: user.email.clone(),
        ..Default::default()
    };
    sentry::configure_scope(|scope| scope.set_user(Some(record)));
}

/// Relies on sentry::configure_scope with Scope::set_tag: the tag `key` of
/// the current scope is set to `value`. Nothing happens while no client is
/// bound.
#[verifier::external_body]
fn scope_set_tag(key: &str, value: &str) {
    sentry::configure_scope(|scope| scope.set_tag(key, value));
}

/// Attaches a user to the current reporting scope, replacing the one that
/// was there. Without an active client this changes nothing.
pub fn configure_user_scope(user_id: &str, username: Option<&str>, email: Option<&str>) {
    let user = user_identity(user_id, username, email);
    scope_set_user(&user);
}

/// Tags the current reporting scope with the source of its events.
pub fn apply_source_tag(source: SentrySource) {
    scope_set_tag(SOURCE_TAG_KEY, source.tag());
}

} // verus!
