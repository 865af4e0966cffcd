//! The decisions of the HTTP handlers. Each handler alternates work that the
//! server does (a database query on a worker thread, a session write, a mail)
//! with decisions; the decisions stand here, as functions from what the last
//! piece of work gave to what comes next.

use vstd::prelude::*;
use crate::errors::{ServiceError, ServiceErrorView};
use crate::ids::{new_v4_uuid, parse_uuid, parse_uuid_text, uuid_text, uuid_to_text, lemma_uuid_text_parses};
use crate::mail::{ResetEmail, is_reset_email, password_reset_email};
use crate::db::models::User;

verus! {

/// How work handed to a worker thread can fail: with the error it returned,
/// or by not finishing at all (the thread panicked or was dropped).
pub enum BlockingFailure {
    Failed(ServiceError),
    Canceled,
}

/// The error that a failed piece of worker-thread work is answered with.
pub open spec fn blocking_error_view(f: BlockingFailure) -> ServiceErrorView {
    match f {
        BlockingFailure::Failed(e) => e@,
        BlockingFailure::Canceled => ServiceErrorView::InternalServerError,
    }
}

/// The error that a failed piece of worker-thread work is answered with: its
/// own error, or an internal error if it never finished.
pub fn blocking_error(f: BlockingFailure) -> (r: ServiceError)
    ensures
        r@ == blocking_error_view(f),
{
    match f {
        BlockingFailure::Failed(e) => e,
        BlockingFailure::Canceled => ServiceError::InternalServerError,
    }
}

/// What a successful answer carries as JSON.
pub enum Payload {
    /// A JSON string.
    Text(String),
    /// A JSON boolean.
    Flag(bool),
    /// The public fields of an account.
    Account(PublicAccount),
}

/// The answer to a request.
pub enum Reply {
    /// Status 200 with a JSON body.
    Success(Payload),
    /// Status 500 with an empty body.
    EmptyServerError,
    /// The answer that `ServiceError::error_response` gives.
    Failure(ServiceError),
}

/// A value to write into the client's session under a key.
pub struct SessionEntry {
    pub key: String,
    pub value: String,
}

/// What the login handler does once the account has been looked up and its
/// password checked.
pub enum LoginStep {
    /// Write the account's id into the session, then finish with
    /// `user_login_stored`.
    StoreSession { entry: SessionEntry, user: User },
    /// Answer now.
    Done(Reply),
}

/// The login handler, after the lookup and check on a worker thread: on
/// success the account's id (as text) is written into the session under
/// `user.id`; on failure the failure is the answer.
pub fn user_login(outcome: Result<User, BlockingFailure>) -> (r: LoginStep)
    ensures
        match outcome {
            Ok(user) => r matches LoginStep::StoreSession { entry, user: u } && entry.key@
                == "user.id"@ && entry.value@ == uuid_text(user.id@) && u == user,
            Err(f) => r matches LoginStep::Done(Reply::Failure(e)) && e@ == blocking_error_view(
                f,
            ),
        },
{
    match outcome {
        Ok(user) => {
            let entry = SessionEntry {
                key: String::from_str("user.id"),
                value: uuid_to_text(user.id),
            };
            LoginStep::StoreSession { entry, user }
        },
        Err(f) => LoginStep::Done(Reply::Failure(blocking_error(f))),
    }
}

/// The end of the login handler once the session write was tried: if it
/// succeeded the session is renewed (the `bool`) and the answer is the
/// account's Yapily id; otherwise an internal error.
pub fn user_login_stored(user: User, stored: bool) -> (r: (Reply, bool))
    ensures
        r.1 == stored,
        stored ==> (r.0 matches Reply::Success(Payload::Text(t)) && t == user.yapily_id),
        !stored ==> (r.0 matches Reply::Failure(e) && e@ == ServiceErrorView::InternalServerError),
{
    if stored {
        (Reply::Success(Payload::Text(user.yapily_id)), true)
    } else {
        (Reply::Failure(ServiceError::InternalServerError), false)
    }
}

/// The registration handler, after the new account was inserted on a worker
/// thread: the account goes on to be registered with Yapily; any failure of
/// the insert is an internal error.
pub fn user_register(inserted: Result<User, BlockingFailure>) -> (r: Result<User, ServiceError>)
    ensures
        match inserted {
            Ok(user) => r matches Ok(u) && u == user,
            Err(_) => r matches Err(e) && e@ == ServiceErrorView::InternalServerError,
        },
{
    match inserted {
        Ok(user) => Ok(user),
        Err(_) => Err(ServiceError::InternalServerError),
    }
}

/// The fields of an account that are shown to its holder: everything but
/// the id, the password hash and the Yapily id.
pub struct PublicAccount {
    pub email: String,
    pub first_name: String,
    pub last_name: String,
    pub created_at: chrono::NaiveDateTime,
}

/// The public fields of `user`.
pub fn public_fields(user: User) -> (r: PublicAccount)
    ensures
        r.email == user.email,
        r.first_name == user.first_name,
        r.last_name == user.last_name,
        r.created_at == user.created_at,
{
    PublicAccount {
        email: user.email,
        first_name: user.first_name,
        last_name: user.last_name,
        created_at: user.created_at,
    }
}

/// What the registration does once the account was registered with Yapily.
pub enum RegisterStep {
    /// Store the account's Yapily id, then finish with `yapily_id_stored`.
    StoreYapilyId(User),
    /// Answer now.
    Done(Reply),
}

/// The registration, once the call to Yapily returned (`yapily::create_user`):
/// an account that Yapily registered has its Yapily id stored; if the call
/// failed, that failure is the answer and nothing is stored.
pub fn update_yapily_credentials(registered: Result<User, ServiceError>) -> (r: RegisterStep)
    ensures
        match registered {
            Ok(user) => r matches RegisterStep::StoreYapilyId(u) && u == user,
            Err(e) => r matches RegisterStep::Done(Reply::Failure(e2)) && e2 == e,
        },
{
    match registered {
        Ok(user) => RegisterStep::StoreYapilyId(user),
        Err(e) => RegisterStep::Done(Reply::Failure(e)),
    }
}

/// The end of the registration once the account's Yapily id was stored: the
/// public fields of the stored account, or an empty internal error if
/// storing failed.
pub fn yapily_id_stored(updated: Result<User, ()>) -> (r: Reply)
    ensures
        match updated {
            Ok(user) => r matches Reply::Success(Payload::Account(a)) && a.email == user.email
                && a.first_name == user.first_name && a.last_name == user.last_name
                && a.created_at == user.created_at,
            Err(_) => r is EmptyServerError,
        },
{
    match updated {
        Ok(user) => Reply::Success(Payload::Account(public_fields(user))),
        Err(_) => Reply::EmptyServerError,
    }
}

/// A password reset token handed out for an account: the token, the session
/// entry that ties the token's text to the account's id, and the mail that
/// carries the token (sent as built by `mail::password_reset_message`).
pub struct ResetIssue {
    pub token: [u8; 16],
    pub entry: SessionEntry,
    pub email: ResetEmail,
}

/// What the forgotten-password handler does once the account was looked up.
pub enum ForgotStep {
    /// Write the session entry, send the mail, then finish with
    /// `forgotten_password_sent`.
    Issue(ResetIssue),
    /// Answer now.
    Done(Reply),
}

/// `issue` hands out `token` for `user`: the token's text is the session key
/// under which the account's id (as text) is stored, and the mail to the
/// account carries the token.
pub open spec fn is_issue_for(issue: ResetIssue, user: User, token: Seq<u8>) -> bool {
    &&& issue.token@ == token
    &&& issue.entry.key@ == uuid_text(token)
    &&& issue.entry.value@ == uuid_text(user.id@)
    &&& is_reset_email(issue.email, user, token)
}

/// The forgotten-password handler with the token already drawn: for an
/// account found by email, `token` is handed out for it; if the lookup
/// failed, the answer is an empty internal error.
pub fn issue_reset_token(found: Result<User, BlockingFailure>, token: [u8; 16]) -> (r: ForgotStep)
    ensures
        match found {
            Ok(user) => r matches ForgotStep::Issue(issue) && is_issue_for(issue, user, token@),
            Err(_) => r matches ForgotStep::Done(Reply::EmptyServerError),
        },
{
    match found {
        Ok(user) => {
            let entry = SessionEntry { key: uuid_to_text(token), value: uuid_to_text(user.id) };
            let email = password_reset_email(&user, token);
            ForgotStep::Issue(ResetIssue { token, entry, email })
        },
        Err(_) => ForgotStep::Done(Reply::EmptyServerError),
    }
}

/// The forgotten-password handler, after the account was looked up by email
/// on a worker thread: a fresh random (version 4) token is drawn and handed
/// out for the account, as `issue_reset_token` describes.
pub fn forgotten_password(found: Result<User, BlockingFailure>) -> (r: ForgotStep)
    ensures
        match found {
            Ok(user) => r matches ForgotStep::Issue(issue) && issue.token@[6] / 16 == 4
                && issue.token@[8] / 64 == 2 && is_issue_for(issue, user, issue.token@),
            Err(_) => r matches ForgotStep::Done(Reply::EmptyServerError),
        },
{
    let token = new_v4_uuid();
    issue_reset_token(found, token)
}

/// The end of the forgotten-password handler, once the session entry was
/// written and the mail sent (`delivered` when both succeeded): the token's
/// text, or an internal error.
pub fn forgotten_password_sent(token: [u8; 16], delivered: bool) -> (r: Reply)
    ensures
        delivered ==> (r matches Reply::Success(Payload::Text(t)) && t@ == uuid_text(token@)),
        !delivered ==> (r matches Reply::Failure(e) && e@ == ServiceErrorView::InternalServerError),
{
    if delivered {
        Reply::Success(Payload::Text(uuid_to_text(token)))
    } else {
        Reply::Failure(ServiceError::InternalServerError)
    }
}

/// The account whose password a reset changes, given what the session holds
/// under the presented token: the id that the stored text stands for, if
/// there is a stored text and it is a UUID.
pub open spec fn reset_target(stored: Option<Seq<char>>) -> Option<Seq<u8>> {
    match stored {
        Some(s) => parse_uuid_text(s),
        None => None,
    }
}

/// What the reset handler does once it has looked up the presented token in
/// the session.
pub enum ResetStep {
    /// Set the new password of this account, then finish with
    /// `reset_password_done`.
    Update { user_id: [u8; 16] },
    /// Answer now.
    Done(Reply),
}

/// The reset handler, given what the session holds under the presented
/// token: the account that the stored text names has its password changed;
/// if nothing is stored or the text is no UUID, the answer is an empty
/// internal error.
pub fn reset_password(stored: Option<String>) -> (r: ResetStep)
    ensures
        match reset_target(
            match stored {
                Some(s) => Some(s@),
                None => None,
            },
        ) {
            Some(id) => r matches ResetStep::Update { user_id } && user_id@ == id,
            None => r matches ResetStep::Done(Reply::EmptyServerError),
        },
{
    match stored {
        Some(s) => match parse_uuid(s.as_str()) {
            Some(user_id) => ResetStep::Update { user_id },
            None => ResetStep::Done(Reply::EmptyServerError),
        },
        None => ResetStep::Done(Reply::EmptyServerError),
    }
}

/// The end of the reset handler: if the new password was stored, the token
/// is removed from the session (the second component names it) and the
/// answer is `true`; otherwise the token stays and the answer is an empty
/// internal error.
pub fn reset_password_done(token: String, updated: bool) -> (r: (Reply, Option<String>))
    ensures
        updated ==> r.0 matches Reply::Success(Payload::Flag(true)),
        !updated ==> r.0 is EmptyServerError,
        r.1 is Some <==> updated,
        r.1 matches Some(t) ==> t == token,
{
    if updated {
        (Reply::Success(Payload::Flag(true)), Some(token))
    } else {
        (Reply::EmptyServerError, None)
    }
}

/// What the session holds under `key`, if anything.
pub open spec fn session_lookup(session: Map<Seq<char>, Seq<char>>, key: Seq<char>) -> Option<
    Seq<char>,
> {
    if session.dom().contains(key) {
        Some(session[key])
    } else {
        None
    }
}

/// A reset token works at most once: once a successful reset has had its
/// token removed from the session (`reset_password_done` hands it back for
/// removal exactly on success), presenting the token again finds nothing,
/// so `reset_password` changes no account and answers with an empty
/// internal error.
pub proof fn lemma_reset_token_works_once(session: Map<Seq<char>, Seq<char>>, token: Seq<char>)
    ensures
        reset_target(session_lookup(session.remove(token), token)) is None,
{
}

/// A worker that failed with an error is answered with that very error,
/// whichever error it is; only work that never finished becomes an internal
/// error.
pub proof fn lemma_worker_error_passed_on(e: ServiceError)
    ensures
        blocking_error_view(BlockingFailure::Failed(e)) == e@,
        blocking_error_view(BlockingFailure::Canceled) == ServiceErrorView::InternalServerError,
{
}

/// A token handed out for an account stores, under the token's text, the
/// text of that account's id, whatever else the account holds; so a reset
/// with the token changes that very account's password.
pub proof fn lemma_issued_entry_names_the_account(issue: ResetIssue, user: User, token: Seq<u8>)
    requires
        is_issue_for(issue, user, token),
    ensures
        issue.entry.value@ == uuid_text(user.id@),
        reset_target(Some(issue.entry.value@)) == Some(user.id@),
{
    lemma_uuid_text_parses(user.id@);
}

/// A reset token leads to the account it was issued for: the text that
/// `forgotten_password` stores under the token (the account id's text) is
/// read back by `reset_password` as that very account id.
pub proof fn lemma_issued_token_resets_its_account(user_id: Seq<u8>)
    requires
        user_id.len() == 16,
    ensures
        reset_target(Some(uuid_text(user_id))) == Some(user_id),
{
    lemma_uuid_text_parses(user_id);
}

} // verus!
