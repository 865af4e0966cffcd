//! The mail that carries a password reset token.

use vstd::prelude::*;
use crate::errors::{ServiceError, ServiceErrorView};
use crate::ids::{lemma_uuid_text_len, uuid_text, uuid_to_text};
use crate::db::models::User;

verus! {

/// A mail with an HTML and a plain-text alternative.
pub struct ResetEmail {
    pub to_address: String,
    pub to_name: String,
    pub from_address: String,
    pub subject: String,
    pub html: String,
    pub text: String,
}

/// The HTML body of the mail that carries the reset token with text `token`.
pub open spec fn reset_html(token: Seq<char>) -> Seq<char> {
    "<h2>Hi<br><br>Your password reset token is: "@ + token + "</h2>"@
}

/// The plain-text body of the mail that carries the reset token with text
/// `token`.
pub open spec fn reset_plain_text(token: Seq<char>) -> Seq<char> {
    "Hi Your password reset token is: "@ + token
}

/// `mail` is the mail that sends `user` the password reset token `token`:
/// addressed to the account's email under the holder's full name, from
/// `user@example.com`, with the token's text in both bodies.
pub open spec fn is_reset_email(mail: ResetEmail, user: User, token: Seq<u8>) -> bool {
    &&& mail.to_address == user.email
    &&& mail.to_name@ == user.first_name@ + " "@ + user.last_name@
    &&& mail.from_address@ == "user@example.com"@
    &&& mail.subject@ == "Hi, Hello world"@
    &&& mail.html@ == reset_html(uuid_text(token))
    &&& mail.text@ == reset_plain_text(uuid_text(token))
}

/// The mail that sends `user` the password reset token `token`.
pub fn password_reset_email(user: &User, token: [u8; 16]) -> (r: ResetEmail)
    ensures
        is_reset_email(r, *user, token@),
{
    let token_text = uuid_to_text(token);
    let html = String::from_str("<h2>Hi<br><br>Your password reset token is: ").concat(
        token_text.as_str(),
    ).concat("</h2>");
    let text = String::from_str("Hi Your password reset token is: ").concat(token_text.as_str());
    ResetEmail {
        to_address: user.email.clone(),
        to_name: user.full_name(),
        from_address: String::from_str("user@example.com"),
        subject: String::from_str("Hi, Hello world"),
        html,
        text,
    }
}

#[verifier::external_type_specification]
#[verifier::external_body]
pub struct ExSendableEmail(lettre::SendableEmail);

/// A mail built for sending, with the description it was built from and its
/// envelope read back: the addresses the mail server is told to deliver to,
/// and the sender address.
pub struct BuiltMail {
    pub email: lettre::SendableEmail,
    pub source: ResetEmail,
    pub to: Vec<String>,
    pub from: Option<String>,
}

/// Whether `fast_chemail::is_valid_email` (the syntax check that lettre
/// applies to every address) accepts the text `address`.
pub uninterp spec fn valid_email_syntax(address: Seq<char>) -> bool;

/// The addresses that lettre accepts in a mail's envelope
/// (`lettre::EmailAddress::new`): those of valid syntax, and any text that
/// ends in `localhost`.
pub open spec fn accepted_address(address: Seq<char>) -> bool {
    valid_email_syntax(address) || ends_in_localhost(address)
}

/// The text ends in `localhost`.
pub open spec fn ends_in_localhost(address: Seq<char>) -> bool {
    address.len() >= 9 && address.subrange(address.len() - 9, address.len() as int)
        == "localhost"@
}

/// `lettre_email::Email::builder()` with the mail's recipient (address and
/// name), sender, subject and HTML/plain-text alternative, then `build()`
/// and the conversion into `lettre::SendableEmail`, whose envelope is read
/// back; the mail it was built from is kept beside it. States that the
/// result keeps exactly the mail whose fields were handed to the builder,
/// that the build succeeds exactly when lettre accepts both addresses (`build` checks the recipients, then the sender, with
/// `EmailAddress::from_str`, and fails on nothing else here), and that the
/// envelope delivers to the recipient's address alone, from the sender's
/// address (`build` makes the envelope from the `To` and `From` mailboxes).
/// The encoded text of the message is not stated beyond that: it also
/// carries the date and a random message id.
#[verifier::external_body]
fn build_email(mail: ResetEmail) -> (r: Option<BuiltMail>)
    ensures
        r.is_some() ==> valid_email_syntax(mail.to_address@) || ends_in_localhost(mail.to_address@),
        r.is_some() ==> valid_email_syntax(mail.from_address@) || ends_in_localhost(mail.from_address@),
        valid_email_syntax(mail.to_address@) || ends_in_localhost(mail.to_address@) ==> (valid_email_syntax(mail.from_address@) || ends_in_localhost(mail.from_address@) ==> r.is_some()),
        r.is_some() ==> r.unwrap().source == mail,
        r.is_some() ==> r.unwrap().to@.len() == 1 && r.unwrap().to@[0]@ == mail.to_address@,
        r.is_some() ==> r.unwrap().from.is_some() && r.unwrap().from.unwrap()@ == mail.from_address@,
{
    let built = lettre_email::Email::builder()
        .to((mail.to_address.as_str(), mail.to_name.as_str()))
        .from(mail.from_address.as_str())
        .subject(mail.subject.as_str())
        .alternative(mail.html.as_str(), mail.text.as_str())
        .build();
    let email: lettre::SendableEmail = built.ok()?.into();
    let to = email.envelope().to().iter().map(|a| a.to_string()).collect();
    let from = email.envelope().from().map(|a| a.to_string());
    Some(BuiltMail { email, source: mail, to, from })
}

/// The reset mail built for sending from exactly the fields of `mail` (its
/// recipient and name, sender, subject, HTML and plain text, which the
/// result keeps as `source`), to be delivered to the mail's recipient alone,
/// from its sender; `None` when lettre refuses the recipient's or the
/// sender's address.
pub fn password_reset_message(mail: ResetEmail) -> (r: Option<BuiltMail>)
    ensures
        r is Some <==> accepted_address(mail.to_address@) && accepted_address(
            mail.from_address@,
        ),
        r matches Some(b) ==> b.source == mail,
        r matches Some(b) ==> b.to@.len() == 1 && b.to@[0]@ == mail.to_address@,
        r matches Some(b) ==> b.from matches Some(f) && f@ == mail.from_address@,
{
    build_email(mail)
}

/// The reset mail goes to the account's own email, whatever its length, and
/// both of its bodies carry the token's whole text: the HTML body is 85
/// characters with the token's text at characters 44 to 79, the plain text
/// 69 characters ending in the token's text.
pub proof fn lemma_reset_mail_carries_token_to_account(m: ResetEmail, u: User, token: Seq<u8>)
    requires
        is_reset_email(m, u, token),
        token.len() == 16,
    ensures
        m.to_address@ == u.email@,
        m.html@.len() == 85,
        m.html@.subrange(44, 80) == uuid_text(token),
        m.text@.len() == 69,
        m.text@.subrange(33, 69) == uuid_text(token),
{
    reveal_strlit("<h2>Hi<br><br>Your password reset token is: ");
    reveal_strlit("</h2>");
    reveal_strlit("Hi Your password reset token is: ");
    lemma_uuid_text_len(token);
    assert(m.html@.subrange(44, 80) =~= uuid_text(token));
    assert(m.text@.subrange(33, 69) =~= uuid_text(token));
}

/// Two reset mails with the same token, for accounts that agree on email and
/// on full name, are the same mail: no other field of the account (its id,
/// password hash, creation time or Yapily id) reaches the mail.
pub proof fn lemma_reset_mail_reads_only_email_and_name(
    m1: ResetEmail,
    u1: User,
    m2: ResetEmail,
    u2: User,
    token: Seq<u8>,
)
    requires
        is_reset_email(m1, u1, token),
        is_reset_email(m2, u2, token),
        u1.email@ == u2.email@,
        u1.first_name@ + " "@ + u1.last_name@ == u2.first_name@ + " "@ + u2.last_name@,
    ensures
        m1.to_address@ == m2.to_address@,
        m1.to_name@ == m2.to_name@,
        m1.from_address@ == m2.from_address@,
        m1.subject@ == m2.subject@,
        m1.html@ == m2.html@,
        m1.text@ == m2.text@,
{
}

/// The result of handing the reset mail to the mail server: nothing on
/// delivery, else an error of the mail server.
pub fn send_password_reset_token(delivered: bool) -> (r: Result<(), ServiceError>)
    ensures
        delivered <==> r is Ok,
        r matches Err(e) ==> e@ == ServiceErrorView::EmailServerError,
{
    if delivered {
        Ok(())
    } else {
        Err(ServiceError::EmailServerError)
    }
}

} // verus!
