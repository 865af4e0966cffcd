//! Registration of accounts with the Yapily open-banking API.

use vstd::prelude::*;
use crate::errors::{ServiceError, ServiceErrorView};
use crate::ids::{uuid_text, uuid_to_text};
use crate::db::models::User;

verus! {

/// The character that stands for the 6-bit value `n` in the standard base64
/// alphabet (`A`-`Z`, `a`-`z`, `0`-`9`, `+`, `/`).
pub open spec fn base64_char(n: int) -> char {
    if n < 26 {
        ('A' as int + n) as char
    } else if n < 52 {
        ('a' as int + (n - 26)) as char
    } else if n < 62 {
        ('0' as int + (n - 52)) as char
    } else if n == 62 {
        '+'
    } else {
        '/'
    }
}

/// Standard base64 with `=` padding (RFC 4648, section 4): each group of
/// three bytes becomes four characters; a final group of one or two bytes is
/// padded to four characters with `=`.
pub open spec fn base64_standard(b: Seq<u8>) -> Seq<char>
    decreases b.len(),
{
    if b.len() == 0 {
        seq![]
    } else {
        let b0 = b[0] as int;
        if b.len() == 1 {
            seq![base64_char(b0 / 4), base64_char((b0 % 4) * 16), '=', '=']
        } else {
            let b1 = b[1] as int;
            if b.len() == 2 {
                seq![
                    base64_char(b0 / 4),
                    base64_char((b0 % 4) * 16 + b1 / 16),
                    base64_char((b1 % 16) * 4),
                    '=',
                ]
            } else {
                let b2 = b[2] as int;
                seq![
                    base64_char(b0 / 4),
                    base64_char((b0 % 4) * 16 + b1 / 16),
                    base64_char((b1 % 16) * 4 + b2 / 64),
                    base64_char(b2 % 64),
                ] + base64_standard(b.skip(3))
            }
        }
    }
}

/// The length of the padded base64 text of `n` bytes.
pub open spec fn base64_len(n: int) -> int {
    ((n + 2) / 3) * 4
}

/// Base64 turns every started group of three bytes into four characters:
/// nothing of the input is dropped and nothing is added beyond padding.
pub proof fn lemma_base64_len(b: Seq<u8>)
    ensures
        base64_standard(b).len() == base64_len(b.len() as int),
    decreases b.len(),
{
    if b.len() >= 3 {
        lemma_base64_len(b.skip(3));
    }
}

/// `base64::encode` (standard alphabet, padded): states that the text is
/// `base64_standard` of the bytes. The crate panics when the length of the
/// text does not fit in a `usize`, which `requires` leaves out.
#[verifier::external_body]
fn base64_encode(bytes: &[u8]) -> (r: String)
    requires
        base64_len(bytes@.len() as int) <= usize::MAX,
    ensures
        r@ == base64_standard(bytes@),
{
    base64::encode(bytes)
}

/// The base of every URL of the Yapily API.
pub open spec fn yapily_url() -> Seq<char> {
    "https://api.yapily.com"@
}

/// The credentials that the `Authorization` header carries: the application
/// key and secret joined by a colon.
pub open spec fn credentials(app_key: Seq<char>, app_secret: Seq<char>) -> Seq<char> {
    app_key + ":"@ + app_secret
}

/// The credentials are the whole key, a colon, and the whole secret: no part
/// of either is cut off, whatever their lengths.
pub proof fn lemma_credentials_hold_key_and_whole_secret(key: Seq<char>, secret: Seq<char>)
    ensures
        credentials(key, secret).len() == key.len() + 1 + secret.len(),
        credentials(key, secret).subrange(0, key.len() as int) == key,
        credentials(key, secret)[key.len() as int] == ':',
        credentials(key, secret).subrange(key.len() + 1 as int, key.len() + 1 + secret.len() as int) == secret,
{
    reveal_strlit(":");
    let c = credentials(key, secret);
    assert(c.subrange(0, key.len() as int) =~= key);
    assert(c.subrange(key.len() + 1 as int, key.len() + 1 + secret.len() as int) =~= secret);
}

/// The value of the `Authorization` header sent with every call to the API:
/// `Basic ` and the base64 of the UTF-8 bytes of `key:secret`. The base64
/// text must fit in memory.
pub fn authorization_header(app_key: &str, app_secret: &str) -> (r: String)
    requires
        base64_len(vstd::utf8::encode_utf8(credentials(app_key@, app_secret@)).len() as int) <= usize::MAX,
    ensures
        r@ == "Basic "@ + base64_standard(vstd::utf8::encode_utf8(credentials(app_key@, app_secret@))),
{
    let joined = String::from_str(app_key).concat(":").concat(app_secret);
    let encoded = base64_encode(joined.as_str().as_bytes());
    String::from_str("Basic ").concat(encoded.as_str())
}

/// The body of the call that registers an account: the account's id and,
/// as reference, its email.
pub struct CreateUserBody {
    pub user_id: String,
    pub reference_id: String,
}

/// The answer of the API to a registration.
pub struct CreateUserResponse {
    pub uuid: String,
    pub application_uuid: String,
    pub application_user_id: String,
    pub reference_id: String,
}

/// A consent that an account holder has given at a bank.
pub struct UserConsents {
    pub id: String,
    pub user_uuid: String,
    pub institution_id: String,
    pub status: String,
    pub consent_token: String,
}

/// A call to the API: where it goes, the `Authorization` header, and (for a
/// `POST`) the body to send as JSON.
pub struct ApiCall<B> {
    pub url: String,
    pub authorization: String,
    pub body: Option<B>,
}

/// The call that registers `user` with the API: a `POST` to `/users` whose
/// body holds the account's id as text and its email.
pub fn create_user_call(user: &User, authorization: &str) -> (r: ApiCall<CreateUserBody>)
    ensures
        r.url@ == yapily_url() + "/users"@,
        r.authorization@ == authorization@,
        r.body matches Some(b) && b.user_id@ == uuid_text(user.id@) && b.reference_id
            == user.email,
{
    let body = CreateUserBody { user_id: uuid_to_text(user.id), reference_id: user.email.clone() };
    ApiCall {
        url: String::from_str("https://api.yapily.com").concat("/users"),
        authorization: String::from_str(authorization),
        body: Some(body),
    }
}

/// The end of a registration with the API: on an answer, the account with
/// the id the API gave it and nothing else changed; if the call or the
/// reading of its answer failed, an internal error.
pub fn create_user(user: User, answer: Result<CreateUserResponse, ()>) -> (r: Result<
    User,
    ServiceError,
>)
    ensures
        match answer {
            Ok(body) => r matches Ok(u) && u.yapily_id == body.uuid && u.id == user.id && u.email
                == user.email && u.hash == user.hash && u.first_name == user.first_name
                && u.last_name == user.last_name && u.created_at == user.created_at,
            Err(_) => r matches Err(e) && e@ == ServiceErrorView::InternalServerError,
        },
{
    match answer {
        Ok(body) => {
            let mut user = user;
            user.yapily_id = body.uuid;
            Ok(user)
        },
        Err(_) => Err(ServiceError::InternalServerError),
    }
}

/// The call that lists the consents of `user`: a `GET` to the API's base,
/// `/users`, the account's Yapily id and `/consents`, joined as they stand.
pub fn get_user_consents_call(user: &User, authorization: &str) -> (r: ApiCall<()>)
    ensures
        r.url@ == yapily_url() + "/users"@ + user.yapily_id@ + "/consents"@,
        r.authorization@ == authorization@,
        r.body is None,
{
    ApiCall {
        url: String::from_str("https://api.yapily.com").concat("/users").concat(
            user.yapily_id.as_str(),
        ).concat("/consents"),
        authorization: String::from_str(authorization),
        body: None,
    }
}

/// The end of a listing of consents: the consents the API answered with, or
/// an internal error if the call or the reading of its answer failed.
pub fn get_user_consents(answer: Result<Vec<UserConsents>, ()>) -> (r: Result<
    Vec<UserConsents>,
    ServiceError,
>)
    ensures
        match answer {
            Ok(list) => r matches Ok(l) && l == list,
            Err(_) => r matches Err(e) && e@ == ServiceErrorView::InternalServerError,
        },
{
    match answer {
        Ok(list) => Ok(list),
        Err(_) => Err(ServiceError::InternalServerError),
    }
}

} // verus!
