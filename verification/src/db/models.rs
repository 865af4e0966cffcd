//! Accounts, and the key that protects their passwords.

use vstd::prelude::*;
use crate::db::UserRegisterReq;
use crate::ids::new_v4_uuid;

verus! {

#[verifier::external_type_specification]
#[verifier::external_body]
pub struct ExNaiveDateTime(chrono::NaiveDateTime);

/// A registered account.
pub struct User {
    /// The bytes of the account's UUID.
    pub id: [u8; 16],
    pub email: String,
    /// The Argon2 hash of the password; the password itself is never kept.
    pub hash: String,
    pub first_name: String,
    pub last_name: String,
    pub created_at: chrono::NaiveDateTime,
    /// The id under which the open-banking provider knows the account; empty
    /// until the account is registered there.
    pub yapily_id: String,
}

/// `s` written `n` times in a row.
pub open spec fn repeat_text(s: Seq<char>, n: nat) -> Seq<char>
    decreases n,
{
    if n == 0 {
        seq![]
    } else {
        repeat_text(s, (n - 1) as nat) + s
    }
}

/// `s` written `n` times is `n` times as long as `s`, and starts with `s`
/// written `n - 1` times.
pub proof fn lemma_repeat_text_len(s: Seq<char>, n: nat)
    ensures
        repeat_text(s, n).len() == n * s.len(),
        n > 0 ==> repeat_text(s, n).subrange(0, ((n - 1) * s.len()) as int) == repeat_text(
            s,
            (n - 1) as nat,
        ),
    decreases n,
{
    if n > 0 {
        lemma_repeat_text_len(s, (n - 1) as nat);
        assert(repeat_text(s, n).len() == (n - 1) * s.len() + s.len());
        assert((n - 1) * s.len() + s.len() == n * s.len()) by (nonlinear_arith)
            requires
                n > 0,
        ;
        assert(repeat_text(s, n).subrange(0, ((n - 1) * s.len()) as int) =~= repeat_text(
            s,
            (n - 1) as nat,
        ));
    } else {
        assert(n * s.len() == 0) by (nonlinear_arith)
            requires
                n == 0,
        ;
    }
}

/// The key with which passwords are hashed and checked: the configured one,
/// or else `"1234"` written eight times.
pub fn secret_key(configured: Option<String>) -> (r: String)
    ensures
        match configured {
            Some(s) => r == s,
            None => r@ == repeat_text("1234"@, 8),
        },
{
    match configured {
        Some(s) => s,
        None => {
            let mut key = String::new();
            let mut i: usize = 0;
            while i < 8
                invariant
                    i <= 8,
                    key@ == repeat_text("1234"@, i as nat),
                decreases 8 - i,
            {
                key.append("1234");
                i = i + 1;
            }
            key
        },
    }
}

/// `chrono::Local::now().naive_local()`: the local wall-clock time. Nothing is
/// stated of it, since it depends on the clock and the time zone.
#[verifier::external_body]
fn local_now() -> (r: chrono::NaiveDateTime) {
    chrono::Local::now().naive_local()
}

impl User {
    /// A new account for a registration request with the given id and
    /// creation time: the request's email and names, the given password
    /// hash, and no open-banking id yet. The clear password is kept in no
    /// field.
    pub fn new_account(
        user_data: UserRegisterReq,
        password_hash: String,
        id: [u8; 16],
        created_at: chrono::NaiveDateTime,
    ) -> (r: User)
        ensures
            r.id == id,
            r.created_at == created_at,
            r.email == user_data.email,
            r.hash == password_hash,
            r.first_name == user_data.first_name,
            r.last_name == user_data.last_name,
            r.yapily_id@ == Seq::<char>::empty(),
    {
        User {
            id,
            email: user_data.email,
            hash: password_hash,
            first_name: user_data.first_name,
            last_name: user_data.last_name,
            created_at,
            yapily_id: String::new(),
        }
    }

    /// A new account for a registration request: a fresh random (version 4)
    /// id and the current local time, otherwise as `new_account` describes.
    pub fn from_user_data(user_data: UserRegisterReq, password_hash: String) -> (r: User)
        ensures
            r.id@[6] / 16 == 4,
            r.id@[8] / 64 == 2,
            r.email == user_data.email,
            r.hash == password_hash,
            r.first_name == user_data.first_name,
            r.last_name == user_data.last_name,
            r.yapily_id@ == Seq::<char>::empty(),
    {
        let id = new_v4_uuid();
        let created_at = local_now();
        User::new_account(user_data, password_hash, id, created_at)
    }

    /// The name under which mail is addressed to the account holder.
    pub fn full_name(&self) -> (r: String)
        ensures
            r@ == self.first_name@ + " "@ + self.last_name@,
    {
        String::from_str(self.first_name.as_str()).concat(" ").concat(self.last_name.as_str())
    }
}

} // verus!
