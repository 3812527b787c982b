//! Accounts: the identity probe's answer, the client of one account, and
//! the records handed to storage.
use vstd::prelude::*;
use crate::json::{field, get_field, get_int, get_str, int_member, str_member, copy_json, JsonValue};

verus! {

pub assume_specification<T>[ rand::random::<T> ]() -> (r: T)
    where
        rand::distributions::Standard: rand::distributions::Distribution<T>,
;

/// The lowercase hex digit of a value below 16.
pub open spec fn hex_digit(n: u8) -> char {
    seq!['0', '1', '2', '3', '4', '5', '6', '7', '8', '9', 'a', 'b', 'c', 'd', 'e', 'f'][n as int]
}

/// Bytes written as lowercase hex, two digits per byte, high digit first.
pub open spec fn hex_of(b: Seq<u8>) -> Seq<char>
    decreases b.len(),
{
    if b.len() == 0 {
        Seq::empty()
    } else {
        seq![hex_digit(b[0] / 16), hex_digit(b[0] % 16)] + hex_of(b.drop_first())
    }
}

/// Relies on hex::encode: each byte as two lowercase hex digits, in order.
#[verifier::external_body]
fn hex_encode(b: &[u8]) -> (r: String)
    ensures
        r@ == hex_of(b@),
{
    hex::encode(b)
}

/// The length of a hex text.
pub proof fn lemma_hex_len(b: Seq<u8>)
    ensures
        hex_of(b).len() == 2 * b.len(),
    decreases b.len(),
{
    if b.len() > 0 {
        lemma_hex_len(b.drop_first());
    }
}

/// An id made of eight random bytes, written in hex.
pub open spec fn is_random_id(s: Seq<char>) -> bool {
    exists|b: Seq<u8>| b.len() == 8 && s == hex_of(b)
}

/// A new record id: eight random bytes as sixteen lowercase hex digits.
pub fn gen_id() -> (r: String)
    ensures
        is_random_id(r@),
        r@.len() == 16,
{
    let bytes: [u8; 8] = rand::random();
    let r = hex_encode(&bytes);
    proof {
        lemma_hex_len(bytes@);
    }
    r
}

/// Why an account could not be added.
#[derive(Debug, Clone, Copy, PartialEq, Eq, Structural)]
pub enum AuthError {
    /// The identity probe rejected the credential.
    InvalidCredential,
    /// The identity probe gave no usable answer.
    ProbeFailed,
}

/// The account that the identity probe describes.
#[derive(Debug)]
pub struct DiscordUser {
    pub id: String,
    pub username: String,
    pub discriminator: String,
}

/// The identity probe's refusal.
#[derive(Debug)]
pub struct DiscordApiError {
    pub code: i64,
    pub message: String,
    pub errors: JsonValue,
}

/// The identity probe's answer: the account, or a refusal.
#[derive(Debug)]
pub enum DiscordApiResponse {
    Account(DiscordUser),
    Refusal(DiscordApiError),
}

pub open spec fn user_answer(j: crate::json::Json) -> bool {
    &&& str_member(j, "id"@) is Some
    &&& str_member(j, "username"@) is Some
    &&& str_member(j, "discriminator"@) is Some
}

pub open spec fn error_answer(j: crate::json::Json) -> bool {
    &&& int_member(j, "code"@) is Some
    &&& str_member(j, "message"@) is Some
    &&& field(j, "errors"@) is Some
}

impl DiscordApiResponse {
    /// Reads the probe's answer: an account where the body has one's
    /// shape, else a refusal where it has that shape, else nothing.
    pub fn from_json(j: &JsonValue) -> (r: Option<DiscordApiResponse>)
        ensures
            match r {
                Some(DiscordApiResponse::Account(u)) => user_answer(j@) && str_member(j@, "id"@) == Some(
                    u.id@,
                ) && str_member(j@, "username"@) == Some(u.username@) && str_member(
                    j@,
                    "discriminator"@,
                ) == Some(u.discriminator@),
                Some(DiscordApiResponse::Refusal(e)) => !user_answer(j@) && error_answer(j@)
                    && int_member(j@, "code"@) == Some(e.code as int) && str_member(j@, "message"@)
                    == Some(e.message@) && field(j@, "errors"@) == Some(e.errors@),
                None => !user_answer(j@) && !error_answer(j@),
            },
    {
        let id = get_str(j, "id");
        let username = get_str(j, "username");
        let discriminator = get_str(j, "discriminator");
        match (id, username, discriminator) {
            (Some(id), Some(username), Some(discriminator)) => {
                return Some(DiscordApiResponse::Account(DiscordUser { id, username, discriminator }));
            },
            _ => {},
        }
        let code = get_int(j, "code");
        let message = get_str(j, "message");
        let errors = match get_field(j, "errors") {
            Some(e) => Some(copy_json(e)),
            None => None,
        };
        match (code, message, errors) {
            (Some(code), Some(message), Some(errors)) => Some(
                DiscordApiResponse::Refusal(DiscordApiError { code, message, errors }),
            ),
            _ => None,
        }
    }

    /// The account, or the refusal.
    pub fn into_result(self) -> (r: Result<DiscordUser, DiscordApiError>)
        ensures
            match self {
                DiscordApiResponse::Account(u) => r == Ok::<DiscordUser, DiscordApiError>(u),
                DiscordApiResponse::Refusal(e) => r == Err::<DiscordUser, DiscordApiError>(e),
            },
    {
        match self {
            DiscordApiResponse::Account(data) => Ok(data),
            DiscordApiResponse::Refusal(err) => Err(err),
        }
    }
}

/// The client of one account: its identity, resolved once by the probe, and
/// its credential.
#[derive(Debug)]
pub struct BotClient {
    pub account_id: String,
    pub username: String,
    pub account_token: String,
    pub created_by: String,
}

/// What adding an account with this probe answer gives.
pub open spec fn probe_outcome(j: crate::json::Json) -> Result<(), AuthError> {
    if user_answer(j) {
        Ok(())
    } else if error_answer(j) {
        Err(AuthError::InvalidCredential)
    } else {
        Err(AuthError::ProbeFailed)
    }
}

impl BotClient {
    /// The client of the account that the identity probe's answer `probe`
    /// describes for credential `token`. A refusal is `InvalidCredential`;
    /// an answer of neither shape is `ProbeFailed`.
    pub fn new(token: String, created_by: String, probe: &JsonValue) -> (r: Result<BotClient, AuthError>)
        ensures
            match r {
                Ok(c) => probe_outcome(probe@) is Ok && str_member(probe@, "id"@) == Some(
                    c.account_id@,
                ) && str_member(probe@, "username"@) == Some(c.username@) && c.account_token
                    == token && c.created_by == created_by,
                Err(e) => probe_outcome(probe@) == Err::<(), AuthError>(e),
            },
    {
        let resp = match DiscordApiResponse::from_json(probe) {
            Some(resp) => resp,
            None => {
                return Err(AuthError::ProbeFailed);
            },
        };
        match resp.into_result() {
            Err(_err) => Err(AuthError::InvalidCredential),
            Ok(user) => Ok(
                BotClient {
                    account_id: user.id,
                    username: user.username,
                    account_token: token,
                    created_by,
                },
            ),
        }
    }

    /// The storage record of this account.
    pub fn to_discord_account(&self) -> (r: ControlledAccount)
        ensures
            is_random_id(r.id@),
            r.discord_id@ == self.account_id@,
            r.username@ == self.username@,
            r.token@ == self.account_token@,
            r.created_by@ == self.created_by@,
    {
        ControlledAccount::new(self)
    }
}

/// The storage record of an account that this service controls.
#[derive(Debug)]
pub struct ControlledAccount {
    pub id: String,
    pub discord_id: String,
    pub username: String,
    pub token: String,
    pub created_by: String,
}

impl ControlledAccount {
    /// A record with a new id for a client's account.
    pub fn new(account_client: &BotClient) -> (r: ControlledAccount)
        ensures
            is_random_id(r.id@),
            r.discord_id@ == account_client.account_id@,
            r.username@ == account_client.username@,
            r.token@ == account_client.account_token@,
            r.created_by@ == account_client.created_by@,
    {
        ControlledAccount {
            id: gen_id(),
            discord_id: account_client.account_id.clone(),
            username: account_client.username.clone(),
            token: account_client.account_token.clone(),
            created_by: account_client.created_by.clone(),
        }
    }
}

/// The storage record that maps a controlled account to another account.
#[derive(Debug)]
pub struct AccountMapping {
    pub id: String,
    pub mapped_discord_id: String,
    pub controlled_username: String,
    pub controlled_discord_id: String,
    pub controlled_internal_id: String,
}

impl AccountMapping {
    /// A mapping with a new id from a controlled account to `mapped_discord_id`.
    pub fn new(controlled_account: &ControlledAccount, mapped_discord_id: String) -> (r: AccountMapping)
        ensures
            is_random_id(r.id@),
            r.mapped_discord_id == mapped_discord_id,
            r.controlled_username@ == controlled_account.username@,
            r.controlled_internal_id@ == controlled_account.id@,
            r.controlled_discord_id@ == controlled_account.discord_id@,
    {
        AccountMapping {
            id: gen_id(),
            mapped_discord_id,
            controlled_username: controlled_account.username.clone(),
            controlled_internal_id: controlled_account.id.clone(),
            controlled_discord_id: controlled_account.discord_id.clone(),
        }
    }
}

} // verus!
