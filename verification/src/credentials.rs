//! Live credentials: the requests that manage them, the checks on entered
//! secrets, how keys are masked for display, the identifiers of credentials
//! loaded from the environment, and the adapters that stand in when no
//! secure store or exchange is configured.

use vstd::prelude::*;

use crate::error::{AppError, AppResult};
use crate::live::{
    LiveCredentialId, LiveCredentialSecret, LiveCredentialValidationResult, LiveCredentialValidationStatus,
    LiveEnvironment, LiveModePreference,
};
use crate::text::{append_str, string_of_chars, trim_chars, trim_seq};
use vstd::string::StringSliceAdditionalSpecFns;
use vstd::utf8::{encode_utf8, is_char_boundary};

verus! {

/// A request to store a new credential.
#[derive(Debug, Clone, PartialEq, Eq)]
pub struct CreateLiveCredentialRequest {
    pub alias: String,
    pub environment: LiveEnvironment,
    pub api_key: String,
    pub api_secret: String,
}

/// A request to change a stored credential; absent fields stay as they are.
#[derive(Debug, Clone, PartialEq, Eq)]
pub struct UpdateLiveCredentialRequest {
    pub alias: Option<String>,
    pub environment: Option<LiveEnvironment>,
    pub api_key: Option<String>,
    pub api_secret: Option<String>,
}

/// A request to validate a stored credential against the exchange.
#[derive(Debug, Clone, PartialEq, Eq)]
pub struct ValidateCredentialRequest {
    pub credential_id: LiveCredentialId,
}

/// A request to recompute readiness, optionally for another environment.
#[derive(Debug, Clone, Copy, PartialEq, Eq, Structural)]
pub struct RefreshReadinessRequest {
    pub environment: Option<LiveEnvironment>,
}

/// A request to arm live mode; the operator confirms it stays read-only.
#[derive(Debug, Clone, Copy, PartialEq, Eq, Structural)]
pub struct ArmLiveModeRequest {
    pub confirm_read_only: bool,
}

/// A request to disarm live mode, with the operator's reason.
#[derive(Debug, Clone, PartialEq, Eq)]
pub struct DisarmLiveModeRequest {
    pub reason: Option<String>,
}

/// A request to switch between paper and live mode.
#[derive(Debug, Clone, Copy, PartialEq, Eq, Structural)]
pub struct SetLiveModePreferenceRequest {
    pub mode_preference: LiveModePreference,
}

/// The error for entered secrets, if any: an API key that is blank once
/// trimmed, else an API secret that is.
pub open spec fn secret_input_error(api_key: Seq<char>, api_secret: Seq<char>) -> Option<Seq<char>> {
    if trim_seq(api_key).len() == 0 {
        Some("api_key cannot be empty"@)
    } else if trim_seq(api_secret).len() == 0 {
        Some("api_secret cannot be empty"@)
    } else {
        None
    }
}

/// Checks entered secrets: neither the API key nor the API secret may be
/// blank.
pub fn validate_secret_input(api_key: &str, api_secret: &str) -> (r: AppResult<()>)
    ensures
        match secret_input_error(api_key@, api_secret@) {
            None => r is Ok,
            Some(m) => r is Err && r->Err_0 is Validation && r->Err_0->Validation_0@ == m,
        },
{
    let key = trim_chars(api_key);
    if key.len() == 0 {
        return Err(AppError::Validation(String::from_str("api_key cannot be empty")));
    }
    let secret = trim_chars(api_secret);
    if secret.len() == 0 {
        return Err(AppError::Validation(String::from_str("api_secret cannot be empty")));
    }
    Ok(())
}

/// The masked form of an API key: `****` when the trimmed key has at most
/// eight characters, else its first four characters, an ellipsis and its
/// last four.
pub open spec fn masked_key(api_key: Seq<char>) -> Seq<char> {
    let t = trim_seq(api_key);
    if t.len() <= 8 {
        "****"@
    } else {
        t.subrange(0, 4) + seq!['…'] + t.subrange(t.len() - 4, t.len() as int)
    }
}

/// The API key as shown to the operator: never more than its first and
/// last four characters.
pub fn mask_api_key(api_key: &str) -> (s: String)
    ensures
        s@ == masked_key(api_key@),
{
    let t = trim_chars(api_key);
    let n = t.len();
    if n <= 8 {
        return String::from_str("****");
    }
    let mut v: Vec<char> = Vec::new();
    let mut i: usize = 0;
    while i < 4
        invariant
            n == t@.len(),
            n > 8,
            i <= 4,
            v@ == t@.subrange(0, i as int),
        decreases 4 - i,
    {
        v.push(t[i]);
        i = i + 1;
    }
    v.push('…');
    let mut j: usize = n - 4;
    while j < n
        invariant
            n == t@.len(),
            n > 8,
            n - 4 <= j <= n,
            v@ == t@.subrange(0, 4) + seq!['…'] + t@.subrange(n - 4, j as int),
        decreases n - j,
    {
        v.push(t[j]);
        assert(v@ =~= t@.subrange(0, 4) + seq!['…'] + t@.subrange(n - 4, j + 1));
        j = j + 1;
    }
    assert(v@ =~= masked_key(api_key@));
    string_of_chars(&v)
}

/// A masked key shows at most eight characters of the key: none for a key
/// of up to eight characters, else only its first and last four.
pub proof fn lemma_masked_key_shows_little(api_key: Seq<char>)
    ensures
        masked_key(api_key).len() <= 9,
        trim_seq(api_key).len() <= 8 ==> masked_key(api_key) == "****"@,
        trim_seq(api_key).len() > 8 ==> masked_key(api_key)[4] == '…' && forall|i: int|
            0 <= i < 9 && i != 4 ==> #[trigger] masked_key(api_key)[i] == if i < 4 {
                trim_seq(api_key)[i]
            } else {
                trim_seq(api_key)[trim_seq(api_key).len() - 9 + i]
            },
{
    reveal_strlit("****");
}

/// Whether the listen key's length in bytes fits in `usize`, and the key
/// can be cut after its first four bytes and before its last four: both
/// places fall between characters.
pub open spec fn listen_key_cuts_fit(listen_key: &str) -> bool {
    let b = listen_key.spec_bytes();
    &&& b.len() <= usize::MAX
    &&& b.len() > 10 ==> is_char_boundary(b, 4) && is_char_boundary(b, b.len() - 4)
}

/// The listen key as it appears in messages: `listenKey…` for a key of at
/// most ten bytes, else its first four bytes, an ellipsis and its last four.
pub fn mask_listen_key(listen_key: &str) -> (s: String)
    requires
        listen_key_cuts_fit(listen_key),
    ensures
        listen_key.spec_bytes().len() <= 10 ==> s@ == "listenKey…"@,
        listen_key.spec_bytes().len() > 10 ==> exists|head: Seq<char>, tail: Seq<char>|
            {
                let b = listen_key.spec_bytes();
                &&& #[trigger] encode_utf8(head) == b.subrange(0, 4)
                &&& #[trigger] encode_utf8(tail) == b.subrange(b.len() - 4, b.len() as int)
                &&& s@ == head + "…"@ + tail
            },
{
    let n = listen_key.len();
    if n <= 10 {
        return String::from_str("listenKey…");
    }
    let (head, _) = listen_key.split_at(4);
    let (_, tail) = listen_key.split_at(n - 4);
    let mut s = String::from_str(head);
    append_str(&mut s, "…");
    append_str(&mut s, tail);
    assert(encode_utf8(head@) == listen_key.spec_bytes().subrange(0, 4));
    assert(encode_utf8(tail@) == listen_key.spec_bytes().subrange(n - 4, n as int));
    s
}

/// The fixed text that names the credential of an environment loaded from
/// the process environment.
pub open spec fn env_credential_text(environment: LiveEnvironment) -> Seq<char> {
    match environment {
        LiveEnvironment::Testnet => "env-testnet"@,
        LiveEnvironment::Mainnet => "env-mainnet"@,
    }
}

/// The identifier of the credential of an environment loaded from the
/// process environment.
pub fn env_credential_id(environment: LiveEnvironment) -> (id: LiveCredentialId)
    ensures
        id.0@ == env_credential_text(environment),
{
    LiveCredentialId::new(env_credential_alias(environment))
}

/// The alias of the credential of an environment loaded from the process
/// environment.
pub fn env_credential_alias(environment: LiveEnvironment) -> (s: &'static str)
    ensures
        s@ == env_credential_text(environment),
{
    match environment {
        LiveEnvironment::Testnet => "env-testnet",
        LiveEnvironment::Mainnet => "env-mainnet",
    }
}

/// The message of every refusal of the unconfigured secure store.
pub open spec fn secure_store_missing_text() -> Seq<char> {
    "secure storage adapter is not configured"@
}

/// The message of every refusal of the unconfigured exchange.
pub open spec fn exchange_missing_text() -> Seq<char> {
    "live exchange adapter is not configured"@
}

fn secure_store_missing<T>() -> (r: AppResult<T>)
    ensures
        r is Err && r->Err_0 is SecureStoreUnavailable && r->Err_0->SecureStoreUnavailable_0@
            == secure_store_missing_text(),
{
    Err(AppError::SecureStoreUnavailable(String::from_str("secure storage adapter is not configured")))
}

/// The secure store used when none is configured: it refuses every
/// operation.
#[derive(Debug, Clone, Copy, Default, PartialEq, Eq)]
pub struct UnavailableSecretStore;

impl UnavailableSecretStore {
    /// Refuses to store a secret.
    pub fn store(&self, id: &LiveCredentialId, secret: &LiveCredentialSecret) -> (r: AppResult<()>)
        ensures
            r is Err && r->Err_0 is SecureStoreUnavailable && r->Err_0->SecureStoreUnavailable_0@
                == secure_store_missing_text(),
    {
        secure_store_missing()
    }

    /// Refuses to read a secret.
    pub fn read(&self, id: &LiveCredentialId) -> (r: AppResult<LiveCredentialSecret>)
        ensures
            r is Err && r->Err_0 is SecureStoreUnavailable && r->Err_0->SecureStoreUnavailable_0@
                == secure_store_missing_text(),
    {
        secure_store_missing()
    }

    /// Refuses to delete a secret.
    pub fn delete(&self, id: &LiveCredentialId) -> (r: AppResult<()>)
        ensures
            r is Err && r->Err_0 is SecureStoreUnavailable && r->Err_0->SecureStoreUnavailable_0@
                == secure_store_missing_text(),
    {
        secure_store_missing()
    }

    /// Reports that the store is unavailable.
    pub fn ensure_available(&self) -> (r: AppResult<()>)
        ensures
            r is Err && r->Err_0 is SecureStoreUnavailable && r->Err_0->SecureStoreUnavailable_0@
                == secure_store_missing_text(),
    {
        secure_store_missing()
    }
}

/// The exchange used when none is configured: validation reports a network
/// error, and reading account or symbol data fails.
#[derive(Debug, Clone, Copy, Default, PartialEq, Eq)]
pub struct UnavailableLiveExchange;

impl UnavailableLiveExchange {
    /// Reports every credential as failing with a network error.
    pub fn validate_credentials(
        &self,
        environment: LiveEnvironment,
        credential_id: &LiveCredentialId,
        secret: &LiveCredentialSecret,
    ) -> (r: LiveCredentialValidationResult)
        ensures
            r.credential_id.0@ == credential_id.0@,
            r.environment == environment,
            r.status == LiveCredentialValidationStatus::NetworkError,
            r.validated_at == 0,
            r.message is Some && r.message->0@ == exchange_missing_text(),
    {
        LiveCredentialValidationResult {
            credential_id: LiveCredentialId(credential_id.0.clone()),
            environment,
            status: LiveCredentialValidationStatus::NetworkError,
            validated_at: 0,
            message: Some(String::from_str("live exchange adapter is not configured")),
        }
    }

    /// The error of every exchange read: the adapter is not configured.
    pub fn unavailable(&self) -> (e: AppError)
        ensures
            e is Exchange && e->Exchange_0@ == exchange_missing_text(),
    {
        AppError::Exchange(String::from_str("live exchange adapter is not configured"))
    }
}

/// The event publisher that drops every event.
#[derive(Debug, Clone, Copy, Default, PartialEq, Eq)]
pub struct NoopPublisher;

} // verus!
