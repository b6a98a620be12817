//! The lifecycle of stored live credentials: the checks on creating,
//! changing, deleting and validating one, and the metadata each step
//! records. Secrets themselves go to the secure store; only a masked key
//! hint is kept here.

use vstd::prelude::*;

use crate::credentials::{env_credential_alias, env_credential_id, env_credential_text, masked_key, mask_api_key, secret_input_error, validate_secret_input, CreateLiveCredentialRequest, UpdateLiveCredentialRequest};
use crate::error::{AppError, AppResult};
use crate::execution::clone_opt_string;
use crate::intent::random_uuid_text;
use crate::live::{
    LiveCredentialId, LiveCredentialSecret, LiveCredentialSource, LiveCredentialSummary,
    LiveCredentialValidationResult, LiveCredentialValidationStatus, LiveEnvironment,
};
use crate::readiness::{validation_is_stale, validation_stale};
use crate::text::{concat_str, str_eq, string_of_chars, trim_chars, trim_seq};

verus! {

/// The credential asked for, or `NotFound` with
/// `live credential not found: <id>`.
pub fn credential_or_not_found(found: Option<LiveCredentialSummary>, id: &LiveCredentialId) -> (r: AppResult<
    LiveCredentialSummary,
>)
    ensures
        match found {
            Some(c) => r == Ok::<LiveCredentialSummary, AppError>(c),
            None => r is Err && r->Err_0 is NotFound && r->Err_0->NotFound_0@ == "live credential not found: "@
                + id.0@,
        },
{
    match found {
        Some(c) => Ok(c),
        None => Err(AppError::NotFound(concat_str("live credential not found: ", id.0.as_str()))),
    }
}

/// The error for a blank alias.
pub open spec fn blank_alias_text() -> Seq<char> {
    "credential alias cannot be empty"@
}

/// The problem of a new credential, if any: a blank alias, else a blank
/// API key or secret.
pub open spec fn new_credential_error(request: CreateLiveCredentialRequest) -> Option<Seq<char>> {
    if trim_seq(request.alias@).len() == 0 {
        Some(blank_alias_text())
    } else {
        secret_input_error(request.api_key@, request.api_secret@)
    }
}

/// Checks a request to store a new credential, and gives its alias with
/// white space trimmed.
pub fn check_new_credential(request: &CreateLiveCredentialRequest) -> (r: AppResult<String>)
    ensures
        match new_credential_error(*request) {
            None => r is Ok && r->Ok_0@ == trim_seq(request.alias@),
            Some(m) => r is Err && r->Err_0 is Validation && r->Err_0->Validation_0@ == m,
        },
{
    let alias = trim_chars(request.alias.as_str());
    if alias.len() == 0 {
        return Err(AppError::Validation(String::from_str("credential alias cannot be empty")));
    }
    match validate_secret_input(request.api_key.as_str(), request.api_secret.as_str()) {
        Ok(()) => Ok(string_of_chars(&alias)),
        Err(e) => Err(e),
    }
}

/// A fresh random credential identifier (a UUID in its hyphenated form).
pub fn fresh_credential_id() -> (id: LiveCredentialId)
    ensures
        id.0@.len() == 36,
{
    LiveCredentialId(random_uuid_text())
}

/// The metadata of a new secure-store credential at `now_ms`: its masked
/// key hint, not yet validated, active where the environment has no
/// active credential yet.
pub fn new_credential_metadata(
    id: LiveCredentialId,
    alias: String,
    environment: LiveEnvironment,
    api_key: &str,
    has_active: bool,
    now_ms: i64,
) -> (c: LiveCredentialSummary)
    ensures
        c.id == id,
        c.alias == alias,
        c.environment == environment,
        c.source == LiveCredentialSource::SecureStore,
        c.api_key_hint@ == masked_key(api_key@),
        c.validation_status == LiveCredentialValidationStatus::Unknown,
        c.last_validated_at is None,
        c.last_validation_error is None,
        c.is_active == !has_active,
        c.created_at == now_ms,
        c.updated_at == now_ms,
{
    LiveCredentialSummary {
        id,
        alias,
        environment,
        source: LiveCredentialSource::SecureStore,
        api_key_hint: mask_api_key(api_key),
        validation_status: LiveCredentialValidationStatus::Unknown,
        last_validated_at: None,
        last_validation_error: None,
        is_active: !has_active,
        created_at: now_ms,
        updated_at: now_ms,
    }
}

/// Applies a credential change to the metadata: the alias (trimmed) and
/// environment where given; where a new key and secret are given, they
/// are returned for the secure store. Refuses an env-backed credential,
/// a blank alias, a key without a secret or the other way round, and a
/// blank key or secret.
pub fn apply_credential_update(credential: LiveCredentialSummary, request: UpdateLiveCredentialRequest) -> (r:
    AppResult<(LiveCredentialSummary, Option<LiveCredentialSecret>)>)
    ensures
        credential.source == LiveCredentialSource::Env ==> r is Err && r->Err_0 is Conflict
            && r->Err_0->Conflict_0@
            == "env-backed credentials are read-only; update the local .env file and restart"@,
        credential.source != LiveCredentialSource::Env && request.alias is Some && trim_seq(request.alias->0@).len()
            == 0 ==> r is Err && r->Err_0 is Validation && r->Err_0->Validation_0@ == blank_alias_text(),
        credential.source != LiveCredentialSource::Env && !(request.alias is Some && trim_seq(
            request.alias->0@,
        ).len() == 0) ==> match (request.api_key, request.api_secret) {
            (Some(k), Some(s)) => match secret_input_error(k@, s@) {
                Some(m) => r is Err && r->Err_0 is Validation && r->Err_0->Validation_0@ == m,
                None => r is Ok && r->Ok_0.1 == Some(LiveCredentialSecret { api_key: k, api_secret: s }),
            },
            (None, None) => r is Ok && r->Ok_0.1 is None,
            _ => r is Err && r->Err_0 is Validation && r->Err_0->Validation_0@
                == "api_key and api_secret must be provided together"@,
        },
        r matches Ok((c, _)) ==> {
            &&& c == (LiveCredentialSummary {
                alias: c.alias,
                environment: match request.environment {
                    Some(e) => e,
                    None => credential.environment,
                },
                ..credential
            })
            &&& c.alias@ == match request.alias {
                Some(a) => trim_seq(a@),
                None => credential.alias@,
            }
        },
{
    if credential.source == LiveCredentialSource::Env {
        return Err(
            AppError::Conflict(
                String::from_str("env-backed credentials are read-only; update the local .env file and restart"),
            ),
        );
    }
    let mut c = credential;
    match &request.alias {
        Some(a) => {
            let trimmed = trim_chars(a.as_str());
            if trimmed.len() == 0 {
                return Err(AppError::Validation(String::from_str("credential alias cannot be empty")));
            }
            c.alias = string_of_chars(&trimmed);
        },
        None => {},
    }
    match request.environment {
        Some(e) => {
            c.environment = e;
        },
        None => {},
    }
    match (request.api_key, request.api_secret) {
        (Some(api_key), Some(api_secret)) => {
            match validate_secret_input(api_key.as_str(), api_secret.as_str()) {
                Ok(()) => Ok((c, Some(LiveCredentialSecret { api_key, api_secret }))),
                Err(e) => Err(e),
            }
        },
        (None, None) => Ok((c, None)),
        _ => Err(AppError::Validation(String::from_str("api_key and api_secret must be provided together"))),
    }
}

/// The metadata after a new secret was stored and read back at `now_ms`:
/// the hint of the key read back, validation reset.
pub fn credential_with_new_secret(credential: LiveCredentialSummary, stored_api_key: &str, now_ms: i64) -> (c:
    LiveCredentialSummary)
    ensures
        c.api_key_hint@ == masked_key(stored_api_key@),
        c == (LiveCredentialSummary {
            api_key_hint: c.api_key_hint,
            validation_status: LiveCredentialValidationStatus::Unknown,
            last_validated_at: None,
            last_validation_error: None,
            updated_at: now_ms,
            ..credential
        }),
{
    let mut c = credential;
    c.api_key_hint = mask_api_key(stored_api_key);
    c.validation_status = LiveCredentialValidationStatus::Unknown;
    c.last_validated_at = None;
    c.last_validation_error = None;
    c.updated_at = now_ms;
    c
}

/// The refusal to delete a credential, if any: an env-backed credential is
/// read-only.
pub fn delete_refusal(credential: &Option<LiveCredentialSummary>) -> (r: Option<AppError>)
    ensures
        r is Some <==> (credential is Some && credential->0.source == LiveCredentialSource::Env),
        r matches Some(e) ==> e is Conflict && e->Conflict_0@
            == "env-backed credentials are read-only; disable env credentials or update .env"@,
{
    match credential {
        Some(c) => {
            if c.source == LiveCredentialSource::Env {
                Some(
                    AppError::Conflict(
                        String::from_str("env-backed credentials are read-only; disable env credentials or update .env"),
                    ),
                )
            } else {
                None
            }
        },
        None => None,
    }
}

/// The refusal to validate a secure-store credential while credentials
/// loaded from the environment are authoritative.
pub fn validation_source_refusal(authoritative: bool, source: LiveCredentialSource) -> (r: Option<AppError>)
    ensures
        r is Some <==> (authoritative && source != LiveCredentialSource::Env),
        r matches Some(e) ==> e is Conflict && e->Conflict_0@
            == "RELXEN_CREDENTIAL_SOURCE=env is active; unset it to validate secure-store credentials"@,
{
    if authoritative && source != LiveCredentialSource::Env {
        Some(
            AppError::Conflict(
                String::from_str(
                    "RELXEN_CREDENTIAL_SOURCE=env is active; unset it to validate secure-store credentials",
                ),
            ),
        )
    } else {
        None
    }
}

/// A validation that could not read the secret because the secure store is
/// unavailable, at `now_ms`: the credential records the store's state and
/// error, and so does the result.
pub fn validation_store_unavailable(credential: LiveCredentialSummary, error: &AppError, now_ms: i64) -> (r: (
    LiveCredentialSummary,
    LiveCredentialValidationResult,
))
    ensures
        r.0.last_validation_error is Some && r.0.last_validation_error->0@ == error.text(),
        r.0 == (LiveCredentialSummary {
            validation_status: LiveCredentialValidationStatus::SecureStoreUnavailable,
            last_validated_at: Some(now_ms),
            last_validation_error: r.0.last_validation_error,
            updated_at: now_ms,
            ..credential
        }),
        r.1.credential_id == credential.id,
        r.1.environment == credential.environment,
        r.1.status == LiveCredentialValidationStatus::SecureStoreUnavailable,
        r.1.validated_at == now_ms,
        r.1.message is Some && r.1.message->0@ == error.text(),
{
    let text = error.message();
    let mut c = credential;
    c.validation_status = LiveCredentialValidationStatus::SecureStoreUnavailable;
    c.last_validated_at = Some(now_ms);
    c.last_validation_error = Some(text.clone());
    c.updated_at = now_ms;
    let result = LiveCredentialValidationResult {
        credential_id: LiveCredentialId(c.id.0.clone()),
        environment: c.environment,
        status: LiveCredentialValidationStatus::SecureStoreUnavailable,
        validated_at: now_ms,
        message: Some(text),
    };
    (c, result)
}

/// The credential after the exchange validated it, at `now_ms`: its
/// status, time and message.
pub fn record_validation(credential: LiveCredentialSummary, result: &LiveCredentialValidationResult, now_ms: i64) -> (c:
    LiveCredentialSummary)
    ensures
        c == (LiveCredentialSummary {
            validation_status: result.status,
            last_validated_at: Some(result.validated_at),
            last_validation_error: result.message,
            updated_at: now_ms,
            ..credential
        }),
{
    let mut c = credential;
    c.validation_status = result.status;
    c.last_validated_at = Some(result.validated_at);
    c.last_validation_error = clone_opt_string(&result.message);
    c.updated_at = now_ms;
    c
}


/// Whether `c` is the metadata of the credential an environment's variables
/// hold, synced at `now`: the fixed identifier and alias, the key's hint;
/// the validation state kept only where the stored hint is the same; the
/// active flag and creation time kept from the stored metadata.
pub open spec fn env_metadata_holds(
    c: LiveCredentialSummary,
    environment: LiveEnvironment,
    api_key: Seq<char>,
    existing: Option<LiveCredentialSummary>,
    now: i64,
) -> bool {
    let hint = masked_key(api_key);
    let kept = existing matches Some(e) && e.api_key_hint@ == hint;
    &&& c.id.0@ == env_credential_text(environment)
    &&& c.alias@ == env_credential_text(environment)
    &&& c.environment == environment
    &&& c.source == LiveCredentialSource::Env
    &&& c.api_key_hint@ == hint
    &&& c.validation_status == if kept { existing->0.validation_status } else { LiveCredentialValidationStatus::Unknown }
    &&& c.last_validated_at == if kept { existing->0.last_validated_at } else { None }
    &&& c.last_validation_error == if kept { existing->0.last_validation_error } else { None }
    &&& c.is_active == (existing matches Some(e) && e.is_active)
    &&& c.created_at == match existing {
        Some(e) => e.created_at,
        None => now,
    }
    &&& c.updated_at == now
}

/// The metadata of the credential that an environment's variables hold.
pub fn env_credential_metadata(
    environment: LiveEnvironment,
    secret: &LiveCredentialSecret,
    existing: &Option<LiveCredentialSummary>,
    now_ms: i64,
) -> (c: LiveCredentialSummary)
    ensures
        env_metadata_holds(c, environment, secret.api_key@, *existing, now_ms),
{
    let hint = mask_api_key(secret.api_key.as_str());
    let (status, validated_at, error, active, created) = match existing {
        Some(e) => {
            if str_eq(e.api_key_hint.as_str(), hint.as_str()) {
                (e.validation_status, e.last_validated_at, clone_opt_string(&e.last_validation_error), e.is_active, e.created_at)
            } else {
                (LiveCredentialValidationStatus::Unknown, None, None, e.is_active, e.created_at)
            }
        },
        None => (LiveCredentialValidationStatus::Unknown, None, None, false, now_ms),
    };
    LiveCredentialSummary {
        id: env_credential_id(environment),
        alias: String::from_str(env_credential_alias(environment)),
        environment,
        source: LiveCredentialSource::Env,
        api_key_hint: hint,
        validation_status: status,
        last_validated_at: validated_at,
        last_validation_error: error,
        is_active: active,
        created_at: created,
        updated_at: now_ms,
    }
}

/// Whether the testnet credential from the environment is selected:
/// where its pair is complete, when the environment's credentials are
/// authoritative or the active testnet credential is missing, not valid or
/// stale; and whether the live environment then switches to testnet: when
/// authoritative, already on testnet, or without an active credential.
pub open spec fn env_testnet_choice(
    authoritative: bool,
    pair_complete: bool,
    active: Option<LiveCredentialSummary>,
    validation_ttl_ms: i64,
    live_environment: LiveEnvironment,
    now: i64,
) -> (bool, bool) {
    let active_valid = active matches Some(c) && c.validation_status == LiveCredentialValidationStatus::Valid
        && !validation_stale(c, validation_ttl_ms, now);
    let select = pair_complete && (authoritative || !active_valid);
    let switch = select && (authoritative || live_environment == LiveEnvironment::Testnet || active is None);
    (select, switch)
}

/// Decides whether to select the testnet credential from the environment,
/// and whether to switch the live environment to testnet.
pub fn choose_env_testnet(
    authoritative: bool,
    pair_complete: bool,
    active: &Option<LiveCredentialSummary>,
    validation_ttl_ms: i64,
    live_environment: LiveEnvironment,
    now_ms: i64,
) -> (r: (bool, bool))
    ensures
        r == env_testnet_choice(authoritative, pair_complete, *active, validation_ttl_ms, live_environment, now_ms),
{
    let active_valid = match active {
        Some(c) => c.validation_status.is_valid() && !validation_is_stale(c, validation_ttl_ms, now_ms),
        None => false,
    };
    let select = pair_complete && (authoritative || !active_valid);
    let switch = select && (authoritative || live_environment == LiveEnvironment::Testnet || active.is_none());
    (select, switch)
}

} // verus!
