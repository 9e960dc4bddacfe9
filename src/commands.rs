//! The operations that the host application exposes.

use vstd::prelude::*;
use crate::cache::{slot_after_refresh, TokenCache};
use crate::config::{
    config_of, env_is_complete, is_key_error, key_text, missing_field, EnvVars, MusicKitConfig,
};
use crate::error::TokenError;
use crate::token::{demo_token_text, generate_developer_token, is_p256_pkcs8_pem, is_token_for};

verus! {

/// No real token can come from `env` and `key_file`: the configuration is
/// incomplete, the key text is missing, or it is not a P-256 key.
pub open spec fn credentials_unusable(env: EnvVars, key_file: Option<Result<String, String>>) -> bool {
    ||| !env_is_complete(env)
    ||| key_text(config_of(env), key_file) is None
    ||| (key_text(config_of(env), key_file) matches Some(k) && !is_p256_pkcs8_pem(k))
}

/// `t` is a token signed for the credentials of `env`.
pub open spec fn is_token_for_env(t: Seq<char>, env: EnvVars) -> bool {
    exists|iat: int| is_token_for(t, config_of(env).key_id@, config_of(env).team_id@, iat)
}

/// Resolves the configuration and signs a token with it.
pub fn generate_from_env(env: &EnvVars, key_file: Option<Result<String, String>>) -> (r: Result<
    String,
    TokenError,
>)
    ensures
        !env_is_complete(*env) ==> (r matches Err(TokenError::ConfigMissing(f)) && f@
            == missing_field(*env)),
        env_is_complete(*env) && key_text(config_of(*env), key_file) is None ==> (r matches Err(e)
            && is_key_error(config_of(*env), key_file, e)),
        credentials_unusable(*env, key_file) ==> r is Err,
        r matches Ok(t) ==> is_token_for_env(t@, *env),
        r matches Err(TokenError::ConfigMissing(_)) ==> !env_is_complete(*env),
        r matches Err(TokenError::InvalidKey(_)) ==> (env_is_complete(*env) && (key_text(
            config_of(*env),
            key_file,
        ) matches Some(k) && !is_p256_pkcs8_pem(k))),
        r matches Err(e) && (e is KeyNotFound || e is KeyReadError) ==> (env_is_complete(*env)
            && key_text(config_of(*env), key_file) is None),
{
    match MusicKitConfig::from_env(env) {
        Ok(config) => generate_developer_token(&config, key_file),
        Err(e) => Err(e),
    }
}

/// The developer token: the cached one if there is one; else a token signed
/// from `env` (with `key_file`, what was read at the configured key path), or
/// the placeholder when that fails. Whatever is returned is cached.
pub fn get_developer_token(
    cache: &mut TokenCache,
    env: &EnvVars,
    key_file: Option<Result<String, String>>,
) -> (r: String)
    ensures
        final(cache).slot() == Some(r@),
        old(cache).slot() matches Some(t) ==> r@ == t,
        old(cache).slot() is None && credentials_unusable(*env, key_file) ==> r@
            == demo_token_text(),
        old(cache).slot() is None ==> (r@ == demo_token_text() || is_token_for_env(r@, *env)),
{
    match cache.cached() {
        Some(t) => t,
        None => {
            let fresh = generate_from_env(env, key_file);
            cache.get_or_create(fresh)
        },
    }
}

/// Signs a new token from `env`, bypassing the cache, and caches it on
/// success. Every failure is returned as it is, and leaves the cache alone.
pub fn refresh_developer_token(
    cache: &mut TokenCache,
    env: &EnvVars,
    key_file: Option<Result<String, String>>,
) -> (r: Result<String, TokenError>)
    ensures
        final(cache).slot() == slot_after_refresh(old(cache).slot(), r),
        !env_is_complete(*env) ==> (r matches Err(TokenError::ConfigMissing(f)) && f@
            == missing_field(*env)),
        env_is_complete(*env) && key_text(config_of(*env), key_file) is None ==> (r matches Err(e)
            && is_key_error(config_of(*env), key_file, e)),
        credentials_unusable(*env, key_file) ==> r is Err,
        r matches Ok(t) ==> is_token_for_env(t@, *env),
        r matches Err(TokenError::ConfigMissing(_)) ==> !env_is_complete(*env),
        r matches Err(TokenError::InvalidKey(_)) ==> (env_is_complete(*env) && (key_text(
            config_of(*env),
            key_file,
        ) matches Some(k) && !is_p256_pkcs8_pem(k))),
        r matches Err(e) && (e is KeyNotFound || e is KeyReadError) ==> (env_is_complete(*env)
            && key_text(config_of(*env), key_file) is None),
{
    let fresh = generate_from_env(env, key_file);
    cache.force_refresh(fresh)
}

/// Whether `env` holds a complete configuration. The key content is not
/// looked at: its validity is only checked when signing.
pub fn is_musickit_configured(env: &EnvVars) -> (r: bool)
    ensures
        r == env_is_complete(*env),
{
    MusicKitConfig::from_env(env).is_ok()
}

} // verus!
