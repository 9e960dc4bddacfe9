use vstd::prelude::*;
use crate::error::TokenError;

verus! {

/// The configuration values as read from the process environment; `None`
/// stands for a variable that is not set.
#[derive(Debug, Clone)]
pub struct EnvVars {
    pub team_id: Option<String>,
    pub key_id: Option<String>,
    pub private_key_path: Option<String>,
    pub private_key_content: Option<String>,
}

/// Resolved signing credentials.
#[derive(Debug, Clone)]
pub struct MusicKitConfig {
    /// Team identifier; becomes the issuer claim.
    pub team_id: String,
    /// Key identifier; becomes the `kid` header field.
    pub key_id: String,
    /// Path of the private key file (.p8).
    pub private_key_path: Option<String>,
    /// Inline PEM content of the private key; takes precedence over the path.
    pub private_key_content: Option<String>,
}

pub open spec fn team_id_var() -> Seq<char> {
    "APPLE_TEAM_ID"@
}

pub open spec fn key_id_var() -> Seq<char> {
    "APPLE_KEY_ID"@
}

pub open spec fn key_source_vars() -> Seq<char> {
    "APPLE_PRIVATE_KEY_PATH or APPLE_PRIVATE_KEY"@
}

pub open spec fn private_key_field() -> Seq<char> {
    "Private key"@
}

/// Resolution succeeds exactly when both identifiers and at least one key
/// source are present.
pub open spec fn env_is_complete(env: EnvVars) -> bool {
    &&& env.team_id is Some
    &&& env.key_id is Some
    &&& (env.private_key_path is Some || env.private_key_content is Some)
}

/// The name of the first field whose absence makes resolution fail.
pub open spec fn missing_field(env: EnvVars) -> Seq<char> {
    if env.team_id is None {
        team_id_var()
    } else if env.key_id is None {
        key_id_var()
    } else {
        key_source_vars()
    }
}

/// The key's PEM text, when there is one: the inline content, else what was
/// read from the key file.
pub open spec fn key_text(cfg: MusicKitConfig, key_file: Option<Result<String, String>>) -> Option<
    Seq<char>,
> {
    match cfg.private_key_content {
        Some(c) => Some(c@),
        None => match (cfg.private_key_path, key_file) {
            (Some(_), Some(Ok(s))) => Some(s@),
            _ => None,
        },
    }
}

/// The error owed when there is no key text.
pub open spec fn is_key_error(
    cfg: MusicKitConfig,
    key_file: Option<Result<String, String>>,
    e: TokenError,
) -> bool {
    match cfg.private_key_path {
        Some(p) => match key_file {
            Some(Err(m)) => e matches TokenError::KeyReadError(x) && x@ == m@,
            _ => e matches TokenError::KeyNotFound(x) && x@ == p@,
        },
        None => e matches TokenError::ConfigMissing(x) && x@ == private_key_field(),
    }
}

/// The configuration that a complete environment resolves to.
pub open spec fn config_of(env: EnvVars) -> MusicKitConfig {
    MusicKitConfig {
        team_id: env.team_id->Some_0,
        key_id: env.key_id->Some_0,
        private_key_path: env.private_key_path,
        private_key_content: env.private_key_content,
    }
}

impl MusicKitConfig {
    /// A configuration always carries at least one key source.
    pub open spec fn wf(&self) -> bool {
        self.private_key_path is Some || self.private_key_content is Some
    }

    /// Resolves the credentials from the environment's values. Touches no file.
    pub fn from_env(env: &EnvVars) -> (r: Result<MusicKitConfig, TokenError>)
        ensures
            r is Ok <==> env_is_complete(*env),
            r matches Ok(c) ==> c == config_of(*env) && c.wf(),
            r matches Err(e) ==> (e matches TokenError::ConfigMissing(f) && f@ == missing_field(*env)),
    {
        let team_id = match &env.team_id {
            Some(t) => t.clone(),
            None => {
                return Err(TokenError::ConfigMissing(String::from_str("APPLE_TEAM_ID")));
            },
        };
        let key_id = match &env.key_id {
            Some(k) => k.clone(),
            None => {
                return Err(TokenError::ConfigMissing(String::from_str("APPLE_KEY_ID")));
            },
        };
        if env.private_key_path.is_none() && env.private_key_content.is_none() {
            return Err(
                TokenError::ConfigMissing(
                    String::from_str("APPLE_PRIVATE_KEY_PATH or APPLE_PRIVATE_KEY"),
                ),
            );
        }
        Ok(MusicKitConfig {
            team_id,
            key_id,
            private_key_path: env.private_key_path.clone(),
            private_key_content: env.private_key_content.clone(),
        })
    }
    /// The file to read for the key: the path, when no inline content is given.
    pub fn key_file_path(&self) -> (r: Option<String>)
        ensures
            r == (if self.private_key_content is Some {
                None
            } else {
                self.private_key_path
            }),
    {
        if self.private_key_content.is_some() {
            None
        } else {
            self.private_key_path.clone()
        }
    }

    /// The PEM text of the private key: the inline content verbatim when there
    /// is one, else the contents of the key file, which the caller read at
    /// `key_file_path` and hands over as `key_file` (`None` when it did not).
    pub fn get_private_key(&self, key_file: Option<Result<String, String>>) -> (r: Result<
        String,
        TokenError,
    >)
        ensures
            key_text(*self, key_file) matches Some(k) ==> (r matches Ok(t) && t@ == k),
            key_text(*self, key_file) is None ==> (r matches Err(e) && is_key_error(*self, key_file, e)),
    {
        if let Some(content) = &self.private_key_content {
            return Ok(content.clone());
        }
        match &self.private_key_path {
            Some(path) => match key_file {
                Some(Ok(s)) => Ok(s),
                Some(Err(m)) => Err(TokenError::KeyReadError(m)),
                None => Err(TokenError::KeyNotFound(path.clone())),
            },
            None => Err(TokenError::ConfigMissing(String::from_str("Private key"))),
        }
    }
}

} // verus!
