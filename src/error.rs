use vstd::prelude::*;

verus! {

/// Everything that can go wrong while resolving credentials or signing a token.
#[derive(Debug, Clone)]
pub enum TokenError {
    /// The key file that the configuration points at was not supplied.
    KeyNotFound(String),
    /// The key file could not be read; holds the reader's message.
    KeyReadError(String),
    /// The key material is not a PKCS#8 PEM P-256 private key.
    InvalidKey(String),
    /// The token could not be put together or signed.
    EncodingError(String),
    /// A required configuration field is absent; holds the field's name.
    ConfigMissing(String),
}

impl TokenError {
    /// The text that introduces each kind of error.
    pub open spec fn prefix(&self) -> Seq<char> {
        match self {
            TokenError::KeyNotFound(_) => "Private key file not found: "@,
            TokenError::KeyReadError(_) => "Failed to read private key: "@,
            TokenError::InvalidKey(_) => "Invalid private key format: "@,
            TokenError::EncodingError(_) => "JWT encoding failed: "@,
            TokenError::ConfigMissing(_) => "Configuration missing: "@,
        }
    }

    /// The detail that the error carries.
    pub open spec fn detail(&self) -> Seq<char> {
        match self {
            TokenError::KeyNotFound(d) => d@,
            TokenError::KeyReadError(d) => d@,
            TokenError::InvalidKey(d) => d@,
            TokenError::EncodingError(d) => d@,
            TokenError::ConfigMissing(d) => d@,
        }
    }

    /// The error as a human-readable message.
    pub fn message(&self) -> (r: String)
        ensures
            r@ == self.prefix() + self.detail(),
    {
        let (mut r, d) = match self {
            TokenError::KeyNotFound(d) => (String::from_str("Private key file not found: "), d),
            TokenError::KeyReadError(d) => (String::from_str("Failed to read private key: "), d),
            TokenError::InvalidKey(d) => (String::from_str("Invalid private key format: "), d),
            TokenError::EncodingError(d) => (String::from_str("JWT encoding failed: "), d),
            TokenError::ConfigMissing(d) => (String::from_str("Configuration missing: "), d),
        };
        r.append(d.as_str());
        r
    }

    /// The message that a failed refresh reports: configuration errors and
    /// signing errors are told apart.
    pub fn refresh_message(&self) -> (r: String)
        ensures
            r@ == (if self is ConfigMissing {
                "Configuration error: "@
            } else {
                "Failed to generate token: "@
            }) + self.prefix() + self.detail(),
    {
        let mut r = if let TokenError::ConfigMissing(_) = self {
            String::from_str("Configuration error: ")
        } else {
            String::from_str("Failed to generate token: ")
        };
        let m = self.message();
        r.append(m.as_str());
        r
    }
}

} // verus!
