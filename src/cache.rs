//! A single-slot cache for the developer token.

use vstd::prelude::*;
use crate::error::TokenError;
use crate::token::{demo_token_text, generate_demo_token};

verus! {

/// Holds at most one token; it is filled on the first request and replaced
/// only by a successful refresh.
#[derive(Debug, Clone)]
pub struct TokenCache {
    token: Option<String>,
}

/// What a request hands out when the slot is empty: the fresh token, or the
/// placeholder when producing one failed.
pub open spec fn fresh_or_placeholder(fresh: Result<String, TokenError>) -> Seq<char> {
    match fresh {
        Ok(t) => t@,
        Err(_) => demo_token_text(),
    }
}

/// The token that a request returns.
pub open spec fn request_result(slot: Option<Seq<char>>, fresh: Result<String, TokenError>) -> Seq<
    char,
> {
    match slot {
        Some(t) => t,
        None => fresh_or_placeholder(fresh),
    }
}

/// The slot after a request.
pub open spec fn slot_after_request(
    slot: Option<Seq<char>>,
    fresh: Result<String, TokenError>,
) -> Option<Seq<char>> {
    Some(request_result(slot, fresh))
}

/// The slot after a refresh: replaced on success, untouched on failure.
pub open spec fn slot_after_refresh(
    slot: Option<Seq<char>>,
    fresh: Result<String, TokenError>,
) -> Option<Seq<char>> {
    match fresh {
        Ok(t) => Some(t@),
        Err(_) => slot,
    }
}

impl TokenCache {
    /// The cached token's text, if any.
    pub closed spec fn slot(&self) -> Option<Seq<char>> {
        match self.token {
            Some(t) => Some(t@),
            None => None,
        }
    }

    /// An empty cache.
    pub fn new() -> (r: TokenCache)
        ensures
            r.slot() is None,
    {
        TokenCache { token: None }
    }

    /// The cached token, if any.
    pub fn cached(&self) -> (r: Option<String>)
        ensures
            r matches Some(t) ==> self.slot() == Some(t@),
            r is None ==> self.slot() is None,
    {
        match &self.token {
            Some(t) => Some(t.clone()),
            None => None,
        }
    }

    /// Returns the cached token; when the slot is empty, caches and returns
    /// `fresh`, or the placeholder if `fresh` is an error. Never fails.
    pub fn get_or_create(&mut self, fresh: Result<String, TokenError>) -> (r: String)
        ensures
            r@ == request_result(old(self).slot(), fresh),
            final(self).slot() == slot_after_request(old(self).slot(), fresh),
    {
        match &self.token {
            Some(t) => t.clone(),
            None => {
                let token = match fresh {
                    Ok(t) => t,
                    Err(_) => generate_demo_token(),
                };
                self.token = Some(token.clone());
                token
            },
        }
    }

    /// Hands `fresh` back verbatim; a token replaces the cached one, an error
    /// leaves the cache as it was.
    pub fn force_refresh(&mut self, fresh: Result<String, TokenError>) -> (r: Result<
        String,
        TokenError,
    >)
        ensures
            r == fresh,
            final(self).slot() == slot_after_refresh(old(self).slot(), fresh),
    {
        if let Ok(t) = &fresh {
            self.token = Some(t.clone());
        }
        fresh
    }
}

/// Requests are idempotent: once a request has filled the slot, a second
/// request returns the same token, whatever it is handed, and leaves the slot
/// as it was.
pub proof fn lemma_request_idempotent(
    slot: Option<Seq<char>>,
    first: Result<String, TokenError>,
    second: Result<String, TokenError>,
)
    ensures
        request_result(slot_after_request(slot, first), second) == request_result(slot, first),
        slot_after_request(slot_after_request(slot, first), second) == slot_after_request(
            slot,
            first,
        ),
{
}

/// A failed refresh leaves the cached token unchanged; a successful one
/// replaces it, and every later request returns the new token.
pub proof fn lemma_refresh_then_request(
    slot: Option<Seq<char>>,
    fresh: Result<String, TokenError>,
    later: Result<String, TokenError>,
)
    ensures
        fresh is Err ==> slot_after_refresh(slot, fresh) == slot,
        fresh matches Ok(t) ==> request_result(slot_after_refresh(slot, fresh), later) == t@,
        fresh matches Ok(t) ==> slot_after_request(slot_after_refresh(slot, fresh), later) == Some(
            t@,
        ),
{
}

} // verus!
