//! Bearer-token management.
//!
//! A `TokenManager` is either `Insecure` (emulator mode: no token is ever
//! produced or needed) or `Authenticated` (it owns a credential document, a
//! scope list, and a cached token with its expiry). The credential-source
//! round trip that actually mints a token is I/O and happens outside this
//! crate; the manager only decides, for a given instant, whether the cached
//! token may be handed out or a refresh is required, and records the outcome
//! of a refresh. The embedding application holds the manager behind one
//! mutual-exclusion lock across the whole decide-then-refresh-then-store
//! sequence, so the protocol below runs serialized.

use vstd::prelude::*;
use vstd::string::StringExecFns;

use crate::error::Error;

verus! {

/// The `authorization` header value for a raw token: `Bearer {token}`.
pub open spec fn spec_bearer(token: Seq<char>) -> Seq<char> {
    "Bearer "@ + token
}

/// Formats a raw token as the bearer-scheme header value the service expects.
pub fn bearer_header(token: &str) -> (r: String)
    ensures
        r@ == spec_bearer(token@),
{
    let mut s = String::from_str("Bearer ");
    s.append(token);
    proof {
        assert(s@ =~= spec_bearer(token@));
    }
    s
}

/// What a caller must do to authorize one outgoing request.
pub enum TokenAction {
    /// Emulator mode: send the request with no authorization header.
    NoneNeeded,
    /// A cached token is valid at the given instant; the carried string is
    /// the complete header value.
    Use(String),
    /// No valid cached token: exactly one refresh against the credential
    /// source must run, and its outcome be stored, before the request goes
    /// out.
    Refresh,
}

#[derive(Clone)]
pub enum TokenManager {
    /// Emulator mode: no credential source is ever contacted.
    Insecure,
    /// Production mode: owns the (opaque) credential document, the OAuth
    /// scopes to request, and the cached token, if any, with its expiry.
    Authenticated {
        credentials: String,
        scopes: Vec<String>,
        token: Option<String>,
        expiry: u64,
    },
}

impl TokenManager {
    /// A manager freshly built from a credential document: authenticated,
    /// with nothing cached, so the first caller triggers a refresh.
    pub fn new(credentials: String, scopes: Vec<String>) -> (m: TokenManager)
        ensures
            m == (TokenManager::Authenticated {
                credentials,
                scopes,
                token: None::<String>,
                expiry: 0u64,
            }),
    {
        TokenManager::Authenticated { credentials, scopes, token: None, expiry: 0 }
    }

    /// A token is on hand and not yet past its expiry at instant `now`.
    pub open spec fn has_valid_token(self, now: u64) -> bool {
        &&& self is Authenticated
        &&& self->token is Some
        &&& now < self->expiry
    }

    /// A caller at instant `now` must run a refresh before proceeding.
    pub open spec fn needs_refresh(self, now: u64) -> bool {
        self is Authenticated && !self.has_valid_token(now)
    }

    /// The manager state after a successful refresh that minted `token`
    /// valid until `expiry`; only the cache changes.
    pub open spec fn after_refresh(self, token: String, expiry: u64) -> TokenManager
        recommends
            self is Authenticated,
    {
        TokenManager::Authenticated {
            credentials: self->credentials,
            scopes: self->scopes,
            token: Some(token),
            expiry,
        }
    }

    /// The check half of the critical section: decides, at instant `now`,
    /// whether the request needs no header, can reuse the cached token, or
    /// must wait for one refresh.
    pub fn decide(&self, now: u64) -> (a: TokenAction)
        ensures
            self is Insecure <==> a is NoneNeeded,
            self.needs_refresh(now) <==> a is Refresh,
            self.has_valid_token(now) <==> a is Use,
            a matches TokenAction::Use(h) ==> h@ == spec_bearer(self->token->0@),
    {
        match self {
            TokenManager::Insecure => TokenAction::NoneNeeded,
            TokenManager::Authenticated { token, expiry, .. } => {
                match token {
                    Some(t) => {
                        if now < *expiry {
                            TokenAction::Use(bearer_header(t.as_str()))
                        } else {
                            TokenAction::Refresh
                        }
                    },
                    None => TokenAction::Refresh,
                }
            },
        }
    }

    /// The store half of the critical section: records the token a refresh
    /// minted, replacing the cached token and expiry atomically (the lock is
    /// still held). The credential document and scopes are untouched.
    pub fn store(&mut self, token: String, expiry: u64)
        requires
            *old(self) is Authenticated,
        ensures
            *final(self) == old(self).after_refresh(token, expiry),
    {
        let mut taken = TokenManager::Insecure;
        core::mem::swap(self, &mut taken);
        match taken {
            TokenManager::Authenticated { credentials, scopes, .. } => {
                *self = TokenManager::Authenticated {
                    credentials,
                    scopes,
                    token: Some(token),
                    expiry,
                };
            },
            TokenManager::Insecure => {
                proof {
                    assert(false);
                }
            },
        }
    }

    /// Completes a refresh with the credential source's outcome, while the
    /// lock is still held. A minted token replaces the cached token and
    /// expiry atomically and is handed back as a header; a failure is
    /// propagated to the caller unchanged, the cache untouched — no retry
    /// happens at this layer.
    pub fn complete_refresh(&mut self, outcome: Result<(String, u64), Error>) -> (r: Result<
        String,
        Error,
    >)
        requires
            *old(self) is Authenticated,
        ensures
            (outcome matches Ok(minted) ==> {
                &&& *final(self) == old(self).after_refresh(minted.0, minted.1)
                &&& r matches Ok(h) && h@ == spec_bearer(minted.0@)
            }),
            (outcome matches Err(e) ==> *final(self) == *old(self) && r == Result::<
                String,
                Error,
            >::Err(e)),
    {
        match outcome {
            Ok((token, expiry)) => {
                let header = bearer_header(token.as_str());
                self.store(token, expiry);
                Ok(header)
            },
            Err(e) => Err(e),
        }
    }

    /// The scope list a refresh must request, exactly as configured; absent
    /// in emulator mode, where no refresh ever runs.
    pub fn scopes(&self) -> (r: Option<&Vec<String>>)
        ensures
            (r matches Some(s) ==> self is Authenticated && s@ == self->scopes@),
            r is None <==> self is Insecure,
    {
        match self {
            TokenManager::Authenticated { scopes, .. } => Some(scopes),
            TokenManager::Insecure => None,
        }
    }
}

/// One refresh serves every waiting caller. The lock is held across the
/// whole decide-then-refresh-then-store sequence, so callers that arrive
/// while a refresh is in flight re-run `decide` only after `store`; this
/// lemma says that such a caller, at any instant the fresh token still
/// covers, finds a valid cached token and does not trigger a second refresh.
pub proof fn lemma_single_refresh(m: TokenManager, token: String, expiry: u64, now: u64)
    requires
        m is Authenticated,
        now < expiry,
    ensures
        !m.after_refresh(token, expiry).needs_refresh(now),
        m.after_refresh(token, expiry).has_valid_token(now),
{
}

} // verus!
