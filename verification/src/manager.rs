//! The token manager: the single entry point the rest of the client
//! calls to obtain a currently-usable access token.
//!
//! Per invocation it decides once — prompt for credentials, run the
//! authorization flow, refresh, or hand out the stored token — and the
//! binary performs whichever network step was asked for, feeding the
//! outcome back through `complete_authorization` or `complete_refresh`.
//! A stored, unexpired token is returned with no network call at all.

use vstd::prelude::*;

use crate::auth::{SpotifyAccessToken, SpotifyRefreshToken};
use crate::db::{
    new_record, spec_is_expired, spec_new_record, spec_refreshed_record, CredentialStore, DBToken,
};
use crate::errors::AuthError;

verus! {

/// The one decision `ensure_valid_token` takes per invocation.
#[derive(Debug)]
pub enum TokenAction {
    /// No credentials are stored: the user must enter them first.
    PromptCredentials,
    /// No token record exists: run the full authorization flow.
    RunAuthorization,
    /// The stored record is stale: exchange this refresh token.
    RunRefresh { refresh_token: String },
    /// The stored record is still valid: use it, no network call.
    UseStored { access_token: String },
}

/// The manager owns the store image and decides which flow, if any, must
/// run before a valid token can be handed out.
#[derive(Debug)]
pub struct TokenManager {
    pub store: CredentialStore,
}

impl TokenManager {
    /// The decision taken at `now`: credentials first, then existence of
    /// a record, then its expiry.
    pub open spec fn spec_next_step(&self, now: u64) -> TokenAction {
        if self.store.spec_creds() is None {
            TokenAction::PromptCredentials
        } else if self.store.spec_token() is None {
            TokenAction::RunAuthorization
        } else {
            let t = self.store.spec_token()->Some_0;
            if spec_is_expired(t, now) {
                TokenAction::RunRefresh { refresh_token: t.refresh_token }
            } else {
                TokenAction::UseStored { access_token: t.access_token }
            }
        }
    }

    /// A manager over the given store image.
    pub fn new(store: CredentialStore) -> (m: TokenManager)
        ensures
            m.store == store,
    {
        TokenManager { store }
    }

    /// Takes the one decision for this invocation: prompt when no
    /// credentials are stored; authorize when no record exists; refresh
    /// when the record is stale; otherwise hand out the stored access
    /// token with no network call.
    pub fn next_step(&self, now: u64) -> (a: TokenAction)
        ensures
            a == self.spec_next_step(now),
    {
        match self.store.get_credentials() {
            None => TokenAction::PromptCredentials,
            Some(_) => match self.store.get_token() {
                None => TokenAction::RunAuthorization,
                Some(t) => {
                    if crate::db::is_expired(&t, now) {
                        TokenAction::RunRefresh { refresh_token: t.refresh_token }
                    } else {
                        TokenAction::UseStored { access_token: t.access_token }
                    }
                },
            },
        }
    }

    /// Stores the credentials the user entered, overwriting any previous
    /// ones; the token record is untouched.
    pub fn provide_credentials(&mut self, creds: crate::db::ClientCredentials)
        ensures
            final(self).store.spec_creds() == Some(creds),
            final(self).store.spec_token() == old(self).store.spec_token(),
    {
        self.store.set_credentials(creds);
    }

    /// Persists the outcome of a successful authorization flow, stamped
    /// at `now`, and returns the access token to use. When a record
    /// already exists nothing is touched and `StorageError` is surfaced:
    /// a fresh authorization never corrupts an existing record.
    pub fn complete_authorization(&mut self, res: SpotifyAccessToken, now: u64) -> (r: Result<
        String,
        AuthError,
    >)
        ensures
            old(self).store.spec_token() is None ==> (r matches Ok(a) && a == res.access_token)
                && final(self).store.spec_token() == Some(spec_new_record(res, now)),
            old(self).store.spec_token() is Some ==> r == Result::<String, AuthError>::Err(
                AuthError::StorageError,
            ) && *final(self) == *old(self),
            final(self).store.spec_creds() == old(self).store.spec_creds(),
    {
        let access = res.access_token.clone();
        let record = new_record(res, now);
        match self.store.create_token(record) {
            Ok(()) => Ok(access),
            Err(e) => Err(e),
        }
    }

    /// Persists the outcome of a successful refresh, all-or-nothing, and
    /// returns the new access token: the stored record becomes the merge
    /// of the old record and the response — the stored refresh token
    /// surviving unless the response carried a new one — stamped at
    /// `now`. With no record to update nothing is touched and
    /// `StorageError` is surfaced.
    pub fn complete_refresh(&mut self, res: SpotifyRefreshToken, now: u64) -> (r: Result<
        String,
        AuthError,
    >)
        ensures
            old(self).store.spec_token() is None ==> r == Result::<String, AuthError>::Err(
                AuthError::StorageError,
            ) && *final(self) == *old(self),
            old(self).store.spec_token() matches Some(t) ==> (r matches Ok(a)
                && a == res.access_token) && final(self).store.spec_token() == Some(
                spec_refreshed_record(t, res, now),
            ),
            final(self).store.spec_creds() == old(self).store.spec_creds(),
    {
        let access = res.access_token.clone();
        match self.store.update_token(res, now) {
            Ok(()) => Ok(access),
            Err(e) => Err(e),
        }
    }

    /// The stored access token when it is still valid at `now`; nothing
    /// otherwise.
    pub fn stored_access_token(&self, now: u64) -> (r: Option<String>)
        ensures
            r matches Some(a) ==> (self.store.spec_token() matches Some(t) && !spec_is_expired(
                t,
                now,
            ) && a == t.access_token),
            r is None ==> (self.store.spec_token() is None || spec_is_expired(
                self.store.spec_token()->Some_0,
                now,
            )),
    {
        match self.store.get_token() {
            None => None,
            Some(t) => {
                if crate::db::is_expired(&t, now) {
                    None
                } else {
                    Some(t.access_token)
                }
            },
        }
    }

    /// Forgets both records, as logout does.
    pub fn logout(&mut self)
        ensures
            final(self).store.spec_creds() is None,
            final(self).store.spec_token() is None,
    {
        self.store.delete_credentials();
        self.store.delete_token();
    }
}

/// Law: the manager checks for an existing record before choosing a
/// flow — while a record is stored, the full authorization flow is never
/// chosen, so an existing record is never overwritten by a fresh
/// authorization.
pub proof fn lemma_no_double_create(m: TokenManager, now: u64)
    requires
        m.store.spec_token() is Some,
    ensures
        !(m.spec_next_step(now) is RunAuthorization),
{
}

/// Law: a refresh response without a new refresh token preserves the
/// record's identity — the merged record keeps the old refresh token,
/// while access token, token type, scope, lifetime and issue moment are
/// all taken from the response.
pub proof fn lemma_refresh_preserves_identity(t: DBToken, res: SpotifyRefreshToken, now: u64)
    requires
        res.refresh_token is None,
    ensures
        spec_refreshed_record(t, res, now).refresh_token == t.refresh_token,
        spec_refreshed_record(t, res, now).access_token == res.access_token,
        spec_refreshed_record(t, res, now).token_type == res.token_type,
        spec_refreshed_record(t, res, now).scope == res.scope,
        spec_refreshed_record(t, res, now).expires_in == res.expires_in,
        spec_refreshed_record(t, res, now).time == now,
{
}

} // verus!
