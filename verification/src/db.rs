//! Persisted records and the credential store.
//!
//! At most one `ClientCredentials` record and one `DBToken` record exist
//! per installation, each under a fixed singleton key. `CredentialStore`
//! is the in-memory image of that store with the exact create / select /
//! update / delete semantics the rest of the crate relies on; the binary
//! mirrors every mutation onto its persistent backend.

use vstd::prelude::*;

use crate::auth::{SpotifyAccessToken, SpotifyRefreshToken};
use crate::errors::AuthError;

verus! {

/// The client id and secret the user entered once at setup, reused for
/// every token exchange until logout deletes them.
#[derive(Debug, Clone)]
pub struct ClientCredentials {
    pub client_id: String,
    pub secret: String,
}

impl ClientCredentials {
    /// An exact copy, field by field.
    pub fn duplicate(&self) -> (r: ClientCredentials)
        ensures
            r == *self,
    {
        ClientCredentials { client_id: self.client_id.clone(), secret: self.secret.clone() }
    }
}

/// The stored token record: the tokens and their metadata as the
/// authorization server issued them, plus `time`, the moment (seconds
/// since the epoch) the record was issued or last refreshed.
#[derive(Debug, Clone)]
pub struct DBToken {
    pub access_token: String,
    pub refresh_token: String,
    pub token_type: String,
    pub scope: String,
    pub expires_in: i64,
    pub time: u64,
}

impl DBToken {
    /// An exact copy, field by field.
    pub fn duplicate(&self) -> (r: DBToken)
        ensures
            r == *self,
    {
        DBToken {
            access_token: self.access_token.clone(),
            refresh_token: self.refresh_token.clone(),
            token_type: self.token_type.clone(),
            scope: self.scope.clone(),
            expires_in: self.expires_in,
            time: self.time,
        }
    }
}

/// A record is stale once the current moment has reached the moment it
/// was issued plus its lifetime, boundary included.
pub open spec fn spec_is_expired(t: DBToken, now: u64) -> bool {
    now as int >= t.time as int + t.expires_in as int
}

/// Decides staleness: true exactly when `now >= t.time + t.expires_in`,
/// for every record, however extreme its fields.
pub fn is_expired(t: &DBToken, now: u64) -> (r: bool)
    ensures
        r == spec_is_expired(*t, now),
{
    if t.expires_in >= 0 {
        let lifetime = t.expires_in as u64;
        if now >= t.time {
            now - t.time >= lifetime
        } else {
            false
        }
    } else {
        // A negative lifetime moves the expiry before the issue moment.
        if now >= t.time {
            true
        } else {
            let back: u64 = if t.expires_in == i64::MIN {
                9223372036854775808u64
            } else {
                (-t.expires_in) as u64
            };
            t.time - now <= back
        }
    }
}

/// The record persisted after a first successful authorization: the
/// response's fields, stamped with the moment `now` it was issued.
pub open spec fn spec_new_record(res: SpotifyAccessToken, now: u64) -> DBToken {
    DBToken {
        access_token: res.access_token,
        refresh_token: res.refresh_token,
        token_type: res.token_type,
        scope: res.scope,
        expires_in: res.expires_in,
        time: now,
    }
}

/// Builds the record to persist from an authorization-code exchange
/// response, stamping its issue moment.
pub fn new_record(res: SpotifyAccessToken, now: u64) -> (t: DBToken)
    ensures
        t == spec_new_record(res, now),
{
    DBToken {
        access_token: res.access_token,
        refresh_token: res.refresh_token,
        token_type: res.token_type,
        scope: res.scope,
        expires_in: res.expires_in,
        time: now,
    }
}

/// The record persisted after a successful refresh: access token, token
/// type, scope, lifetime and issue moment all come from the response,
/// while the refresh token is overwritten only when the response carries
/// a new one.
pub open spec fn spec_refreshed_record(old_t: DBToken, res: SpotifyRefreshToken, now: u64) -> DBToken {
    DBToken {
        access_token: res.access_token,
        refresh_token: match res.refresh_token {
            Some(rt) => rt,
            None => old_t.refresh_token,
        },
        token_type: res.token_type,
        scope: res.scope,
        expires_in: res.expires_in,
        time: now,
    }
}

/// Merges a refresh response into the stored record, preserving the
/// stored refresh token when the server omitted a new one.
pub fn refreshed_record(old_t: &DBToken, res: SpotifyRefreshToken, now: u64) -> (t: DBToken)
    ensures
        t == spec_refreshed_record(*old_t, res, now),
{
    let refresh_token = match res.refresh_token {
        Some(rt) => rt,
        None => old_t.refresh_token.clone(),
    };
    DBToken {
        access_token: res.access_token,
        refresh_token,
        token_type: res.token_type,
        scope: res.scope,
        expires_in: res.expires_in,
        time: now,
    }
}

/// Projects a stored record back onto the response shape the rest of the
/// client consumes, exactly as the store's select reads it.
pub fn record_to_access_token(t: &DBToken) -> (r: SpotifyAccessToken)
    ensures
        r.access_token == t.access_token,
        r.refresh_token == t.refresh_token,
        r.token_type == t.token_type,
        r.scope == t.scope,
        r.expires_in == t.expires_in,
    {
    SpotifyAccessToken {
        access_token: t.access_token.clone(),
        refresh_token: t.refresh_token.clone(),
        token_type: t.token_type.clone(),
        scope: t.scope.clone(),
        expires_in: t.expires_in,
    }
}

/// The in-memory image of the persistent store: at most one credentials
/// record and one token record, each under its fixed key.
#[derive(Debug)]
pub struct CredentialStore {
    creds: Option<ClientCredentials>,
    token: Option<DBToken>,
}

impl CredentialStore {
    /// What the store holds as credentials.
    pub closed spec fn spec_creds(&self) -> Option<ClientCredentials> {
        self.creds
    }

    /// What the store holds as the token record.
    pub closed spec fn spec_token(&self) -> Option<DBToken> {
        self.token
    }

    /// A store holding nothing, as on a fresh installation.
    pub fn new() -> (s: CredentialStore)
        ensures
            s.spec_creds() is None,
            s.spec_token() is None,
    {
        CredentialStore { creds: None, token: None }
    }

    /// A store already holding the given records, as read back from the
    /// persistent backend at startup.
    pub fn with_records(creds: Option<ClientCredentials>, token: Option<DBToken>) -> (s:
        CredentialStore)
        ensures
            s.spec_creds() == creds,
            s.spec_token() == token,
    {
        CredentialStore { creds, token }
    }

    /// Reads the credentials record, if one exists.
    pub fn get_credentials(&self) -> (r: Option<ClientCredentials>)
        ensures
            r == self.spec_creds(),
    {
        match &self.creds {
            Some(c) => Some(c.duplicate()),
            None => None,
        }
    }

    /// Writes the credentials record, overwriting any existing one
    /// (delete-then-create semantics, never a partial update). The token
    /// record is untouched.
    pub fn set_credentials(&mut self, creds: ClientCredentials)
        ensures
            final(self).spec_creds() == Some(creds),
            final(self).spec_token() == old(self).spec_token(),
    {
        self.creds = Some(creds);
    }

    /// Deletes the credentials record, as logout does. The token record
    /// is untouched.
    pub fn delete_credentials(&mut self)
        ensures
            final(self).spec_creds() is None,
            final(self).spec_token() == old(self).spec_token(),
    {
        self.creds = None;
    }

    /// Reads the token record, if one exists.
    pub fn get_token(&self) -> (r: Option<DBToken>)
        ensures
            r == self.spec_token(),
    {
        match &self.token {
            Some(t) => Some(t.duplicate()),
            None => None,
        }
    }

    /// Creates the token record. Fails with `StorageError` — leaving the
    /// store exactly as it was — when a record already exists: callers
    /// must check `get_token` first.
    pub fn create_token(&mut self, t: DBToken) -> (r: Result<(), AuthError>)
        ensures
            old(self).spec_token() is None ==> r is Ok && final(self).spec_token() == Some(t),
            old(self).spec_token() is Some ==> r == Result::<(), AuthError>::Err(
                AuthError::StorageError,
            ) && *final(self) == *old(self),
            final(self).spec_creds() == old(self).spec_creds(),
    {
        match &self.token {
            Some(_) => Err(AuthError::StorageError),
            None => {
                self.token = Some(t);
                Ok(())
            },
        }
    }

    /// Updates the token record from a refresh response, all-or-nothing:
    /// with no existing record it fails with `StorageError` and changes
    /// nothing; otherwise the stored record becomes the merge of the old
    /// record and the response, the stored refresh token surviving unless
    /// the response carried a new one.
    pub fn update_token(&mut self, res: SpotifyRefreshToken, now: u64) -> (r: Result<
        (),
        AuthError,
    >)
        ensures
            old(self).spec_token() is None ==> r == Result::<(), AuthError>::Err(
                AuthError::StorageError,
            ) && *final(self) == *old(self),
            old(self).spec_token() matches Some(t) ==> r is Ok && final(self).spec_token()
                == Some(spec_refreshed_record(t, res, now)),
            final(self).spec_creds() == old(self).spec_creds(),
    {
        match &self.token {
            None => Err(AuthError::StorageError),
            Some(old_t) => {
                let merged = refreshed_record(old_t, res, now);
                self.token = Some(merged);
                Ok(())
            },
        }
    }

    /// Deletes the token record, as logout does. The credentials record
    /// is untouched.
    pub fn delete_token(&mut self)
        ensures
            final(self).spec_token() is None,
            final(self).spec_creds() == old(self).spec_creds(),
    {
        self.token = None;
    }
}

} // verus!
