//! The application configuration: at most one remote server, with its
//! credentials kept only in obfuscated form.
use vstd::prelude::*;
use crate::cipher::{decrypt_str, encrypt_str, obfuscated, revealable, revealed};
use crate::error::SyncError;

verus! {

/// Connection settings of the remote WebDAV server, as stored.
/// `username` and `password` hold the obfuscated text, never the plain one.
#[derive(Clone, Debug, PartialEq, Eq)]
pub struct RemoteConfig {
    pub server: String,
    pub username: String,
    pub password: String,
}

/// The whole configuration document. `webdav` is `None` while synchronisation
/// is not configured.
#[derive(Clone, Debug, PartialEq, Eq)]
pub struct AppConfig {
    pub webdav: Option<RemoteConfig>,
}

/// Remote settings with the credentials revealed, held only for one request.
#[derive(Clone, Debug, PartialEq, Eq)]
pub struct Credentials {
    pub server: String,
    pub username: String,
    pub password: String,
}

impl Default for AppConfig {
    fn default() -> (r: AppConfig)
        ensures
            r.webdav is None,
    {
        AppConfig { webdav: None }
    }
}

impl AppConfig {
    /// The configuration of a first run: nothing configured.
    pub fn new() -> (r: AppConfig)
        ensures
            r.webdav is None,
    {
        AppConfig { webdav: None }
    }

    /// The configuration read from the file, or the first-run configuration
    /// when the file was absent, unreadable or not a configuration document.
    pub fn loaded_or_default(parsed: Option<AppConfig>) -> (r: AppConfig)
        ensures
            parsed is Some ==> r == parsed->0,
            parsed is None ==> r.webdav is None,
    {
        match parsed {
            Some(cfg) => cfg,
            None => AppConfig::new(),
        }
    }

    /// Replaces the remote settings as a whole; the credentials are stored
    /// obfuscated with `key`.
    pub fn set_remote(&mut self, key: &[u8], server: String, username: &str, password: &str)
        requires
            key@.len() > 0,
        ensures
            final(self).webdav is Some,
            final(self).webdav->0.server == server,
            final(self).webdav->0.username@ == obfuscated(key@, username@),
            final(self).webdav->0.password@ == obfuscated(key@, password@),
    {
        let username = encrypt_str(key, username);
        let password = encrypt_str(key, password);
        self.webdav = Some(RemoteConfig { server, username, password });
    }

    /// Removes the remote settings. Without any, the configuration is unchanged.
    pub fn clear_remote(&mut self)
        ensures
            final(self).webdav is None,
            old(self).webdav is None ==> *final(self) == *old(self),
    {
        self.webdav = None;
    }

    /// The server and the revealed user name, for display; the password is
    /// never handed out. `None` while nothing is configured.
    pub fn remote_summary(&self, key: &[u8]) -> (r: Result<Option<(String, String)>, SyncError>)
        requires
            key@.len() > 0,
        ensures
            self.webdav is None ==> r == Ok::<Option<(String, String)>, SyncError>(None),
            self.webdav is Some ==> {
                let wc = self.webdav->0;
                &&& (r is Ok <==> revealable(key@, wc.username@))
                &&& r is Err ==> r == Err::<Option<(String, String)>, SyncError>(SyncError::Decode)
                &&& r is Ok ==> r->Ok_0 is Some
                &&& forall|plain: Seq<char>|
                    wc.username@ == #[trigger] obfuscated(key@, plain) ==> (r matches Ok(Some(pair))
                        && pair.1@ == plain)
                &&& r matches Ok(Some(pair)) ==> {
                    &&& pair.0@ == wc.server@
                    &&& wc.username@ == obfuscated(key@, pair.1@)
                    &&& pair.1@ == revealed(key@, wc.username@)
                }
            },
    {
        match &self.webdav {
            None => Ok(None),
            Some(wc) => match decrypt_str(key, wc.username.as_str()) {
                Some(username) => Ok(Some((wc.server.clone(), username))),
                None => Err(SyncError::Decode),
            },
        }
    }

    /// The remote settings with both credentials revealed, for one request.
    pub fn credentials(&self, key: &[u8]) -> (r: Result<Credentials, SyncError>)
        requires
            key@.len() > 0,
        ensures
            self.webdav is None ==> r == Err::<Credentials, SyncError>(SyncError::NotConfigured),
            self.webdav is Some ==> {
                let wc = self.webdav->0;
                &&& (r is Ok <==> revealable(key@, wc.username@) && revealable(key@, wc.password@))
                &&& r is Err ==> r == Err::<Credentials, SyncError>(SyncError::Decode)
                &&& forall|u: Seq<char>, p: Seq<char>|
                    wc.username@ == #[trigger] obfuscated(key@, u) && wc.password@ == #[trigger] obfuscated(
                        key@,
                        p,
                    ) ==> (r is Ok && r->Ok_0.username@ == u && r->Ok_0.password@ == p)
                &&& r is Ok ==> {
                    &&& r->Ok_0.server@ == wc.server@
                    &&& wc.username@ == obfuscated(key@, r->Ok_0.username@)
                    &&& wc.password@ == obfuscated(key@, r->Ok_0.password@)
                    &&& r->Ok_0.username@ == revealed(key@, wc.username@)
                    &&& r->Ok_0.password@ == revealed(key@, wc.password@)
                }
            },
    {
        match &self.webdav {
            None => Err(SyncError::NotConfigured),
            Some(wc) => {
                let username = match decrypt_str(key, wc.username.as_str()) {
                    Some(u) => u,
                    None => return Err(SyncError::Decode),
                };
                match decrypt_str(key, wc.password.as_str()) {
                    Some(password) => Ok(Credentials { server: wc.server.clone(), username, password }),
                    None => Err(SyncError::Decode),
                }
            },
        }
    }
}

} // verus!
