//! The authenticated store session: one login and one database selection
//! per run, after which the session is reused for every request.

use vstd::prelude::*;
use vstd::string::StringExecFns;

use crate::errors::TransportError;
use crate::wire::login_json;
use crate::wire::login_request_body;

verus! {

/// Where a session stands in its lifecycle. `Failed` is terminal: the
/// adapter cannot function without an authenticated session.
#[derive(Debug, Clone, Copy, PartialEq, Eq, Structural)]
pub enum SessionPhase {
    Created,
    Authenticated,
    Failed,
}

/// One store session: the configured store address, the logical database
/// every later operation is scoped to, and the lifecycle phase. The HTTP
/// client and whatever token the store issues live outside the library and
/// are keyed to this handle; the handle is the single owner of the phase.
#[derive(Debug)]
pub struct Session {
    pub base_url: String,
    pub db_name: String,
    pub phase: SessionPhase,
}

impl Session {
    pub fn new(base_url: String, db_name: String) -> (r: Session)
        ensures
            r.base_url@ == base_url@,
            r.db_name@ == db_name@,
            r.phase is Created,
    {
        Session { base_url, db_name, phase: SessionPhase::Created }
    }

    /// The fully-qualified request target for a relative path. No other
    /// component constructs URLs.
    pub fn endpoint(&self, path: &str) -> (r: String)
        ensures
            r@ == self.base_url@ + path@,
    {
        let mut url = String::from_str(self.base_url.as_str());
        url.append(path);
        url
    }

    /// The login request: its target and its body, credentials text-safe
    /// encoded, never sent as raw bytes.
    pub fn login_request(&self, user: &[u8], password: &[u8]) -> (r: (String, String))
        ensures
            r.0@ == self.base_url@ + "/login"@,
            r.1@ == login_json(user@, password@),
    {
        (self.endpoint("/login"), login_request_body(user, password))
    }

    /// The request target that scopes the session to its database.
    pub fn select_db_url(&self) -> (r: String)
        ensures
            r@ == self.base_url@ + "/db/use/"@ + self.db_name@,
    {
        let mut url = self.endpoint("/db/use/");
        url.append(self.db_name.as_str());
        url
    }

    /// Records the outcome of the two authentication steps. The session is
    /// authenticated only if both the login and the database selection
    /// reported success; any other outcome is a terminal `Auth` failure.
    pub fn complete_login(&mut self, login_ok: bool, select_ok: bool) -> (r: Result<
        (),
        TransportError,
    >)
        requires
            old(self).phase is Created,
        ensures
            final(self).base_url@ == old(self).base_url@,
            final(self).db_name@ == old(self).db_name@,
            login_ok && select_ok ==> final(self).phase is Authenticated && r is Ok,
            !(login_ok && select_ok) ==> final(self).phase is Failed && (r matches Err(
                TransportError::Auth,
            )),
    {
        if login_ok && select_ok {
            self.phase = SessionPhase::Authenticated;
            Ok(())
        } else {
            self.phase = SessionPhase::Failed;
            Err(TransportError::Auth)
        }
    }
}

} // verus!
