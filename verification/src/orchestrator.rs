//! The process-scoped coordinator of one login flow: it owns the current
//! [`LoginInfo`] and the current challenge epoch (`gt`, `token`,
//! `challenge`), and replaces or updates them only in atomic steps.
//!
//! The transport's suspension points lie *between* these steps: the caller
//! captures the epoch with [`SessionOrchestrator::current_epoch`], performs
//! its network fetch, and hands the outcome back. A write handed back under
//! an epoch that a concurrent reset has meanwhile replaced is rejected as
//! [`Error::StaleEpoch`] and leaves the state untouched, so fields of
//! different epochs can never be mixed on one session.

use vstd::prelude::*;

use vstd::string::StringExecFns;

use crate::client::{is_form_of, Captcha, Error, LoginInfo, LoginKeys};
use crate::codec::{is_ciphertext_for, pem_has_rsa_key, rsa_encode, rsa_modulus_bytes};

verus! {

/// What the caller needs to render the human-verification widget: the `gt`
/// and `challenge` of the current epoch.
#[derive(Debug)]
pub struct GeetestRequest {
    pub gt: String,
    pub challenge: String,
}

/// The coordinator of one login flow. The epoch counter increases on every
/// reset; a write captured under an older count is refused.
pub struct SessionOrchestrator {
    session: LoginInfo,
    gt: String,
    token: String,
    challenge: String,
    epoch: u64,
}

impl SessionOrchestrator {
    /// The epoch count: how many challenge fetches have been installed.
    pub closed spec fn spec_epoch(self) -> u64 {
        self.epoch
    }

    /// The current epoch's widget identifier.
    pub closed spec fn spec_gt(self) -> Seq<char> {
        self.gt@
    }

    /// The current epoch's token.
    pub closed spec fn spec_token(self) -> Seq<char> {
        self.token@
    }

    /// The current epoch's challenge.
    pub closed spec fn spec_challenge(self) -> Seq<char> {
        self.challenge@
    }

    /// The session being filled for submission.
    pub closed spec fn spec_session(self) -> LoginInfo {
        self.session
    }

    /// Well-formed: the session's `token` and `challenge` are copies of the
    /// orchestrator's own, i.e. session and epoch pair belong together.
    /// Every operation preserves this.
    pub open spec fn wf(self) -> bool {
        &&& self.spec_session().token@ == self.spec_token()
        &&& self.spec_session().challenge@ == self.spec_challenge()
    }

    /// `s` is a session freshly derived from the challenge `c`: all fields
    /// empty but the always-submitted `keep` flag and the epoch copies.
    pub open spec fn fresh_session_for(c: Captcha, s: LoginInfo) -> bool {
        &&& s.username@ == Seq::<char>::empty()
        &&& s.password@ == Seq::<char>::empty()
        &&& s.keep@ == "0"@
        &&& s.token@ == c.token@
        &&& s.challenge@ == c.challenge@
        &&& s.validate@ == Seq::<char>::empty()
        &&& s.seccode@ == Seq::<char>::empty()
    }

    /// Bootstraps the flow from the first fetched challenge: a fresh
    /// session bound to `c`, at epoch one.
    pub fn new(c: Captcha) -> (s: SessionOrchestrator)
        ensures
            s.wf(),
            s.spec_epoch() == 1,
            s.spec_gt() == c.gt@,
            s.spec_token() == c.token@,
            s.spec_challenge() == c.challenge@,
            Self::fresh_session_for(c, s.spec_session()),
    {
        let mut session = LoginInfo::new();
        session.token(c.token.clone());
        session.challenge(c.challenge.clone());
        SessionOrchestrator { session, gt: c.gt, token: c.token, challenge: c.challenge, epoch: 1 }
    }

    /// Resets the flow onto the freshly fetched challenge `c`: the prior
    /// session and epoch pair are replaced together, in this one step, by a
    /// fresh session bound to `c` and the next epoch count. Nothing of a
    /// prior epoch survives on the new session.
    pub fn install_challenge(&mut self, c: Captcha)
        requires
            old(self).spec_epoch() < u64::MAX,
        ensures
            final(self).wf(),
            final(self).spec_epoch() == old(self).spec_epoch() + 1,
            final(self).spec_gt() == c.gt@,
            final(self).spec_token() == c.token@,
            final(self).spec_challenge() == c.challenge@,
            Self::fresh_session_for(c, final(self).spec_session()),
    {
        let mut session = LoginInfo::new();
        session.token(c.token.clone());
        session.challenge(c.challenge.clone());
        self.session = session;
        self.gt = c.gt;
        self.token = c.token;
        self.challenge = c.challenge;
        self.epoch = self.epoch + 1;
    }

    /// The epoch count to capture before a suspension point, to be handed
    /// back with the write that follows it.
    pub fn current_epoch(&self) -> (e: u64)
        ensures
            e == self.spec_epoch(),
    {
        self.epoch
    }

    /// Applies the credentials of one login attempt: encrypts
    /// `hash + password` under the fetched key material and stores username
    /// and ciphertext on the session in one atomic step, returning the
    /// current epoch's widget parameters.
    ///
    /// `expected_epoch` must be the count captured before the key material
    /// was fetched. If a reset intervened, nothing is written and the
    /// result is [`Error::StaleEpoch`]; the returned `gt`/`challenge` can
    /// therefore only ever be the pair of the epoch the caller is still on
    /// — never a prior epoch's. Encryption failure leaves the state
    /// untouched and is [`Error::CryptoFailure`].
    pub fn begin_login(
        &mut self,
        expected_epoch: u64,
        username: String,
        keys: &LoginKeys,
        password: &str,
    ) -> (r: Result<GeetestRequest, Error>)
        requires
            old(self).wf(),
        ensures
            final(self).wf(),
            expected_epoch != old(self).spec_epoch() ==> (r matches Err(e) && e
                == Error::StaleEpoch) && *final(self) == *old(self),
            expected_epoch == old(self).spec_epoch() ==> {
                &&& r is Ok <==> pem_has_rsa_key(keys.key@) && vstd::utf8::encode_utf8(
                    keys.hash@ + password@,
                ).len() + 11 <= rsa_modulus_bytes(keys.key@)
                &&& (r matches Err(e) ==> e == Error::CryptoFailure && *final(self) == *old(self))
                &&& (r matches Ok(g) ==> {
                    &&& g.gt@ == old(self).spec_gt()
                    &&& g.challenge@ == old(self).spec_challenge()
                    &&& final(self).spec_epoch() == old(self).spec_epoch()
                    &&& final(self).spec_gt() == old(self).spec_gt()
                    &&& final(self).spec_token() == old(self).spec_token()
                    &&& final(self).spec_challenge() == old(self).spec_challenge()
                    &&& final(self).spec_session().username == username
                    &&& is_ciphertext_for(final(self).spec_session().password@, keys.key@)
                    &&& final(self).spec_session().keep == old(self).spec_session().keep
                    &&& final(self).spec_session().token == old(self).spec_session().token
                    &&& final(self).spec_session().challenge == old(self).spec_session().challenge
                    &&& final(self).spec_session().validate == old(self).spec_session().validate
                    &&& final(self).spec_session().seccode == old(self).spec_session().seccode
                })
            },
    {
        if expected_epoch != self.epoch {
            return Err(Error::StaleEpoch);
        }
        let salted = keys.hash.clone().concat(password);
        match rsa_encode(keys.key.as_str(), salted.as_str()) {
            Ok(cipher) => {
                self.session.username(username);
                self.session.password(cipher);
                Ok(
                    GeetestRequest {
                        gt: self.gt.clone(),
                        challenge: self.session.challenge.clone(),
                    },
                )
            },
            Err(e) => Err(e),
        }
    }

    /// Stores the verification proof obtained out of band on the session,
    /// both parts in one atomic step; everything else keeps its value.
    pub fn apply_verification(&mut self, validate: String, seccode: String)
        requires
            old(self).wf(),
        ensures
            final(self).wf(),
            final(self).spec_epoch() == old(self).spec_epoch(),
            final(self).spec_gt() == old(self).spec_gt(),
            final(self).spec_token() == old(self).spec_token(),
            final(self).spec_challenge() == old(self).spec_challenge(),
            final(self).spec_session() == (LoginInfo {
                validate,
                seccode,
                ..old(self).spec_session()
            }),
    {
        self.session.validate(validate);
        self.session.seccode(seccode);
    }

    /// Whether the current session is complete enough to submit: see
    /// [`LoginInfo::ready_to_submit`].
    pub fn ready_to_submit(&self) -> (r: bool)
        ensures
            r == (self.spec_session().spec_credentials_set()
                && self.spec_session().spec_verification_set()),
    {
        self.session.ready_to_submit()
    }

    /// The submission form of the current session, for the caller to POST
    /// to the login endpoint.
    pub fn submission_form(&self) -> (r: Vec<(String, String)>)
        ensures
            is_form_of(r@, self.spec_session()),
    {
        self.session.to_vec()
    }
}

} // verus!

