//! Registration, passcode verification, resend, login and `/me` over the
//! credential store.
//!
//! Enumeration policy: login answers `Unauthorized` for an unknown email, as
//! for a wrong password, so it never reveals which accounts exist; the
//! verification steps answer `NotFound`, since they act on an account the
//! client has just registered.
//!
//! Delivery of a passcode is the caller's: when it fails, the account stays
//! registered and unverified, and a resend issues a new passcode.

use vstd::prelude::*;

use crate::error::AuthError;
use crate::otp::{generate_otp, is_code, OTP_LIFETIME_SECS};
use crate::password::{check_password, hash_password, password_check};
use crate::store::{
    challenges_of, email_taken, latest_match, lemma_no_match_without_user,
    lemma_user_index_unique, lemma_without_user_from, store_wf, user_index, valid_timestamp,
    verified_user, without_user, CredentialStore, EmailVerification, User,
};
use crate::token::{
    authenticate, bearer_token, create_jwt, issued_token, token_claims, token_verdict, TOKEN_LIFETIME_SECS,
};

verus! {

/// What the mail collaborator needs to deliver a passcode.
pub struct VerificationMail {
    pub to_email: String,
    pub to_name: String,
    pub code: String,
}

/// The public view of an account.
pub struct UserResponse {
    pub id: i32,
    pub email: String,
    pub name: String,
    pub email_verified: bool,
}

/// A successful login: a bearer token and the account it names.
pub struct AuthResponse {
    pub token: String,
    pub user: UserResponse,
}

/// The response describes the account.
pub open spec fn describes(r: UserResponse, u: User) -> bool {
    r.id == u.id && r.email@ == u.email@ && r.name@ == u.name@ && r.email_verified == u.email_verified
}

/// The result of submitting a passcode: the position of the account that
/// becomes verified, or the error.
pub open spec fn verify_outcome(
    users: Seq<User>,
    vs: Seq<EmailVerification>,
    email: Seq<char>,
    code: Seq<char>,
    now: i64,
) -> Result<int, AuthError> {
    if !email_taken(users, email) {
        Err(AuthError::NotFound)
    } else {
        let i = user_index(users, email);
        if users[i].email_verified {
            Err(AuthError::InvalidState)
        } else {
            match latest_match(vs, users[i].id, code) {
                None => Err(AuthError::Unauthorized),
                Some(k) => if now < vs[k].expires_at {
                    Ok(i)
                } else {
                    Err(AuthError::Expired)
                },
            }
        }
    }
}

/// The account a passcode may be resent to, or the error.
pub open spec fn resend_outcome(users: Seq<User>, email: Seq<char>) -> Result<int, AuthError> {
    if !email_taken(users, email) {
        Err(AuthError::NotFound)
    } else if users[user_index(users, email)].email_verified {
        Err(AuthError::InvalidState)
    } else {
        Ok(user_index(users, email))
    }
}

/// The challenge a registration or a resend stores.
pub open spec fn issued_challenge(id: i32, user_id: i32, code: String, now: i64) -> EmailVerification {
    EmailVerification { id, user_id, code, expires_at: (now + OTP_LIFETIME_SECS) as i64, created_at: now }
}

/// Registration, passcode verification, login and token checks over a
/// credential store, with the token secret and the password hashing cost
/// given at construction.
pub struct AuthService {
    store: CredentialStore,
    secret: String,
    hash_cost: u32,
}

impl AuthService {
    pub closed spec fn store(&self) -> CredentialStore {
        self.store
    }

    pub closed spec fn secret(&self) -> Seq<char> {
        self.secret@
    }

    pub closed spec fn hash_cost(&self) -> u32 {
        self.hash_cost
    }

    pub open spec fn wf(&self) -> bool {
        self.store().wf()
    }

    /// The configuration is the same in both.
    pub open spec fn same_config(&self, other: &Self) -> bool {
        self.secret() == other.secret() && self.hash_cost() == other.hash_cost()
    }

    /// A service with no accounts.
    pub fn new(secret: String, hash_cost: u32) -> (r: Self)
        ensures
            r.wf(),
            r.store().users().len() == 0,
            r.store().verifications().len() == 0,
            r.store().next_verification_id() == 1,
            r.secret() == secret@,
            r.hash_cost() == hash_cost,
    {
        AuthService { store: CredentialStore::new(), secret, hash_cost }
    }

    /// The credential store.
    pub fn credentials(&self) -> (r: &CredentialStore)
        ensures
            *r == self.store(),
    {
        &self.store
    }

    /// Registers an account whose password is already hashed, with the
    /// passcode to send; fails with `Conflict` when the email is taken and with
    /// `Internal` when the store has no identifier left.
    pub fn register_with_code(&mut self, email: String, password_hash: String, name: String, code: String, now: i64) -> (r: Result<VerificationMail, AuthError>)
        requires
            old(self).wf(),
            valid_timestamp(now),
        ensures
            final(self).wf(),
            final(self).same_config(old(self)),
            email_taken(old(self).store().users(), email@) ==> r == Err::<VerificationMail, AuthError>(AuthError::Conflict),
            r == Err::<VerificationMail, AuthError>(AuthError::Conflict) ==> email_taken(old(self).store().users(), email@),
            !email_taken(old(self).store().users(), email@) && old(self).store().users().len() + 1 < i32::MAX
                && old(self).store().next_verification_id() < i32::MAX ==> r is Ok,
            r matches Err(e) ==> (e == AuthError::Conflict || e == AuthError::Internal) && final(self).store() == old(self).store(),
            r matches Ok(m) ==> {
                let id = (old(self).store().users().len() + 1) as i32;
                &&& final(self).store().users() == old(self).store().users().push(
                    User { id, email, password_hash, name, email_verified: false, created_at: now },
                )
                &&& final(self).store().verifications() == old(self).store().verifications().push(
                    issued_challenge(old(self).store().next_verification_id(), id, code, now),
                )
                &&& final(self).store().next_verification_id() == old(self).store().next_verification_id() + 1
                &&& m.to_email@ == email@ && m.to_name@ == name@ && m.code@ == code@
                &&& !final(self).store().users()[id - 1].email_verified
                &&& challenges_of(final(self).store().verifications(), id).len() == 1
                &&& now < challenges_of(final(self).store().verifications(), id)[0].expires_at
            },
    {
        if !self.store.can_issue_challenge() {
            if self.store.find_account_by_email(email.as_str()).is_some() {
                return Err(AuthError::Conflict);
            }
            return Err(AuthError::Internal);
        }
        let to_email = email.clone();
        let to_name = name.clone();
        let to_code = code.clone();
        let ghost before = self.store;
        let id = match self.store.create_account(email, password_hash, name, now) {
            Ok(id) => id,
            Err(e) => return Err(e),
        };
        let r = self.store.create_challenge(id, code, now + OTP_LIFETIME_SECS, now);
        assert(r is Ok);
        proof {
            let vs = before.verifications();
            let fresh = issued_challenge(before.next_verification_id(), id, code, now);
            assert forall|k: int| 0 <= k < vs.len() implies (#[trigger] vs[k]).user_id != id by {
            }
            lemma_no_match_without_user(vs, id, code@);
            assert(self.store.verifications().drop_last() =~= vs);
            assert(self.store.verifications().last() == fresh);
            assert(challenges_of(self.store.verifications(), id) == challenges_of(vs, id).push(fresh));
        }
        Ok(VerificationMail { to_email, to_name, code: to_code })
    }

    /// Registers an account: the password is hashed under a fresh salt and a
    /// fresh passcode is stored, valid for fifteen minutes, and returned for
    /// delivery. Fails with `Conflict` when the email is taken, and with
    /// `Internal` when hashing fails or the store has no identifier left; a
    /// failure changes nothing.
    pub fn register(&mut self, email: String, password: &str, name: String, now: i64) -> (r: Result<VerificationMail, AuthError>)
        requires
            old(self).wf(),
            valid_timestamp(now),
        ensures
            final(self).wf(),
            final(self).same_config(old(self)),
            email_taken(old(self).store().users(), email@) ==> r == Err::<VerificationMail, AuthError>(AuthError::Conflict),
            r == Err::<VerificationMail, AuthError>(AuthError::Conflict) ==> email_taken(old(self).store().users(), email@),
            r matches Err(e) ==> (e == AuthError::Conflict || e == AuthError::Internal) && final(self).store() == old(self).store(),
            r matches Ok(m) ==> {
                let users = final(self).store().users();
                let vs = final(self).store().verifications();
                let id = (old(self).store().users().len() + 1) as i32;
                &&& users.len() == old(self).store().users().len() + 1
                &&& users.drop_last() == old(self).store().users()
                &&& users.last().id == id && users.last().email@ == email@ && users.last().name@ == name@
                &&& !users.last().email_verified && users.last().created_at == now
                &&& password_check(password@, users.last().password_hash@) == Some(true)
                &&& vs == old(self).store().verifications().push(vs.last())
                &&& final(self).store().next_verification_id() == old(self).store().next_verification_id() + 1
                &&& vs.last().id == old(self).store().next_verification_id() && vs.last().user_id == id
                &&& vs.last().code@ == m.code@ && vs.last().expires_at == now + OTP_LIFETIME_SECS
                &&& vs.last().created_at == now
                &&& m.to_email@ == email@ && m.to_name@ == name@ && is_code(m.code@)
                &&& challenges_of(vs, id).len() == 1 && now < challenges_of(vs, id)[0].expires_at
            },
    {
        if self.store.find_account_by_email(email.as_str()).is_some() {
            return Err(AuthError::Conflict);
        }
        let password_hash = match hash_password(password, self.hash_cost) {
            Some(h) => h,
            None => return Err(AuthError::Internal),
        };
        let code = generate_otp();
        let r = self.register_with_code(email, password_hash, name, code, now);
        proof {
            if r is Ok {
                assert(self.store().users().drop_last() =~= old(self).store().users());
                assert(self.store().verifications().drop_last() =~= old(self).store().verifications());
            }
        }
        r
    }

    /// Submits a passcode: the account's most recent challenge with exactly
    /// this code must not have expired; the account then becomes verified and
    /// all of its challenges are removed. A failure changes nothing.
    pub fn verify_email(&mut self, email: &str, code: &str, now: i64) -> (r: Result<(), AuthError>)
        requires
            old(self).wf(),
        ensures
            final(self).wf(),
            final(self).same_config(old(self)),
            final(self).store().next_verification_id() == old(self).store().next_verification_id(),
            match verify_outcome(old(self).store().users(), old(self).store().verifications(), email@, code@, now) {
                Ok(i) => r is Ok && final(self).store().users() == old(self).store().users().update(
                    i,
                    verified_user(old(self).store().users()[i]),
                ) && final(self).store().verifications() == without_user(
                    old(self).store().verifications(),
                    old(self).store().users()[i].id,
                ),
                Err(e) => r == Err::<(), AuthError>(e) && final(self).store() == old(self).store(),
            },
    {
        let i = match self.store.find_account_by_email(email) {
            Some(i) => i,
            None => return Err(AuthError::NotFound),
        };
        let user = self.store.user_at(i);
        if user.email_verified {
            return Err(AuthError::InvalidState);
        }
        let user_id = user.id;
        let k = match self.store.find_latest_matching_challenge(user_id, code) {
            Some(k) => k,
            None => return Err(AuthError::Unauthorized),
        };
        if now >= self.store.verification_at(k).expires_at {
            return Err(AuthError::Expired);
        }
        self.store.set_verified(i);
        self.store.delete_all_challenges(user_id);
        Ok(())
    }

    /// Replaces the account's passcodes with a given new one, valid for
    /// fifteen minutes. Fails with `NotFound` for an unknown email, with
    /// `InvalidState` for a verified account and with `Internal` when the store
    /// has no identifier left; a failure changes nothing.
    pub fn resend_otp_with_code(&mut self, email: &str, code: String, now: i64) -> (r: Result<VerificationMail, AuthError>)
        requires
            old(self).wf(),
            valid_timestamp(now),
        ensures
            final(self).wf(),
            final(self).same_config(old(self)),
            r is Err ==> final(self).store() == old(self).store(),
            match resend_outcome(old(self).store().users(), email@) {
                Err(e) => r == Err::<VerificationMail, AuthError>(e),
                Ok(i) => if old(self).store().next_verification_id() < i32::MAX {
                    r matches Ok(m) && final(self).store().users() == old(self).store().users()
                        && final(self).store().next_verification_id() == old(self).store().next_verification_id() + 1
                        && final(self).store().verifications() == without_user(
                        old(self).store().verifications(),
                        old(self).store().users()[i].id,
                    ).push(issued_challenge(old(self).store().next_verification_id(), old(self).store().users()[i].id, code, now))
                        && m.to_email@ == email@ && m.to_name@ == old(self).store().users()[i].name@
                        && m.code@ == code@
                } else {
                    r == Err::<VerificationMail, AuthError>(AuthError::Internal)
                },
            },
    {
        let i = match self.store.find_account_by_email(email) {
            Some(i) => i,
            None => return Err(AuthError::NotFound),
        };
        let user = self.store.user_at(i);
        if user.email_verified {
            return Err(AuthError::InvalidState);
        }
        if !self.store.can_issue_challenge() {
            return Err(AuthError::Internal);
        }
        let user_id = user.id;
        let to_email = user.email.clone();
        let to_name = user.name.clone();
        let to_code = code.clone();
        self.store.delete_all_challenges(user_id);
        let r = self.store.create_challenge(user_id, code, now + OTP_LIFETIME_SECS, now);
        assert(r is Ok);
        Ok(VerificationMail { to_email, to_name, code: to_code })
    }

    /// Replaces the account's passcodes with a fresh one; see
    /// `resend_otp_with_code`.
    pub fn resend_otp(&mut self, email: &str, now: i64) -> (r: Result<VerificationMail, AuthError>)
        requires
            old(self).wf(),
            valid_timestamp(now),
        ensures
            final(self).wf(),
            final(self).same_config(old(self)),
            r is Err ==> final(self).store() == old(self).store(),
            match resend_outcome(old(self).store().users(), email@) {
                Err(e) => r == Err::<VerificationMail, AuthError>(e),
                Ok(i) => if old(self).store().next_verification_id() < i32::MAX {
                    r matches Ok(m) && is_code(m.code@) && final(self).store().users() == old(self).store().users()
                        && final(self).store().next_verification_id() == old(self).store().next_verification_id() + 1
                        && final(self).store().verifications() == without_user(
                        old(self).store().verifications(),
                        old(self).store().users()[i].id,
                    ).push(
                        issued_challenge(
                            old(self).store().next_verification_id(),
                            old(self).store().users()[i].id,
                            final(self).store().verifications().last().code,
                            now,
                        ),
                    ) && final(self).store().verifications().last().code@ == m.code@ && m.to_email@ == email@
                        && m.to_name@ == old(self).store().users()[i].name@
                } else {
                    r == Err::<VerificationMail, AuthError>(AuthError::Internal)
                },
            },
    {
        let code = generate_otp();
        let r = self.resend_otp_with_code(email, code, now);
        r
    }

    fn user_response(u: &User) -> (r: UserResponse)
        ensures
            describes(r, *u),
    {
        UserResponse { id: u.id, email: u.email.clone(), name: u.name.clone(), email_verified: u.email_verified }
    }

    /// Logs in: an unknown email or a wrong password is `Unauthorized`, an
    /// unverified account is `Forbidden` whatever the password, and a
    /// verified account with the right password receives a token valid for
    /// thirty days. `Internal` comes only from a stored hash that does not
    /// parse.
    pub fn login(&self, email: &str, password: &str, now: i64) -> (r: Result<AuthResponse, AuthError>)
        requires
            self.wf(),
            valid_timestamp(now),
        ensures
            !email_taken(self.store().users(), email@) ==> r == Err::<AuthResponse, AuthError>(AuthError::Unauthorized),
            email_taken(self.store().users(), email@) ==> {
                let u = self.store().users()[user_index(self.store().users(), email@)];
                if !u.email_verified {
                    r == Err::<AuthResponse, AuthError>(AuthError::Forbidden)
                } else {
                    match password_check(password@, u.password_hash@) {
                        None => r == Err::<AuthResponse, AuthError>(AuthError::Internal),
                        Some(false) => r == Err::<AuthResponse, AuthError>(AuthError::Unauthorized),
                        Some(true) => r matches Ok(resp) && describes(resp.user, u) && resp.token@ == issued_token(
                            self.secret(),
                            u.id,
                            u.email@,
                            now,
                        ) && token_claims(resp.token@, self.secret()) == Some(
                            (u.id as i64, u.email@, (now + TOKEN_LIFETIME_SECS) as u64),
                        ),
                    }
                }
            },
    {
        let i = match self.store.find_account_by_email(email) {
            Some(i) => i,
            None => return Err(AuthError::Unauthorized),
        };
        let user = self.store.user_at(i);
        if !user.email_verified {
            return Err(AuthError::Forbidden);
        }
        match check_password(password, user.password_hash.as_str()) {
            None => Err(AuthError::Internal),
            Some(false) => Err(AuthError::Unauthorized),
            Some(true) => {
                let token = create_jwt(self.secret.as_str(), user.id, user.email.as_str(), now)?;
                Ok(AuthResponse { token, user: Self::user_response(user) })
            },
        }
    }

    /// The account a request's `Authorization` header names: `Unauthorized`
    /// unless the header carries a token the verifier accepts, `NotFound` when
    /// its account does not exist.
    pub fn me(&self, authorization: Option<&str>, now: i64) -> (r: Result<UserResponse, AuthError>)
        requires
            self.wf(),
        ensures
            match authorization {
                None => r == Err::<UserResponse, AuthError>(AuthError::Unauthorized),
                Some(h) => match token_verdict(bearer_token(h@), self.secret(), now as int) {
                    None => r == Err::<UserResponse, AuthError>(AuthError::Unauthorized),
                    Some(c) => if 1 <= c.0 <= self.store().users().len() {
                        r matches Ok(resp) && describes(resp, self.store().users()[c.0 - 1])
                    } else {
                        r == Err::<UserResponse, AuthError>(AuthError::NotFound)
                    },
                },
            },
    {
        let who = authenticate(self.secret.as_str(), authorization, now)?;
        match self.store.find_account_by_id(who.user_id) {
            Some(i) => Ok(Self::user_response(self.store.user_at(i))),
            None => Err(AuthError::NotFound),
        }
    }
}

/// Submitting the right passcode before it expires verifies the account and
/// leaves it no passcode at all, so the same submission fails afterwards at
/// any time.
pub proof fn lemma_verified_code_is_spent(
    users: Seq<User>,
    vs: Seq<EmailVerification>,
    email: Seq<char>,
    code: Seq<char>,
    now: i64,
    later: i64,
)
    requires
        store_wf(users, vs),
        verify_outcome(users, vs, email, code, now) is Ok,
    ensures
        ({
            let i = verify_outcome(users, vs, email, code, now)->Ok_0;
            let users2 = users.update(i, verified_user(users[i]));
            let vs2 = without_user(vs, users[i].id);
            &&& users2[i].email_verified
            &&& challenges_of(vs2, users[i].id).len() == 0
            &&& latest_match(vs2, users[i].id, code) is None
            &&& verify_outcome(users2, vs2, email, code, later) == Err::<int, AuthError>(AuthError::InvalidState)
        }),
{
    let i = user_index(users, email);
    assert(0 <= i < users.len() && users[i].email@ == email);
    let users2 = users.update(i, verified_user(users[i]));
    let vs2 = without_user(vs, users[i].id);
    assert forall|a: int, b: int|
        0 <= a < users2.len() && 0 <= b < users2.len() && a != b implies #[trigger] users2[a].email@
            != #[trigger] users2[b].email@ by {
        assert(users2[a].email@ == users[a].email@);
        assert(users2[b].email@ == users[b].email@);
    }
    lemma_user_index_unique(users2, i);
    lemma_without_user_from(vs, users[i].id);
    lemma_no_match_without_user(vs2, users[i].id, code);
}

/// After a resend, any passcode other than the new one fails verification,
/// expired or not.
pub proof fn lemma_resend_invalidates_old_codes(
    users: Seq<User>,
    vs: Seq<EmailVerification>,
    email: Seq<char>,
    fresh: EmailVerification,
    old_code: Seq<char>,
    now: i64,
)
    requires
        store_wf(users, vs),
        resend_outcome(users, email) is Ok,
        fresh.user_id == users[resend_outcome(users, email)->Ok_0].id,
        fresh.code@ != old_code,
    ensures
        verify_outcome(users, without_user(vs, fresh.user_id).push(fresh), email, old_code, now) == Err::<
            int,
            AuthError,
        >(AuthError::Unauthorized),
{
    let i = user_index(users, email);
    assert(0 <= i < users.len() && users[i].email@ == email);
    let kept = without_user(vs, fresh.user_id);
    let vs2 = kept.push(fresh);
    lemma_without_user_from(vs, fresh.user_id);
    lemma_no_match_without_user(kept, fresh.user_id, old_code);
    assert(vs2.drop_last() =~= kept);
    assert(vs2.last() == fresh);
}

/// Once an account holds an email, the email is taken: of two registrations
/// of one email, the one that comes second is refused with `Conflict`.
pub proof fn lemma_email_registered_once(users: Seq<User>, account: User)
    ensures
        email_taken(users.push(account), account.email@),
{
    let grown = users.push(account);
    assert(grown[users.len() as int] == account);
}

} // verus!
