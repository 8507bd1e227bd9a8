//! The credential store: accounts and one-time passcodes, with unique
//! emails, lookups by email and identifier, and passcode matching that
//! prefers the newest challenge.

use vstd::prelude::*;

use crate::error::AuthError;

verus! {

/// The last second of the year 9999, the latest timestamp the store accepts.
pub const MAX_TIMESTAMP: i64 = 253402300799;

/// A timestamp in seconds since the Unix epoch that the store can hold.
pub open spec fn valid_timestamp(t: i64) -> bool {
    0 <= t <= MAX_TIMESTAMP
}

/// A persisted account.
pub struct User {
    pub id: i32,
    pub email: String,
    pub password_hash: String,
    pub name: String,
    pub email_verified: bool,
    /// Seconds since the Unix epoch.
    pub created_at: i64,
}

/// A one-time passcode issued to an account.
pub struct EmailVerification {
    pub id: i32,
    pub user_id: i32,
    pub code: String,
    /// Seconds since the Unix epoch; the code is accepted strictly before it.
    pub expires_at: i64,
    pub created_at: i64,
}

/// Compares two strings by their characters.
pub fn same_text(a: &str, b: &str) -> (r: bool)
    ensures
        r == (a@ == b@),
{
    let x = a.to_string();
    let y = b.to_string();
    x == y
}

/// Some account holds this email.
pub open spec fn email_taken(users: Seq<User>, email: Seq<char>) -> bool {
    exists|i: int| 0 <= i < users.len() && users[i].email@ == email
}

/// The position of the account that holds this email (meaningful when one does).
pub open spec fn user_index(users: Seq<User>, email: Seq<char>) -> int {
    choose|i: int| 0 <= i < users.len() && users[i].email@ == email
}

/// A challenge belongs to the account and carries exactly this code.
pub open spec fn is_match(v: EmailVerification, user_id: i32, code: Seq<char>) -> bool {
    v.user_id == user_id && v.code@ == code
}

/// The position of the most recently created challenge of the account with this
/// code; challenges are kept in the order of their creation.
pub open spec fn latest_match(vs: Seq<EmailVerification>, user_id: i32, code: Seq<char>) -> Option<int>
    decreases vs.len(),
{
    if vs.len() == 0 {
        None
    } else if is_match(vs.last(), user_id, code) {
        Some(vs.len() - 1)
    } else {
        latest_match(vs.drop_last(), user_id, code)
    }
}

/// The challenges that do not belong to the account, in their order.
pub open spec fn without_user(vs: Seq<EmailVerification>, user_id: i32) -> Seq<EmailVerification>
    decreases vs.len(),
{
    if vs.len() == 0 {
        vs
    } else if vs[0].user_id == user_id {
        without_user(vs.drop_first(), user_id)
    } else {
        seq![vs[0]] + without_user(vs.drop_first(), user_id)
    }
}

/// The challenges that belong to the account, in their order.
pub open spec fn challenges_of(vs: Seq<EmailVerification>, user_id: i32) -> Seq<EmailVerification>
    decreases vs.len(),
{
    if vs.len() == 0 {
        vs
    } else if vs.last().user_id == user_id {
        challenges_of(vs.drop_last(), user_id).push(vs.last())
    } else {
        challenges_of(vs.drop_last(), user_id)
    }
}

/// The account with its `email_verified` flag set.
pub open spec fn verified_user(u: User) -> User {
    User {
        id: u.id,
        email: u.email,
        password_hash: u.password_hash,
        name: u.name,
        email_verified: true,
        created_at: u.created_at,
    }
}

/// Well-formed contents of a credential store: identifiers are positions plus
/// one, emails are unique, and every challenge belongs to an account.
pub open spec fn store_wf(users: Seq<User>, vs: Seq<EmailVerification>) -> bool {
    &&& users.len() < i32::MAX
    &&& forall|i: int| 0 <= i < users.len() ==> #[trigger] users[i].id == i + 1
    &&& forall|i: int, j: int|
        0 <= i < users.len() && 0 <= j < users.len() && i != j ==> #[trigger] users[i].email@
            != #[trigger] users[j].email@
    &&& forall|k: int| 0 <= k < vs.len() ==> 1 <= #[trigger] vs[k].user_id <= users.len()
}

/// Account and passcode records, with uniqueness of emails and lookups by
/// email, by identifier and by passcode.
pub struct CredentialStore {
    users: Vec<User>,
    verifications: Vec<EmailVerification>,
    next_verification_id: i32,
}

impl CredentialStore {
    /// The accounts, in the order of their creation.
    pub closed spec fn users(&self) -> Seq<User> {
        self.users@
    }

    /// The outstanding challenges, in the order of their creation.
    pub closed spec fn verifications(&self) -> Seq<EmailVerification> {
        self.verifications@
    }

    /// The identifier the next challenge receives.
    pub closed spec fn next_verification_id(&self) -> i32 {
        self.next_verification_id
    }

    pub open spec fn wf(&self) -> bool {
        &&& store_wf(self.users(), self.verifications())
        &&& 1 <= self.next_verification_id()
        &&& forall|k: int|
            0 <= k < self.verifications().len() ==> 1 <= #[trigger] self.verifications()[k].id
                < self.next_verification_id()
    }

    /// An empty store.
    pub fn new() -> (r: Self)
        ensures
            r.wf(),
            r.users() == Seq::<User>::empty(),
            r.verifications() == Seq::<EmailVerification>::empty(),
            r.next_verification_id() == 1,
    {
        CredentialStore { users: Vec::new(), verifications: Vec::new(), next_verification_id: 1 }
    }

    /// The number of accounts.
    pub fn user_count(&self) -> (r: usize)
        ensures
            r == self.users().len(),
    {
        self.users.len()
    }

    /// The number of outstanding challenges.
    pub fn verification_count(&self) -> (r: usize)
        ensures
            r == self.verifications().len(),
    {
        self.verifications.len()
    }

    /// Whether another challenge can still receive an identifier.
    pub fn can_issue_challenge(&self) -> (r: bool)
        ensures
            r == (self.next_verification_id() < i32::MAX),
    {
        self.next_verification_id < i32::MAX
    }

    /// The account at a position.
    pub fn user_at(&self, i: usize) -> (r: &User)
        requires
            i < self.users().len(),
        ensures
            *r == self.users()[i as int],
    {
        &self.users[i]
    }

    /// The challenge at a position.
    pub fn verification_at(&self, k: usize) -> (r: &EmailVerification)
        requires
            k < self.verifications().len(),
        ensures
            *r == self.verifications()[k as int],
    {
        &self.verifications[k]
    }

    /// The position of the account with this email.
    pub fn find_account_by_email(&self, email: &str) -> (r: Option<usize>)
        requires
            self.wf(),
        ensures
            r is None <==> !email_taken(self.users(), email@),
            r matches Some(i) ==> i < self.users().len() && self.users()[i as int].email@ == email@
                && i == user_index(self.users(), email@),
    {
        let mut i: usize = 0;
        while i < self.users.len()
            invariant
                self.wf(),
                i <= self.users@.len(),
                forall|j: int| 0 <= j < i ==> self.users@[j].email@ != email@,
            decreases self.users@.len() - i,
        {
            if same_text(self.users[i].email.as_str(), email) {
                proof {
                    lemma_user_index_unique(self.users@, i as int);
                }
                return Some(i);
            }
            i = i + 1;
        }
        None
    }

    /// The position of the account with this identifier.
    pub fn find_account_by_id(&self, id: i32) -> (r: Option<usize>)
        requires
            self.wf(),
        ensures
            r is None <==> !(1 <= id <= self.users().len()),
            r matches Some(i) ==> i == id - 1 && self.users()[i as int].id == id,
    {
        if 1 <= id && (id as usize) <= self.users.len() {
            Some((id - 1) as usize)
        } else {
            None
        }
    }

    /// Adds an unverified account; fails with `Conflict` when the email is
    /// taken and with `Internal` when no identifier is left.
    pub fn create_account(&mut self, email: String, password_hash: String, name: String, now: i64) -> (r: Result<i32, AuthError>)
        requires
            old(self).wf(),
        ensures
            final(self).wf(),
            final(self).verifications() == old(self).verifications(),
            final(self).next_verification_id() == old(self).next_verification_id(),
            email_taken(old(self).users(), email@) ==> r == Err::<i32, AuthError>(AuthError::Conflict),
            r == Err::<i32, AuthError>(AuthError::Conflict) ==> email_taken(old(self).users(), email@),
            !email_taken(old(self).users(), email@) && old(self).users().len() + 1 < i32::MAX ==> r is Ok,
            r is Err ==> *final(self) == *old(self),
            r matches Err(e) ==> e == AuthError::Conflict || e == AuthError::Internal,
            r matches Ok(id) ==> id == old(self).users().len() + 1 && final(self).users() == old(self).users().push(User {
                id,
                email,
                password_hash,
                name,
                email_verified: false,
                created_at: now,
            }),
    {
        if self.find_account_by_email(email.as_str()).is_some() {
            return Err(AuthError::Conflict);
        }
        if self.users.len() >= (i32::MAX - 1) as usize {
            return Err(AuthError::Internal);
        }
        let id = (self.users.len() + 1) as i32;
        let ghost e = email@;
        let user = User { id, email, password_hash, name, email_verified: false, created_at: now };
        let ghost before = self.users@;
        self.users.push(user);
        proof {
            assert forall|i: int, j: int|
                0 <= i < self.users@.len() && 0 <= j < self.users@.len() && i != j implies #[trigger] self.users@[i].email@
                    != #[trigger] self.users@[j].email@ by {
                if i == before.len() {
                    assert(self.users@[j] == before[j]);
                } else if j == before.len() {
                    assert(self.users@[i] == before[i]);
                } else {
                    assert(self.users@[i] == before[i]);
                    assert(self.users@[j] == before[j]);
                }
            }
        }
        Ok(id)
    }

    /// Marks the account at a position verified; a second call changes nothing.
    pub fn set_verified(&mut self, i: usize)
        requires
            old(self).wf(),
            i < old(self).users().len(),
        ensures
            final(self).wf(),
            final(self).users() == old(self).users().update(i as int, verified_user(old(self).users()[i as int])),
            final(self).verifications() == old(self).verifications(),
            final(self).next_verification_id() == old(self).next_verification_id(),
    {
        self.users[i].email_verified = true;
        proof {
            assert(self.users@ =~= old(self).users@.update(i as int, verified_user(old(self).users@[i as int])));
        }
    }

    /// Issues a challenge to an existing account; fails with `Internal` when no
    /// identifier is left.
    pub fn create_challenge(&mut self, user_id: i32, code: String, expires_at: i64, now: i64) -> (r: Result<(), AuthError>)
        requires
            old(self).wf(),
            1 <= user_id <= old(self).users().len(),
        ensures
            final(self).wf(),
            final(self).users() == old(self).users(),
            r is Err ==> r == Err::<(), AuthError>(AuthError::Internal) && *final(self) == *old(self),
            old(self).next_verification_id() < i32::MAX ==> r is Ok,
            r is Ok ==> final(self).next_verification_id() == old(self).next_verification_id() + 1,
            r is Ok ==> final(self).verifications() == old(self).verifications().push(EmailVerification {
                id: old(self).next_verification_id(),
                user_id,
                code,
                expires_at,
                created_at: now,
            }),
    {
        if self.next_verification_id == i32::MAX {
            return Err(AuthError::Internal);
        }
        let id = self.next_verification_id;
        self.verifications.push(EmailVerification { id, user_id, code, expires_at, created_at: now });
        self.next_verification_id = id + 1;
        Ok(())
    }

    /// Removes every challenge of the account, keeping the others in order.
    pub fn delete_all_challenges(&mut self, user_id: i32)
        requires
            old(self).wf(),
        ensures
            final(self).wf(),
            final(self).users() == old(self).users(),
            final(self).verifications() == without_user(old(self).verifications(), user_id),
            final(self).next_verification_id() == old(self).next_verification_id(),
    {
        let ghost s = self.verifications@;
        let n = self.verifications.len();
        let mut i: usize = n;
        assert(s.subrange(0, n as int) =~= s);
        assert(s.subrange(n as int, n as int) =~= Seq::<EmailVerification>::empty());
        while i > 0
            invariant
                n == s.len(),
                i <= n,
                self.verifications@ == s.subrange(0, i as int) + without_user(s.subrange(i as int, n as int), user_id),
                self.users@ == old(self).users@,
                self.next_verification_id == old(self).next_verification_id,
            decreases i,
        {
            let j = i - 1;
            let ghost tail = s.subrange(i as int, n as int);
            let ghost longer = s.subrange(j as int, n as int);
            assert(longer.drop_first() =~= tail);
            assert(longer[0] == s[j as int]);
            if self.verifications[j].user_id == user_id {
                self.verifications.remove(j);
                assert(self.verifications@ =~= s.subrange(0, j as int) + without_user(longer, user_id));
            } else {
                assert(self.verifications@ =~= s.subrange(0, j as int) + without_user(longer, user_id));
            }
            i = j;
        }
        assert(s.subrange(0, 0) + without_user(s.subrange(0, n as int), user_id) =~= without_user(s, user_id));
        proof {
            lemma_without_user_from(s, user_id);
        }
    }

    /// The position of the most recent challenge of the account with exactly
    /// this code.
    pub fn find_latest_matching_challenge(&self, user_id: i32, code: &str) -> (r: Option<usize>)
        ensures
            r is None <==> latest_match(self.verifications(), user_id, code@) is None,
            r matches Some(k) ==> k < self.verifications().len() && latest_match(self.verifications(), user_id, code@)
                == Some(k as int),
    {
        let ghost s = self.verifications@;
        proof {
            lemma_latest_match_in_range(s, user_id, code@);
        }
        let mut i: usize = self.verifications.len();
        assert(s.subrange(0, i as int) =~= s);
        while i > 0
            invariant
                i <= s.len(),
                s == self.verifications@,
                latest_match(s, user_id, code@) == latest_match(s.subrange(0, i as int), user_id, code@),
            decreases i,
        {
            let j = i - 1;
            let ghost pre = s.subrange(0, i as int);
            assert(pre.drop_last() =~= s.subrange(0, j as int));
            assert(pre.last() == s[j as int]);
            let v = &self.verifications[j];
            if v.user_id == user_id && same_text(v.code.as_str(), code) {
                return Some(j);
            }
            i = j;
        }
        None
    }
}

/// The latest match is a position of the sequence, and it matches.
pub proof fn lemma_latest_match_in_range(vs: Seq<EmailVerification>, user_id: i32, code: Seq<char>)
    ensures
        latest_match(vs, user_id, code) matches Some(k) ==> 0 <= k < vs.len() && is_match(vs[k], user_id, code),
    decreases vs.len(),
{
    if vs.len() > 0 {
        lemma_latest_match_in_range(vs.drop_last(), user_id, code);
    }
}

/// An account with no challenge among these has no matching one.
pub proof fn lemma_no_match_without_user(vs: Seq<EmailVerification>, user_id: i32, code: Seq<char>)
    requires
        forall|k: int| 0 <= k < vs.len() ==> (#[trigger] vs[k]).user_id != user_id,
    ensures
        latest_match(vs, user_id, code) is None,
        challenges_of(vs, user_id).len() == 0,
    decreases vs.len(),
{
    if vs.len() > 0 {
        let pre = vs.drop_last();
        assert forall|k: int| 0 <= k < pre.len() implies (#[trigger] pre[k]).user_id != user_id by {
            assert(pre[k] == vs[k]);
        }
        lemma_no_match_without_user(pre, user_id, code);
        assert(vs.last() == vs[vs.len() - 1]);
    }
}

/// Under unique emails, `user_index` picks the one position that holds it.
pub proof fn lemma_user_index_unique(users: Seq<User>, i: int)
    requires
        0 <= i < users.len(),
        forall|a: int, b: int|
            0 <= a < users.len() && 0 <= b < users.len() && a != b ==> #[trigger] users[a].email@
                != #[trigger] users[b].email@,
    ensures
        email_taken(users, users[i].email@),
        user_index(users, users[i].email@) == i,
{
    let e = users[i].email@;
    assert(0 <= i < users.len() && users[i].email@ == e);
    let j = user_index(users, e);
    assert(users[j].email@ == e);
}

/// What `without_user` keeps comes from its argument, and none of it belongs
/// to the account.
pub proof fn lemma_without_user_from(vs: Seq<EmailVerification>, user_id: i32)
    ensures
        forall|k: int| 0 <= k < without_user(vs, user_id).len() ==> (#[trigger] without_user(vs, user_id)[k]).user_id != user_id,
        forall|k: int| 0 <= k < without_user(vs, user_id).len() ==> vs.contains(#[trigger] without_user(vs, user_id)[k]),
    decreases vs.len(),
{
    if vs.len() > 0 {
        let rest = vs.drop_first();
        lemma_without_user_from(rest, user_id);
        assert forall|k: int| 0 <= k < without_user(vs, user_id).len() implies (#[trigger] without_user(vs, user_id)[k]).user_id != user_id
            && vs.contains(without_user(vs, user_id)[k]) by {
            let w = without_user(vs, user_id);
            if vs[0].user_id == user_id {
                assert(w == without_user(rest, user_id));
                assert(rest.contains(without_user(rest, user_id)[k]));
                let m = choose|m: int| 0 <= m < rest.len() && rest[m] == w[k];
                assert(vs[m + 1] == w[k]);
            } else if k == 0 {
                assert(vs[0] == w[k]);
            } else {
                assert(w[k] == without_user(rest, user_id)[k - 1]);
                assert(rest.contains(w[k]));
                let m = choose|m: int| 0 <= m < rest.len() && rest[m] == w[k];
                assert(vs[m + 1] == w[k]);
            }
        }
    }
}

} // verus!
