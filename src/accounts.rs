//! Registered accounts: user names with the SHA-256 digest of their
//! password, registration that refuses a taken name, and login checks.

use vstd::prelude::*;

verus! {

/// The lower-case hexadecimal SHA-256 digest of the UTF-8 text `s`.
pub uninterp spec fn sha256_hex_of(s: Seq<char>) -> Seq<char>;

/// Relies on `sha2::Sha256::digest` over the UTF-8 bytes of `s`, written out
/// in lower-case hexadecimal by the digest's `LowerHex` formatting. The
/// result depends on the text alone.
#[verifier::external_body]
fn password_digest(s: &String) -> (r: String)
    ensures
        r@ == sha256_hex_of(s@),
{
    format!("{:x}", <sha2::Sha256 as sha2::Digest>::digest(s.as_bytes()))
}

/// One registered user.
pub struct Account {
    pub username: String,
    pub password_hash: String,
}

/// Why a registration was refused.
#[derive(Clone, Copy, Debug, PartialEq, Eq, Structural)]
pub enum RegisterError {
    UsernameTaken,
}

/// How a login attempt ended.
#[derive(Clone, Copy, Debug, PartialEq, Eq, Structural)]
pub enum LoginOutcome {
    Success,
    InvalidPassword,
    UserNotFound,
}

/// The outcome of logging in as `username` with a password whose digest is
/// `digest`, against the accounts `table`.
pub open spec fn login_outcome(
    table: Map<Seq<char>, Seq<char>>,
    username: Seq<char>,
    digest: Seq<char>,
) -> LoginOutcome {
    if !table.contains_key(username) {
        LoginOutcome::UserNotFound
    } else if table[username] == digest {
        LoginOutcome::Success
    } else {
        LoginOutcome::InvalidPassword
    }
}

pub open spec fn status_of_login(o: LoginOutcome) -> u16 {
    match o {
        LoginOutcome::Success => 200,
        LoginOutcome::InvalidPassword => 401,
        LoginOutcome::UserNotFound => 404,
    }
}

impl LoginOutcome {
    /// The HTTP status that reports this outcome.
    pub fn status_code(&self) -> (r: u16)
        ensures
            r == status_of_login(*self),
    {
        match self {
            LoginOutcome::Success => 200,
            LoginOutcome::InvalidPassword => 401,
            LoginOutcome::UserNotFound => 404,
        }
    }
}

/// The HTTP status that reports a registration's result.
pub fn register_status(r: &Result<(), RegisterError>) -> (s: u16)
    ensures
        s == (if r is Ok { 200u16 } else { 400u16 }),
{
    match r {
        Ok(()) => 200,
        Err(_) => 400,
    }
}

/// The registered accounts, with each user name at most once.
pub struct AccountTable {
    accounts: Vec<Account>,
    model: Ghost<Map<Seq<char>, Seq<char>>>,
}

impl View for AccountTable {
    type V = Map<Seq<char>, Seq<char>>;

    /// Each registered user name, with its password digest.
    closed spec fn view(&self) -> Map<Seq<char>, Seq<char>> {
        self.model@
    }
}

impl AccountTable {
    pub closed spec fn wf(&self) -> bool {
        &&& forall|i: int, j: int|
            0 <= i < j < self.accounts@.len() ==> (#[trigger] self.accounts@[i]).username@ != (
            #[trigger] self.accounts@[j]).username@
        &&& forall|i: int|
            0 <= i < self.accounts@.len() ==> self.model@.contains_key(
                (#[trigger] self.accounts@[i]).username@,
            ) && self.model@[self.accounts@[i].username@] == self.accounts@[i].password_hash@
        &&& forall|k: Seq<char>|
            #[trigger] self.model@.contains_key(k) ==> exists|i: int|
                0 <= i < self.accounts@.len() && (#[trigger] self.accounts@[i]).username@ == k
    }

    /// No accounts.
    pub fn new() -> (r: Self)
        ensures
            r.wf(),
            r@ == Map::<Seq<char>, Seq<char>>::empty(),
    {
        AccountTable { accounts: Vec::new(), model: Ghost(Map::empty()) }
    }

    /// The number of accounts.
    pub fn len(&self) -> (r: usize)
        requires
            self.wf(),
        ensures
            r == self@.len(),
    {
        proof {
            self.lemma_len();
        }
        self.accounts.len()
    }

    proof fn lemma_len(&self)
        requires
            self.wf(),
        ensures
            self.model@.dom().finite(),
            self.model@.len() == self.accounts@.len(),
        decreases self.accounts@.len(),
    {
        let names = Seq::new(self.accounts@.len(), |i: int| self.accounts@[i].username@);
        assert forall|k: Seq<char>| self.model@.dom().contains(k) <==> names.to_set().contains(
            k,
        ) by {
            if self.model@.contains_key(k) {
                let i = choose|i: int|
                    0 <= i < self.accounts@.len() && (#[trigger] self.accounts@[i]).username@ == k;
                assert(names[i] == k);
            }
            if names.contains(k) {
                let i = choose|i: int| 0 <= i < names.len() && names[i] == k;
                assert(self.accounts@[i].username@ == k);
            }
        }
        assert(self.model@.dom() =~= names.to_set());
        assert forall|i: int, j: int| 0 <= i < j < names.len() implies names[i] != names[j] by {
            assert(self.accounts@[i].username@ != self.accounts@[j].username@);
        }
        names.unique_seq_to_set();
    }

    /// Where `username` stands in the table, if it is registered.
    fn find(&self, username: &String) -> (r: Option<usize>)
        requires
            self.wf(),
        ensures
            r is None <==> !self@.contains_key(username@),
            r matches Some(i) ==> i < self.accounts@.len() && self.accounts@[i as int].username@
                == username@,
    {
        let mut i: usize = 0;
        while i < self.accounts.len()
            invariant
                self.wf(),
                i <= self.accounts@.len(),
                forall|j: int| 0 <= j < i ==> (#[trigger] self.accounts@[j]).username@ != username@,
            decreases self.accounts.len() - i,
        {
            if self.accounts[i].username == *username {
                assert(self.model@.contains_key(self.accounts@[i as int].username@));
                return Some(i);
            }
            i = i + 1;
        }
        proof {
            if self.model@.contains_key(username@) {
                let k = choose|k: int|
                    0 <= k < self.accounts@.len() && (#[trigger] self.accounts@[k]).username@
                        == username@;
                assert(self.accounts@[k].username@ != username@);
            }
        }
        None
    }

    /// Adds an account whose password digest is already computed; a taken
    /// user name is refused and changes nothing.
    pub fn register_hashed(&mut self, username: String, digest: String) -> (r: Result<
        (),
        RegisterError,
    >)
        requires
            old(self).wf(),
        ensures
            final(self).wf(),
            r is Ok <==> !old(self)@.contains_key(username@),
            r is Ok ==> final(self)@ == old(self)@.insert(username@, digest@),
            r is Err ==> final(self)@ == old(self)@,
    {
        match self.find(&username) {
            Some(_) => Err(RegisterError::UsernameTaken),
            None => {
                let ghost u = username@;
                let ghost d = digest@;
                let ghost before = self.accounts@;
                self.accounts.push(Account { username, password_hash: digest });
                self.model = Ghost(self.model@.insert(u, d));
                assert forall|k: Seq<char>| #[trigger] self.model@.contains_key(k) implies exists|
                    i: int,
                | 0 <= i < self.accounts@.len() && (#[trigger] self.accounts@[i]).username@ == k by {
                    if k == u {
                        assert(self.accounts@[before.len() as int].username@ == k);
                    } else {
                        assert(old(self).model@.contains_key(k));
                        let i = choose|i: int|
                            0 <= i < before.len() && (#[trigger] before[i]).username@ == k;
                        assert(self.accounts@[i].username@ == k);
                    }
                }
                assert forall|i: int, j: int|
                    0 <= i < j < self.accounts@.len() implies (#[trigger] self.accounts@[i]).username@
                    != (#[trigger] self.accounts@[j]).username@ by {
                    if j == before.len() {
                        assert(old(self).model@.contains_key(before[i].username@));
                    } else {
                        assert(before[i] == self.accounts@[i] && before[j] == self.accounts@[j]);
                    }
                }
                assert forall|i: int| 0 <= i < self.accounts@.len() implies self.model@.contains_key(
                    (#[trigger] self.accounts@[i]).username@,
                ) && self.model@[self.accounts@[i].username@]
                    == self.accounts@[i].password_hash@ by {
                    if i < before.len() {
                        assert(before[i] == self.accounts@[i]);
                        assert(old(self).model@.contains_key(before[i].username@));
                    }
                }
                Ok(())
            },
        }
    }

    /// Registers `username` with the SHA-256 digest of `password`.
    pub fn register(&mut self, username: String, password: &String) -> (r: Result<
        (),
        RegisterError,
    >)
        requires
            old(self).wf(),
        ensures
            final(self).wf(),
            r is Ok <==> !old(self)@.contains_key(username@),
            r is Ok ==> final(self)@ == old(self)@.insert(username@, sha256_hex_of(password@)),
            r is Err ==> final(self)@ == old(self)@,
    {
        let digest = password_digest(password);
        self.register_hashed(username, digest)
    }

    /// The password digest stored for `username`.
    pub fn digest_of(&self, username: &String) -> (r: Option<String>)
        requires
            self.wf(),
        ensures
            r is Some <==> self@.contains_key(username@),
            r matches Some(d) ==> d@ == self@[username@],
    {
        match self.find(username) {
            Some(i) => Some(self.accounts[i].password_hash.clone()),
            None => None,
        }
    }

    /// Checks a login against a password digest that is already computed.
    pub fn login_with_digest(&self, username: &String, digest: &String) -> (r: LoginOutcome)
        requires
            self.wf(),
        ensures
            r == login_outcome(self@, username@, digest@),
    {
        match self.find(username) {
            None => LoginOutcome::UserNotFound,
            Some(i) => {
                if self.accounts[i].password_hash == *digest {
                    LoginOutcome::Success
                } else {
                    LoginOutcome::InvalidPassword
                }
            },
        }
    }

    /// Checks a login: the SHA-256 digest of `password` must be the one
    /// stored for `username`.
    pub fn login(&self, username: &String, password: &String) -> (r: LoginOutcome)
        requires
            self.wf(),
        ensures
            r == login_outcome(self@, username@, sha256_hex_of(password@)),
    {
        let digest = password_digest(password);
        self.login_with_digest(username, &digest)
    }

    /// Every account as (user name, password digest), in registration
    /// order.
    pub fn entries(&self) -> (r: Vec<(String, String)>)
        requires
            self.wf(),
        ensures
            r@.len() == self@.len(),
            forall|i: int|
                0 <= i < r@.len() ==> self@.contains_key((#[trigger] r@[i]).0@) && self@[r@[i].0@]
                    == r@[i].1@,
    {
        proof {
            self.lemma_len();
        }
        let mut out: Vec<(String, String)> = Vec::new();
        let mut i: usize = 0;
        while i < self.accounts.len()
            invariant
                self.wf(),
                i <= self.accounts@.len(),
                out@.len() == i,
                forall|j: int|
                    0 <= j < i ==> (#[trigger] out@[j]).0@ == self.accounts@[j].username@
                        && out@[j].1@ == self.accounts@[j].password_hash@,
            decreases self.accounts.len() - i,
        {
            let a = &self.accounts[i];
            out.push((a.username.clone(), a.password_hash.clone()));
            i = i + 1;
        }
        proof {
            assert forall|j: int| 0 <= j < out@.len() implies self@.contains_key(
                (#[trigger] out@[j]).0@,
            ) && self@[out@[j].0@] == out@[j].1@ by {
                assert(out@[j].0@ == self.accounts@[j].username@);
            }
        }
        out
    }
}

} // verus!
