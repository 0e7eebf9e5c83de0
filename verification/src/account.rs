//! The account table, read-mostly from this subsystem's perspective, and the
//! password-verification primitive.
//!
//! An account carries a unique identifier, a unique account name, a bcrypt
//! password hash and a preferred language. The only write this subsystem
//! performs is updating the preferred language.

use vstd::prelude::*;

use crate::api_error::ApiErrorType;
use crate::token::DBId;
use crate::util::str_eq;

verus! {

/// The preferred-language setting an account carries.
#[derive(Clone, Copy, Debug, PartialEq, Eq, Structural)]
pub enum Lang {
    De,
    En,
}

/// Whether bcrypt verification of a password against a stored hash returns
/// a clean answer (`Ok`) or fails to parse the hash (`Err`): a function of
/// the two arguments alone.
pub uninterp spec fn bcrypt_verify_of(pw: Seq<char>, hash: Seq<char>) -> Result<bool, ()>;

/// A password matches a stored hash when bcrypt verifies it cleanly and
/// positively.
pub open spec fn password_matches(pw: Seq<char>, hash: Seq<char>) -> bool {
    bcrypt_verify_of(pw, hash) == Ok::<bool, ()>(true)
}

/// Relies on bcrypt's `verify`: re-hashing the password with the cost and
/// salt stored in the hash and comparing is deterministic in the two
/// arguments; a hash that does not parse is an error.
#[verifier::external_body]
pub fn bcrypt_verify(pw: &str, hash: &str) -> (r: Option<bool>)
    ensures
        match r {
            Some(b) => bcrypt_verify_of(pw@, hash@) == Ok::<bool, ()>(b),
            None => bcrypt_verify_of(pw@, hash@) is Err,
        },
{
    match bcrypt::verify(pw, hash) {
        Ok(b) => Some(b),
        Err(_) => None,
    }
}

/// The mathematical model of an account row.
#[verifier::ext_equal]
pub struct AccountView {
    pub id: Seq<u8>,
    pub name: Seq<char>,
    pub pw_hash: Seq<char>,
    pub preferred_language: Lang,
}

/// An account row: identifier, account name, bcrypt password hash and
/// preferred language.
#[derive(Debug)]
pub struct Account {
    pub id: DBId,
    pub name: String,
    pub pw_hash: String,
    pub preferred_language: Lang,
}

impl View for Account {
    type V = AccountView;

    open spec fn view(&self) -> AccountView {
        AccountView {
            id: self.id@,
            name: self.name@,
            pw_hash: self.pw_hash@,
            preferred_language: self.preferred_language,
        }
    }
}

impl Account {
    /// The identifier is 16 bytes.
    pub open spec fn wf(&self) -> bool {
        self.id.wf()
    }

    /// An owned copy of this row.
    pub fn duplicate(&self) -> (r: Account)
        ensures
            r@ == self@,
            r.wf() == self.wf(),
    {
        Account {
            id: self.id.duplicate(),
            name: self.name.clone(),
            pw_hash: self.pw_hash.clone(),
            preferred_language: self.preferred_language,
        }
    }
}

/// Whether some account in `accounts` is named `name`.
pub open spec fn contains_name(accounts: Seq<AccountView>, name: Seq<char>) -> bool {
    exists|i: int| 0 <= i < accounts.len() && accounts[i].name == name
}

/// The index of the account named `name` (meaningful when one exists and
/// names are unique).
pub open spec fn index_of_name(accounts: Seq<AccountView>, name: Seq<char>) -> int {
    choose|i: int| 0 <= i < accounts.len() && accounts[i].name == name
}

/// The account named `name`.
pub open spec fn account_with_name(accounts: Seq<AccountView>, name: Seq<char>) -> AccountView {
    accounts[index_of_name(accounts, name)]
}

/// Whether some account in `accounts` has identifier `id`.
pub open spec fn contains_account_id(accounts: Seq<AccountView>, id: Seq<u8>) -> bool {
    exists|i: int| 0 <= i < accounts.len() && accounts[i].id == id
}

/// The index of the account with identifier `id`.
pub open spec fn index_of_account_id(accounts: Seq<AccountView>, id: Seq<u8>) -> int {
    choose|i: int| 0 <= i < accounts.len() && accounts[i].id == id
}

/// The account with identifier `id`.
pub open spec fn account_with_id(accounts: Seq<AccountView>, id: Seq<u8>) -> AccountView {
    accounts[index_of_account_id(accounts, id)]
}

/// No two accounts share an identifier or a name, and identifiers are
/// 16 bytes.
pub open spec fn accounts_wf(accounts: Seq<AccountView>) -> bool {
    &&& forall|i: int| 0 <= i < accounts.len() ==> (#[trigger] accounts[i]).id.len() == 16
    &&& forall|i: int, j: int|
        0 <= i < j < accounts.len() ==> (#[trigger] accounts[i]).id != (
        #[trigger] accounts[j]).id && accounts[i].name != accounts[j].name
}

/// The account table.
pub struct AccountTable {
    accounts: Vec<Account>,
}

impl View for AccountTable {
    type V = Seq<AccountView>;

    closed spec fn view(&self) -> Seq<AccountView> {
        Seq::new(self.accounts@.len(), |i: int| self.accounts@[i]@)
    }
}

impl AccountTable {
    /// The table's invariant.
    pub open spec fn wf(&self) -> bool {
        accounts_wf(self@)
    }

    /// An empty account table.
    pub fn new() -> (r: AccountTable)
        ensures
            r.wf(),
            r@ == Seq::<AccountView>::empty(),
    {
        let r = AccountTable { accounts: Vec::new() };
        proof {
            assert(r@ =~= Seq::<AccountView>::empty());
        }
        r
    }

    fn find_name_index(&self, name: &str) -> (r: Option<usize>)
        ensures
            match r {
                Some(i) => i < self@.len() && self@[i as int].name == name@,
                None => !contains_name(self@, name@),
            },
    {
        let n = self.accounts.len();
        let mut i: usize = 0;
        while i < n
            invariant
                i <= n,
                n == self@.len(),
                forall|j: int| 0 <= j < i ==> (#[trigger] self@[j]).name != name@,
            decreases n - i,
        {
            if str_eq(self.accounts[i].name.as_str(), name) {
                return Some(i);
            }
            i = i + 1;
        }
        None
    }

    fn find_id_index(&self, id: &DBId) -> (r: Option<usize>)
        ensures
            match r {
                Some(i) => i < self@.len() && self@[i as int].id == id@,
                None => !contains_account_id(self@, id@),
            },
    {
        let n = self.accounts.len();
        let mut i: usize = 0;
        while i < n
            invariant
                i <= n,
                n == self@.len(),
                forall|j: int| 0 <= j < i ==> (#[trigger] self@[j]).id != id@,
            decreases n - i,
        {
            if self.accounts[i].id.same_as(id) {
                return Some(i);
            }
            i = i + 1;
        }
        None
    }

    /// Adds an account. A duplicate identifier or name is a persistence
    /// failure, reported as `DbError`; nothing is overwritten.
    pub fn add(&mut self, account: Account) -> (r: Result<(), ApiErrorType>)
        requires
            old(self).wf(),
            account.wf(),
        ensures
            final(self).wf(),
            match r {
                Ok(()) => {
                    &&& !contains_account_id(old(self)@, account@.id)
                    &&& !contains_name(old(self)@, account@.name)
                    &&& final(self)@ == old(self)@.push(account@)
                },
                Err(e) => {
                    &&& e is DbError
                    &&& (contains_account_id(old(self)@, account@.id) || contains_name(
                        old(self)@,
                        account@.name,
                    ))
                    &&& final(self)@ == old(self)@
                },
            },
    {
        if let Some(_) = self.find_id_index(&account.id) {
            return Err(ApiErrorType::DbError);
        }
        if let Some(_) = self.find_name_index(account.name.as_str()) {
            return Err(ApiErrorType::DbError);
        }
        let ghost prior = self@;
        let ghost added = account@;
        self.accounts.push(account);
        proof {
            assert(self@ =~= prior.push(added));
            assert forall|i: int, j: int| 0 <= i < j < self@.len() implies (
            #[trigger] self@[i]).id != (#[trigger] self@[j]).id && self@[i].name
                != self@[j].name by {
                if j == self@.len() - 1 {
                    assert(prior[i].id != added.id);
                    assert(prior[i].name != added.name);
                }
            }
        }
        Ok(())
    }

    /// The number of accounts.
    pub fn len(&self) -> (r: usize)
        ensures
            r == self@.len(),
    {
        self.accounts.len()
    }

    /// Point lookup by account name, as the login flow performs it.
    pub fn find_by_name(&self, name: &str) -> (r: Option<Account>)
        requires
            self.wf(),
        ensures
            match r {
                Some(a) => {
                    &&& contains_name(self@, name@)
                    &&& a@ == account_with_name(self@, name@)
                    &&& a.wf()
                },
                None => !contains_name(self@, name@),
            },
    {
        match self.find_name_index(name) {
            Some(i) => {
                let row = self.accounts[i].duplicate();
                proof {
                    let w = index_of_name(self@, name@);
                    assert(self@[w].name == name@);
                    if w != i as int {
                        assert(self@[w].name != self@[i as int].name);
                    }
                }
                Some(row)
            },
            None => None,
        }
    }

    /// Point lookup by identifier, as the session route performs it.
    pub fn get(&self, id: &DBId) -> (r: Option<Account>)
        requires
            self.wf(),
        ensures
            match r {
                Some(a) => {
                    &&& contains_account_id(self@, id@)
                    &&& a@ == account_with_id(self@, id@)
                    &&& a.wf()
                },
                None => !contains_account_id(self@, id@),
            },
    {
        match self.find_id_index(id) {
            Some(i) => {
                let row = self.accounts[i].duplicate();
                proof {
                    let w = index_of_account_id(self@, id@);
                    assert(self@[w].id == id@);
                    if w != i as int {
                        assert(self@[w].id != self@[i as int].id);
                    }
                }
                Some(row)
            },
            None => None,
        }
    }

    /// Updates an account's preferred language and returns the updated row.
    /// A vanished row is a storage failure, reported as `DbError`.
    pub fn set_language(&mut self, id: &DBId, lang: Lang) -> (r: Result<Account, ApiErrorType>)
        requires
            old(self).wf(),
        ensures
            final(self).wf(),
            match r {
                Ok(a) => {
                    &&& contains_account_id(old(self)@, id@)
                    &&& a@ == AccountView {
                        preferred_language: lang,
                        ..account_with_id(old(self)@, id@)
                    }
                    &&& a.wf()
                    &&& final(self)@ == old(self)@.update(
                        index_of_account_id(old(self)@, id@),
                        a@,
                    )
                },
                Err(e) => {
                    &&& e is DbError
                    &&& !contains_account_id(old(self)@, id@)
                    &&& final(self)@ == old(self)@
                },
            },
    {
        let idx = match self.find_id_index(id) {
            Some(i) => i,
            None => {
                return Err(ApiErrorType::DbError);
            },
        };
        let prior_row = self.accounts[idx].duplicate();
        let updated = Account {
            id: prior_row.id,
            name: prior_row.name,
            pw_hash: prior_row.pw_hash,
            preferred_language: lang,
        };
        let result = updated.duplicate();
        let ghost prior = self@;
        self.accounts[idx] = updated;
        proof {
            let w = index_of_account_id(prior, id@);
            assert(prior[w].id == id@);
            if w != idx as int {
                assert(prior[w].id != prior[idx as int].id);
            }
            assert(self@ =~= prior.update(idx as int, result@));
            assert(result@ =~= AccountView {
                preferred_language: lang,
                ..account_with_id(prior, id@)
            });
            assert forall|i: int, j: int| 0 <= i < j < self@.len() implies (
            #[trigger] self@[i]).id != (#[trigger] self@[j]).id && self@[i].name
                != self@[j].name by {
                assert(prior[i].id != prior[j].id);
                assert(prior[i].name != prior[j].name);
            }
        }
        Ok(result)
    }
}

} // verus!
