//! Identities, amounts and digests shared by the three tables.
use vstd::prelude::*;
use vstd::std_specs::cmp::PartialEqSpecImpl;

verus! {

/// An amount of the host's currency.
pub type Balance = u128;

/// Milliseconds on the host's clock.
pub type Timestamp = u64;

/// A 256-bit digest.
pub type Digest = [u8; 32];

/// The identity of an account on the host: 32 opaque bytes.
#[derive(Clone, Copy, Debug, Eq, Hash)]
pub struct AccountId {
    pub bytes: [u8; 32],
}

impl AccountId {
    /// The account with the given bytes.
    pub fn new(bytes: [u8; 32]) -> (account: AccountId)
        ensures
            account.bytes == bytes,
    {
        AccountId { bytes }
    }
}

impl PartialEq for AccountId {
    fn eq(&self, other: &Self) -> (same: bool) {
        same_hash(&self.bytes, &other.bytes)
    }
}

impl PartialEqSpecImpl for AccountId {
    open spec fn obeys_eq_spec() -> bool {
        true
    }

    open spec fn eq_spec(&self, other: &Self) -> bool {
        *self == *other
    }
}

/// Whether two digests hold the same bytes.
pub fn same_hash(a: &Digest, b: &Digest) -> (same: bool)
    ensures
        same == (*a == *b),
{
    let mut i: usize = 0;
    while i < 32
        invariant
            i <= 32,
            forall|j: int| 0 <= j < i ==> a@[j] == b@[j],
        decreases 32 - i,
    {
        if a[i] != b[i] {
            return false;
        }
        i += 1;
    }
    assert(*a =~= *b);
    true
}

/// Whether `account` occurs in `accounts`.
pub fn contains_account(accounts: &Vec<AccountId>, account: AccountId) -> (found: bool)
    ensures
        found == accounts@.contains(account),
{
    let mut i: usize = 0;
    while i < accounts.len()
        invariant
            i <= accounts.len(),
            forall|j: int| 0 <= j < i ==> accounts@[j] != account,
        decreases accounts.len() - i,
    {
        if accounts[i] == account {
            return true;
        }
        i += 1;
    }
    false
}

/// A copy of `accounts`, element for element.
pub fn copy_accounts(accounts: &Vec<AccountId>) -> (copy: Vec<AccountId>)
    ensures
        copy@ == accounts@,
{
    let mut copy: Vec<AccountId> = Vec::new();
    let mut i: usize = 0;
    while i < accounts.len()
        invariant
            i <= accounts.len(),
            copy@ == accounts@.subrange(0, i as int),
        decreases accounts.len() - i,
    {
        copy.push(accounts[i]);
        i += 1;
    }
    copy
}

} // verus!
