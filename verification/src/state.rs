//! The persisted state of the engine: the vesting accounts, keyed by
//! `(beneficiary, denom)`, and the per-denom aggregate of quantities still
//! in custody.

use vstd::prelude::*;
use vstd::string::*;

use crate::msg::Denom;
use crate::msg::DenomV;
use crate::msg::VestingSchedule;
use crate::msg::spec_schedule_total;
use crate::msg::spec_schedule_valid;

verus! {

/// One vesting agreement: the locked quantity, its schedule, and how much
/// of it has been claimed so far.
#[derive(Clone, Debug, PartialEq, Eq)]
pub struct VestingAccount {
    /// The party entitled to the unvested remainder on deregistration.
    pub master_address: String,
    /// The beneficiary: the party entitled to claim as tokens vest.
    pub address: String,
    /// The token kind the agreement locks.
    pub vesting_denom: String,
    /// The total quantity locked at registration; immutable.
    pub vesting_amount: u128,
    /// The schedule; immutable.
    pub vesting_schedule: VestingSchedule,
    /// Monotonically increasing, from zero up to `vesting_amount`.
    pub claimed_amount: u128,
}

/// The spec-level value of an account.
#[verifier::ext_equal]
pub ghost struct AccountV {
    pub master_address: Seq<char>,
    pub address: Seq<char>,
    pub vesting_denom: Seq<char>,
    pub vesting_amount: int,
    pub vesting_schedule: VestingSchedule,
    pub claimed_amount: int,
}

impl View for VestingAccount {
    type V = AccountV;

    open spec fn view(&self) -> AccountV {
        AccountV {
            master_address: self.master_address@,
            address: self.address@,
            vesting_denom: self.vesting_denom@,
            vesting_amount: self.vesting_amount as int,
            vesting_schedule: self.vesting_schedule,
            claimed_amount: self.claimed_amount as int,
        }
    }
}

impl VestingAccount {
    /// A field-by-field copy of the account.
    pub fn duplicate(&self) -> (r: VestingAccount)
        ensures
            r == *self,
    {
        VestingAccount {
            master_address: self.master_address.clone(),
            address: self.address.clone(),
            vesting_denom: self.vesting_denom.clone(),
            vesting_amount: self.vesting_amount,
            vesting_schedule: self.vesting_schedule,
            claimed_amount: self.claimed_amount,
        }
    }
}

/// One entry of the per-denom aggregate.
#[derive(Clone, Debug, PartialEq, Eq)]
pub struct DenomTotal {
    pub denom: String,
    pub amount: u128,
}

/// The spec-level value of an aggregate entry.
#[verifier::ext_equal]
pub ghost struct TotalV {
    pub denom: Seq<char>,
    pub amount: int,
}

impl View for DenomTotal {
    type V = TotalV;

    open spec fn view(&self) -> TotalV {
        TotalV { denom: self.denom@, amount: self.amount as int }
    }
}

/// Whether an account belongs to the `(beneficiary, denom)` key.
pub open spec fn acct_matches(a: AccountV, address: Seq<char>, denom: Seq<char>) -> bool {
    a.address == address && a.vesting_denom == denom
}

/// What an account still holds of the given denomination: its locked
/// quantity less what was claimed, or zero for another denomination.
pub open spec fn outstanding_of(a: AccountV, denom: Seq<char>) -> int {
    if a.vesting_denom == denom {
        a.vesting_amount - a.claimed_amount
    } else {
        0
    }
}

/// The sum of what the accounts still hold of the given denomination.
pub open spec fn spec_outstanding_sum(accounts: Seq<AccountV>, denom: Seq<char>) -> int
    decreases accounts.len(),
{
    if accounts.len() == 0 {
        0
    } else {
        spec_outstanding_sum(accounts.drop_last(), denom) + outstanding_of(
            accounts.last(),
            denom,
        )
    }
}

/// The well-formedness of a single stored account: validated addresses, a
/// validated schedule whose total is the locked quantity, and a claimed
/// quantity within bounds.
pub open spec fn account_ok(a: AccountV) -> bool {
    &&& a.master_address.len() > 0
    &&& a.address.len() > 0
    &&& spec_schedule_valid(a.vesting_schedule)
    &&& a.vesting_amount == spec_schedule_total(a.vesting_schedule)
    &&& 0 <= a.claimed_amount <= a.vesting_amount
    &&& a.vesting_amount <= u128::MAX
}

/// The whole persisted state.
pub struct Ledger {
    pub accounts: Vec<VestingAccount>,
    pub totals: Vec<DenomTotal>,
}

/// The spec-level value of the state.
#[verifier::ext_equal]
pub ghost struct LedgerV {
    pub accounts: Seq<AccountV>,
    pub totals: Seq<TotalV>,
}

impl View for Ledger {
    type V = LedgerV;

    open spec fn view(&self) -> LedgerV {
        LedgerV {
            accounts: Seq::new(self.accounts@.len(), |i: int| self.accounts@[i]@),
            totals: Seq::new(self.totals@.len(), |i: int| self.totals@[i]@),
        }
    }
}

impl LedgerV {
    /// Whether an account exists for the key.
    pub open spec fn has_account(self, address: Seq<char>, denom: Seq<char>) -> bool {
        exists|i: int|
            0 <= i < self.accounts.len() && acct_matches(#[trigger] self.accounts[i], address, denom)
    }

    /// The index of the key's account; meaningful under well-formedness,
    /// which makes it unique.
    pub open spec fn account_index(self, address: Seq<char>, denom: Seq<char>) -> int {
        choose|i: int|
            0 <= i < self.accounts.len() && acct_matches(#[trigger] self.accounts[i], address, denom)
    }

    /// The key's account.
    pub open spec fn account_at(self, address: Seq<char>, denom: Seq<char>) -> AccountV {
        self.accounts[self.account_index(address, denom)]
    }

    /// Whether the aggregate has an entry for the denomination.
    pub open spec fn has_total(self, denom: Seq<char>) -> bool {
        exists|i: int| 0 <= i < self.totals.len() && (#[trigger] self.totals[i]).denom == denom
    }

    /// The index of the denomination's aggregate entry.
    pub open spec fn total_index(self, denom: Seq<char>) -> int {
        choose|i: int| 0 <= i < self.totals.len() && (#[trigger] self.totals[i]).denom == denom
    }

    /// The recorded aggregate of the denomination.
    pub open spec fn total_amount(self, denom: Seq<char>) -> int {
        self.totals[self.total_index(denom)].amount
    }

    /// The recorded aggregate, taking a missing entry as zero.
    pub open spec fn total_or_zero(self, denom: Seq<char>) -> int {
        if self.has_total(denom) {
            self.total_amount(denom)
        } else {
            0
        }
    }

    /// Well-formedness of the state: at most one account per key, every
    /// account valid, an aggregate entry for every account's denomination,
    /// aggregate entries unique, and each equal to the sum of what the
    /// accounts still hold of its denomination.
    pub open spec fn wf(self) -> bool {
        &&& forall|i: int, j: int|
            #![trigger self.accounts[i], self.accounts[j]]
            0 <= i < self.accounts.len() && 0 <= j < self.accounts.len() && i != j ==> !(
            self.accounts[i].address == self.accounts[j].address
                && self.accounts[i].vesting_denom == self.accounts[j].vesting_denom)
        &&& forall|i: int|
            0 <= i < self.accounts.len() ==> account_ok(#[trigger] self.accounts[i])
        &&& forall|i: int|
            0 <= i < self.accounts.len() ==> self.has_total(
                (#[trigger] self.accounts[i]).vesting_denom,
            )
        &&& forall|i: int, j: int|
            #![trigger self.totals[i], self.totals[j]]
            0 <= i < self.totals.len() && 0 <= j < self.totals.len() && i != j
                ==> self.totals[i].denom != self.totals[j].denom
        &&& forall|i: int|
            0 <= i < self.totals.len() ==> (#[trigger] self.totals[i]).amount
                == spec_outstanding_sum(self.accounts, self.totals[i].denom) && 0 <= self.totals[i].amount
                <= u128::MAX
    }
}

impl Ledger {
    /// The empty state: no accounts, no aggregate entries.
    pub fn new() -> (r: Ledger)
        ensures
            r@.accounts.len() == 0,
            r@.totals.len() == 0,
            r@.wf(),
    {
        Ledger { accounts: Vec::new(), totals: Vec::new() }
    }

    /// A field-by-field copy of the state.
    pub fn duplicate(&self) -> (r: Ledger)
        ensures
            r@ == self@,
    {
        let mut accounts: Vec<VestingAccount> = Vec::new();
        let mut i: usize = 0;
        while i < self.accounts.len()
            invariant
                i <= self.accounts.len(),
                accounts@.len() == i,
                forall|j: int| 0 <= j < i ==> accounts@[j] == self.accounts@[j],
            decreases self.accounts.len() - i,
        {
            accounts.push(self.accounts[i].duplicate());
            i = i + 1;
        }
        let mut totals: Vec<DenomTotal> = Vec::new();
        let mut k: usize = 0;
        while k < self.totals.len()
            invariant
                k <= self.totals.len(),
                totals@.len() == k,
                forall|j: int| 0 <= j < k ==> totals@[j] == self.totals@[j],
            decreases self.totals.len() - k,
        {
            let t = &self.totals[k];
            totals.push(DenomTotal { denom: t.denom.clone(), amount: t.amount });
            k = k + 1;
        }
        let r = Ledger { accounts, totals };
        proof {
            assert(r@.accounts =~= self@.accounts);
            assert(r@.totals =~= self@.totals);
        }
        r
    }

    /// Finds the index of the key's account by a linear scan.
    pub fn find_account(&self, address: &String, denom: &String) -> (r: Option<usize>)
        ensures
            match r {
                Some(i) => i < self.accounts@.len() && acct_matches(self@.accounts[i as int], address@, denom@),
                None => !self@.has_account(address@, denom@),
            },
    {
        let mut i: usize = 0;
        while i < self.accounts.len()
            invariant
                i <= self.accounts.len(),
                forall|j: int|
                    0 <= j < i ==> !acct_matches(#[trigger] self@.accounts[j], address@, denom@),
            decreases self.accounts.len() - i,
        {
            let a = &self.accounts[i];
            if a.address == *address && a.vesting_denom == *denom {
                return Some(i);
            }
            i = i + 1;
        }
        None
    }

    /// Finds the index of the denomination's aggregate entry.
    pub fn find_total(&self, denom: &String) -> (r: Option<usize>)
        ensures
            match r {
                Some(i) => i < self.totals@.len() && self@.totals[i as int].denom == denom@,
                None => !self@.has_total(denom@),
            },
    {
        let mut i: usize = 0;
        while i < self.totals.len()
            invariant
                i <= self.totals.len(),
                forall|j: int| 0 <= j < i ==> (#[trigger] self@.totals[j]).denom != denom@,
            decreases self.totals.len() - i,
        {
            if self.totals[i].denom == *denom {
                return Some(i);
            }
            i = i + 1;
        }
        None
    }

    /// The key's account, if one exists.
    pub fn get_account<'a>(&'a self, address: &String, denom: &String) -> (r: Option<
        &'a VestingAccount,
    >)
        ensures
            r is Some <==> self@.has_account(address@, denom@),
            match r {
                Some(a) => acct_matches(a@, address@, denom@) && (self@.wf() ==> a@
                    == self@.account_at(address@, denom@)),
                None => true,
            },
    {
        match self.find_account(address, denom) {
            Some(i) => {
                let a = &self.accounts[i];
                proof {
                    if self@.wf() {
                        let w = self@.account_index(address@, denom@);
                        assert(acct_matches(self@.accounts[w], address@, denom@));
                        assert(w == i as int);
                    }
                }
                Some(a)
            },
            None => None,
        }
    }
}

/// The sum over the given denomination is unchanged by pushing an account,
/// save that account's own contribution.
pub proof fn lemma_sum_push(accounts: Seq<AccountV>, a: AccountV, denom: Seq<char>)
    ensures
        spec_outstanding_sum(accounts.push(a), denom) == spec_outstanding_sum(accounts, denom)
            + outstanding_of(a, denom),
{
    assert(accounts.push(a).drop_last() =~= accounts);
    assert(accounts.push(a).last() == a);
}

/// The sum over the given denomination after replacing one account.
pub proof fn lemma_sum_update(accounts: Seq<AccountV>, i: int, a: AccountV, denom: Seq<char>)
    requires
        0 <= i < accounts.len(),
    ensures
        spec_outstanding_sum(accounts.update(i, a), denom) == spec_outstanding_sum(accounts, denom)
            - outstanding_of(accounts[i], denom) + outstanding_of(a, denom),
    decreases accounts.len(),
{
    let s2 = accounts.update(i, a);
    if i == accounts.len() - 1 {
        assert(s2.drop_last() =~= accounts.drop_last());
        assert(s2.last() == a);
    } else {
        assert(s2.drop_last() =~= accounts.drop_last().update(i, a));
        assert(s2.last() == accounts.last());
        lemma_sum_update(accounts.drop_last(), i, a, denom);
        assert(accounts.drop_last()[i] == accounts[i]);
    }
}

/// The sum over the given denomination after removing one account.
pub proof fn lemma_sum_remove(accounts: Seq<AccountV>, i: int, denom: Seq<char>)
    requires
        0 <= i < accounts.len(),
    ensures
        spec_outstanding_sum(accounts.remove(i), denom) == spec_outstanding_sum(accounts, denom)
            - outstanding_of(accounts[i], denom),
    decreases accounts.len(),
{
    let s2 = accounts.remove(i);
    if i == accounts.len() - 1 {
        assert(s2 =~= accounts.drop_last());
    } else {
        assert(s2.drop_last() =~= accounts.drop_last().remove(i));
        assert(s2.last() == accounts.last());
        lemma_sum_remove(accounts.drop_last(), i, denom);
        assert(accounts.drop_last()[i] == accounts[i]);
    }
}

/// With every account's claimed quantity within its locked quantity, the
/// sum over any denomination is non-negative.
pub proof fn lemma_sum_nonneg(accounts: Seq<AccountV>, denom: Seq<char>)
    requires
        forall|i: int|
            0 <= i < accounts.len() ==> (#[trigger] accounts[i]).claimed_amount
                <= accounts[i].vesting_amount,
    ensures
        spec_outstanding_sum(accounts, denom) >= 0,
    decreases accounts.len(),
{
    if accounts.len() > 0 {
        lemma_sum_nonneg(accounts.drop_last(), denom);
    }
}

/// The sum over a denomination is at least any single account's
/// contribution to it.
pub proof fn lemma_sum_lower_bound(accounts: Seq<AccountV>, i: int, denom: Seq<char>)
    requires
        0 <= i < accounts.len(),
        forall|j: int|
            0 <= j < accounts.len() ==> (#[trigger] accounts[j]).claimed_amount
                <= accounts[j].vesting_amount,
    ensures
        spec_outstanding_sum(accounts, denom) >= outstanding_of(accounts[i], denom),
    decreases accounts.len(),
{
    if i == accounts.len() - 1 {
        lemma_sum_nonneg(accounts.drop_last(), denom);
    } else {
        lemma_sum_lower_bound(accounts.drop_last(), i, denom);
        assert(accounts.drop_last()[i] == accounts[i]);
    }
}

/// With no account holding the denomination, the sum over it is zero.
pub proof fn lemma_sum_zero_when_absent(accounts: Seq<AccountV>, denom: Seq<char>)
    requires
        forall|i: int| 0 <= i < accounts.len() ==> (#[trigger] accounts[i]).vesting_denom != denom,
    ensures
        spec_outstanding_sum(accounts, denom) == 0,
    decreases accounts.len(),
{
    if accounts.len() > 0 {
        lemma_sum_zero_when_absent(accounts.drop_last(), denom);
    }
}

/// The sort key of a tagged denomination: the namespace, a dash, the name.
pub open spec fn spec_denom_key(d: DenomV) -> Seq<char> {
    match d {
        DenomV::Native(name) => "native-"@ + name,
        DenomV::Cw20(addr) => "cw20-"@ + addr,
    }
}

/// Builds the textual sort key of a tagged denomination; this exact form is
/// part of the external interface, as clients pass cursors in it.
pub fn denom_to_key(denom: Denom) -> (r: String)
    ensures
        r@ == spec_denom_key(denom@),
{
    match denom {
        Denom::Native(name) => {
            let mut s = String::from_str("native-");
            s.append(name.as_str());
            s
        },
        Denom::Cw20(addr) => {
            let mut s = String::from_str("cw20-");
            s.append(addr.as_str());
            s
        },
    }
}

} // verus!
