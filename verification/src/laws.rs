//! Laws of the ledger: the aggregate/sum correspondence, key uniqueness,
//! idempotence of claiming, and the round trip of registering and
//! immediately deregistering.

use vstd::prelude::*;

use crate::contract::AttributeV;
use crate::contract::TransferIntentV;
use crate::contract::lemma_claim_apply_wf;
use crate::contract::spec_claim;
use crate::contract::spec_claim_apply;
use crate::contract::spec_claim_walk;
use crate::contract::spec_deregister;
use crate::contract::spec_register;
use crate::contract::spec_validate_schedule;
use crate::msg::CoinV;
use crate::msg::VestingSchedule;
use crate::msg::spec_start_time;
use crate::msg::spec_vested_amount;
use crate::msg::spec_vested_ok;
use crate::state::AccountV;
use crate::state::LedgerV;
use crate::state::TotalV;
use crate::state::acct_matches;
use crate::state::spec_outstanding_sum;

verus! {

/// In a well-formed state, every denomination's aggregate entry equals the
/// sum of `vesting_amount - claimed_amount` over the live accounts of that
/// denomination. Each operation's contract states that it preserves
/// well-formedness, so this holds after any sequence of successful
/// operations.
pub proof fn lemma_denom_total_matches_outstanding(lv: LedgerV, denom: Seq<char>)
    requires
        lv.wf(),
        lv.has_total(denom),
    ensures
        lv.total_amount(denom) == spec_outstanding_sum(lv.accounts, denom),
{
    let k = lv.total_index(denom);
    assert(0 <= k < lv.totals.len() && lv.totals[k].denom == denom);
}

/// In a well-formed state, at most one account exists per
/// `(beneficiary, denom)` pair.
pub proof fn lemma_account_key_unique(lv: LedgerV, i: int, j: int)
    requires
        lv.wf(),
        0 <= i < lv.accounts.len(),
        0 <= j < lv.accounts.len(),
        lv.accounts[i].address == lv.accounts[j].address,
        lv.accounts[i].vesting_denom == lv.accounts[j].vesting_denom,
    ensures
        i == j,
{
}

/// Whether the key's account, if any, has nothing left to claim at the
/// block time: its claimed quantity already equals the vested one.
pub open spec fn claim_settled(
    lv: LedgerV,
    block_time: u64,
    sender: Seq<char>,
    d: Seq<char>,
) -> bool {
    lv.has_account(sender, d) ==> {
        let a = lv.account_at(sender, d);
        &&& spec_vested_ok(a.vesting_schedule, block_time)
        &&& a.claimed_amount == spec_vested_amount(a.vesting_schedule, block_time)
    }
}

/// How one claim step changes the accounts as seen through a key: the
/// claimed key's account is raised to the vested quantity or removed, and
/// every other key of the sender is untouched.
proof fn lemma_claim_apply_at(
    lv: LedgerV,
    block_time: u64,
    sender: Seq<char>,
    d: Seq<char>,
    v: int,
    d0: Seq<char>,
)
    requires
        lv.wf(),
        lv.has_account(sender, d),
        lv.has_total(d),
        v == spec_vested_amount(lv.account_at(sender, d).vesting_schedule, block_time),
        lv.account_at(sender, d).claimed_amount < v,
    ensures
        ({
            let lv2 = spec_claim_apply(lv, sender, d, v);
            let a = lv.account_at(sender, d);
            &&& (d0 == d ==> (if v == a.vesting_amount {
                !lv2.has_account(sender, d0)
            } else {
                lv2.has_account(sender, d0) && lv2.account_at(sender, d0) == AccountV {
                    claimed_amount: v,
                    ..a
                }
            }))
            &&& (d0 != d ==> ((lv2.has_account(sender, d0) <==> lv.has_account(sender, d0)) && (
            lv.has_account(sender, d0) ==> lv2.account_at(sender, d0) == lv.account_at(
                sender,
                d0,
            ))))
        }),
{
    lemma_claim_apply_wf(lv, block_time, sender, d, v);
    let lv2 = spec_claim_apply(lv, sender, d, v);
    let idx = lv.account_index(sender, d);
    let a = lv.accounts[idx];
    assert(0 <= idx < lv.accounts.len() && acct_matches(a, sender, d));
    if v == a.vesting_amount {
        assert(forall|j: int|
            0 <= j < lv2.accounts.len() ==> #[trigger] lv2.accounts[j] == (if j < idx {
                lv.accounts[j]
            } else {
                lv.accounts[j + 1]
            }));
        if d0 == d {
            if lv2.has_account(sender, d0) {
                let w = lv2.account_index(sender, d0);
                assert(acct_matches(lv2.accounts[w], sender, d0));
                if w < idx {
                    assert(acct_matches(lv.accounts[w], sender, d));
                } else {
                    assert(acct_matches(lv.accounts[w + 1], sender, d));
                }
            }
        } else {
            if lv.has_account(sender, d0) {
                let w = lv.account_index(sender, d0);
                assert(acct_matches(lv.accounts[w], sender, d0));
                assert(w != idx);
                if w < idx {
                    assert(lv2.accounts[w] == lv.accounts[w]);
                    assert(lv2.has_account(sender, d0));
                } else {
                    assert(lv2.accounts[w - 1] == lv.accounts[w]);
                    assert(acct_matches(lv2.accounts[w - 1], sender, d0));
                    assert(lv2.has_account(sender, d0));
                }
            }
            if lv2.has_account(sender, d0) {
                let w2 = lv2.account_index(sender, d0);
                assert(acct_matches(lv2.accounts[w2], sender, d0));
                if w2 < idx {
                    assert(acct_matches(lv.accounts[w2], sender, d0));
                    assert(lv.has_account(sender, d0));
                    assert(lv.account_index(sender, d0) == w2);
                    assert(lv2.account_at(sender, d0) == lv.account_at(sender, d0));
                } else {
                    assert(acct_matches(lv.accounts[w2 + 1], sender, d0));
                    assert(lv.has_account(sender, d0));
                    assert(lv.account_index(sender, d0) == w2 + 1);
                    assert(lv2.account_at(sender, d0) == lv.account_at(sender, d0));
                }
            }
        }
    } else {
        let a2 = AccountV { claimed_amount: v, ..a };
        assert(lv2.accounts == lv.accounts.update(idx, a2));
        assert(forall|j: int|
            0 <= j < lv2.accounts.len() ==> #[trigger] lv2.accounts[j] == (if j == idx {
                a2
            } else {
                lv.accounts[j]
            }));
        if d0 == d {
            assert(acct_matches(lv2.accounts[idx], sender, d0));
            assert(lv2.has_account(sender, d0));
            let w = lv2.account_index(sender, d0);
            assert(acct_matches(lv2.accounts[w], sender, d0));
            if w != idx {
                assert(acct_matches(lv.accounts[w], sender, d0));
            }
            assert(lv2.account_at(sender, d0) == a2);
        } else {
            if lv.has_account(sender, d0) {
                let w = lv.account_index(sender, d0);
                assert(acct_matches(lv.accounts[w], sender, d0));
                assert(w != idx);
                assert(acct_matches(lv2.accounts[w], sender, d0));
                assert(lv2.has_account(sender, d0));
            }
            if lv2.has_account(sender, d0) {
                let w2 = lv2.account_index(sender, d0);
                assert(acct_matches(lv2.accounts[w2], sender, d0));
                assert(w2 != idx);
                assert(acct_matches(lv.accounts[w2], sender, d0));
                assert(lv.has_account(sender, d0));
                assert(lv.account_index(sender, d0) == w2);
                assert(lv2.account_at(sender, d0) == lv.account_at(sender, d0));
            }
        }
    }
}

/// A successful claim walk leaves a well-formed state in which every
/// processed denomination is settled, and it never unsettles a key.
proof fn lemma_claim_walk_settles(
    lv: LedgerV,
    block_time: u64,
    sender: Seq<char>,
    recipient: Seq<char>,
    denoms: Seq<Seq<char>>,
    msgs: Seq<TransferIntentV>,
    attrs: Seq<AttributeV>,
)
    requires
        lv.wf(),
        spec_claim_walk(lv, block_time, sender, recipient, denoms, msgs, attrs) is Ok,
    ensures
        ({
            let lv2 = spec_claim_walk(lv, block_time, sender, recipient, denoms, msgs, attrs)->Ok_0.0;
            &&& lv2.wf()
            &&& forall|j: int|
                0 <= j < denoms.len() ==> claim_settled(lv2, block_time, sender, #[trigger] denoms[j])
            &&& forall|d0: Seq<char>|
                claim_settled(lv, block_time, sender, d0) ==> #[trigger] claim_settled(
                    lv2,
                    block_time,
                    sender,
                    d0,
                )
        }),
    decreases denoms.len(),
{
    if denoms.len() == 0 {
    } else {
        let d = denoms[0];
        let a = lv.account_at(sender, d);
        let v = spec_vested_amount(a.vesting_schedule, block_time);
        if v == a.claimed_amount {
            lemma_claim_walk_settles(
                lv,
                block_time,
                sender,
                recipient,
                denoms.drop_first(),
                msgs,
                attrs,
            );
            let lv2 = spec_claim_walk(
                lv,
                block_time,
                sender,
                recipient,
                denoms,
                msgs,
                attrs,
            )->Ok_0.0;
            assert(claim_settled(lv, block_time, sender, d));
            assert(claim_settled(lv2, block_time, sender, d));
            assert(forall|j: int|
                0 <= j < denoms.len() ==> denoms[j] == (if j == 0 {
                    d
                } else {
                    denoms.drop_first()[j - 1]
                }));
        } else {
            let c = v - a.claimed_amount;
            let lv1 = spec_claim_apply(lv, sender, d, v);
            lemma_claim_apply_wf(lv, block_time, sender, d, v);
            let msgs2 = msgs.push(TransferIntentV { to_address: recipient, denom: d, amount: c });
            let attrs2 = attrs + seq![
                crate::contract::spec_attr("vesting_denom"@, crate::text::json_string_of(d)),
                crate::contract::spec_attr("vesting_amount"@, crate::text::dec_of(a.vesting_amount)),
                crate::contract::spec_attr("vested_amount"@, crate::text::dec_of(v)),
                crate::contract::spec_attr("claim_amount"@, crate::text::dec_of(c)),
            ];
            lemma_claim_walk_settles(
                lv1,
                block_time,
                sender,
                recipient,
                denoms.drop_first(),
                msgs2,
                attrs2,
            );
            let lv2 = spec_claim_walk(
                lv,
                block_time,
                sender,
                recipient,
                denoms,
                msgs,
                attrs,
            )->Ok_0.0;
            assert(lv2 == spec_claim_walk(
                lv1,
                block_time,
                sender,
                recipient,
                denoms.drop_first(),
                msgs2,
                attrs2,
            )->Ok_0.0);
            assert(claim_settled(lv1, block_time, sender, d)) by {
                lemma_claim_apply_at(lv, block_time, sender, d, v, d);
            }
            assert(claim_settled(lv2, block_time, sender, d));
            assert forall|d0: Seq<char>|
                claim_settled(lv, block_time, sender, d0) implies #[trigger] claim_settled(
                lv1,
                block_time,
                sender,
                d0,
            ) by {
                lemma_claim_apply_at(lv, block_time, sender, d, v, d0);
            }
            assert(forall|j: int|
                0 <= j < denoms.len() ==> denoms[j] == (if j == 0 {
                    d
                } else {
                    denoms.drop_first()[j - 1]
                }));
        }
    }
}

/// A claim walk over denominations that are all settled either fails or
/// changes nothing and emits nothing.
proof fn lemma_claim_walk_noop(
    lv: LedgerV,
    block_time: u64,
    sender: Seq<char>,
    recipient: Seq<char>,
    denoms: Seq<Seq<char>>,
    msgs: Seq<TransferIntentV>,
    attrs: Seq<AttributeV>,
)
    requires
        lv.wf(),
        forall|j: int|
            0 <= j < denoms.len() ==> claim_settled(lv, block_time, sender, #[trigger] denoms[j]),
    ensures
        ({
            let r = spec_claim_walk(lv, block_time, sender, recipient, denoms, msgs, attrs);
            r is Ok ==> r->Ok_0 == (lv, msgs, attrs)
        }),
    decreases denoms.len(),
{
    if denoms.len() == 0 {
    } else {
        let d = denoms[0];
        if lv.has_account(sender, d) {
            assert(claim_settled(lv, block_time, sender, d));
            assert(forall|j: int|
                0 <= j < denoms.drop_first().len() ==> #[trigger] denoms.drop_first()[j] == denoms[j
                    + 1]);
            lemma_claim_walk_noop(
                lv,
                block_time,
                sender,
                recipient,
                denoms.drop_first(),
                msgs,
                attrs,
            );
        }
    }
}

/// Claiming twice at the same block time: if the second claim succeeds at
/// all, it emits no transfer and leaves the state exactly as the first
/// claim left it. (When the first claim removed an exhausted account, the
/// second fails with `NotFound` instead, and a failed operation commits
/// nothing.)
pub proof fn lemma_claim_idempotent(
    lv: LedgerV,
    block_time: u64,
    sender: Seq<char>,
    funds: Seq<CoinV>,
    denoms: Seq<Seq<char>>,
    recipient: Option<Seq<char>>,
)
    requires
        lv.wf(),
        spec_claim(lv, block_time, sender, funds, denoms, recipient) is Ok,
    ensures
        ({
            let lv1 = spec_claim(lv, block_time, sender, funds, denoms, recipient)->Ok_0.0;
            let r2 = spec_claim(lv1, block_time, sender, funds, denoms, recipient);
            r2 is Ok ==> r2->Ok_0.0 == lv1 && r2->Ok_0.1.messages == Seq::<TransferIntentV>::empty()
        }),
{
    let rcpt = match recipient {
        Option::Some(r) => r,
        Option::None => sender,
    };
    let w1 = spec_claim_walk(lv, block_time, sender, rcpt, denoms, Seq::empty(), Seq::empty());
    lemma_claim_walk_settles(lv, block_time, sender, rcpt, denoms, Seq::empty(), Seq::empty());
    let lv1 = w1->Ok_0.0;
    lemma_claim_walk_noop(lv1, block_time, sender, rcpt, denoms, Seq::empty(), Seq::empty());
}

/// Registering and deregistering at the schedule's start time is a round
/// trip: the accounts return to what they were, the denomination's
/// aggregate returns to its prior value, and the single emitted transfer
/// returns the full deposit to the master address.
pub proof fn lemma_register_then_deregister(
    lv: LedgerV,
    block_time: u64,
    master_address: Seq<char>,
    address: Seq<char>,
    denom: Seq<char>,
    deposit: int,
    schedule: VestingSchedule,
    t: u64,
)
    requires
        lv.wf(),
        deposit >= 1,
        t == spec_start_time(schedule),
        spec_register(lv, block_time, master_address, address, denom, deposit, schedule) is Ok,
    ensures
        ({
            let lv1 = spec_register(
                lv,
                block_time,
                master_address,
                address,
                denom,
                deposit,
                schedule,
            )->Ok_0.0;
            let r2 = spec_deregister(lv1, t, address, denom, Option::None, Seq::empty());
            &&& r2 is Ok
            &&& r2->Ok_0.0.accounts == lv.accounts
            &&& r2->Ok_0.0.total_or_zero(denom) == lv.total_or_zero(denom)
            &&& r2->Ok_0.1.messages == seq![
                TransferIntentV { to_address: master_address, denom, amount: deposit },
            ]
        }),
{
    let lv1 = spec_register(lv, block_time, master_address, address, denom, deposit, schedule)->Ok_0.0;
    let acct = AccountV {
        master_address,
        address,
        vesting_denom: denom,
        vesting_amount: deposit,
        vesting_schedule: schedule,
        claimed_amount: 0,
    };
    let t0 = lv.total_or_zero(denom);
    let entry = TotalV { denom, amount: t0 + deposit };
    assert(lv1.accounts == lv.accounts.push(acct));
    let n = lv.accounts.len() as int;
    // the new account is the only match for the key
    assert forall|i: int| 0 <= i < n implies !acct_matches(
        #[trigger] lv1.accounts[i],
        address,
        denom,
    ) by {
        assert(lv1.accounts[i] == lv.accounts[i]);
        if acct_matches(lv.accounts[i], address, denom) {
            assert(lv.has_account(address, denom));
        }
    }
    assert(acct_matches(lv1.accounts[n], address, denom));
    assert(lv1.has_account(address, denom));
    let w = lv1.account_index(address, denom);
    assert(acct_matches(lv1.accounts[w], address, denom));
    assert(w == n);
    assert(lv1.account_at(address, denom) == acct);
    // schedule validity, for the vested quantity at the start time
    assert(spec_validate_schedule(schedule, block_time, deposit) is None);
    crate::msg::lemma_vested_zero_before_start(schedule, t);
    assert(spec_vested_amount(schedule, t) == 0);
    assert(spec_vested_ok(schedule, t));
    // the aggregate entry for the denomination in lv1
    if lv.has_total(denom) {
        let k = lv.total_index(denom);
        assert(0 <= k < lv.totals.len() && lv.totals[k].denom == denom);
        assert(lv1.totals == lv.totals.update(k, entry));
        assert(lv1.totals[k].denom == denom);
        assert(lv1.has_total(denom));
        let k1 = lv1.total_index(denom);
        assert(lv1.totals[k1].denom == denom);
        assert forall|i: int, j: int|
            #![trigger lv1.totals[i], lv1.totals[j]]
            0 <= i < lv1.totals.len() && 0 <= j < lv1.totals.len() && i != j implies lv1.totals[i].denom
            != lv1.totals[j].denom by {
            assert(lv1.totals[i].denom == lv.totals[i].denom);
            assert(lv1.totals[j].denom == lv.totals[j].denom);
        }
        assert(k1 == k);
        assert(lv1.total_amount(denom) == t0 + deposit);
        assert(t0 >= 0);
        let r2 = spec_deregister(lv1, t, address, denom, Option::None, Seq::empty());
        assert(r2 is Ok);
        let lv2 = r2->Ok_0.0;
        assert(lv2.accounts =~= lv.accounts);
        assert(lv2.totals =~= lv.totals);
        assert(lv2.total_or_zero(denom) == lv.total_or_zero(denom));
        assert(r2->Ok_0.1.messages =~= seq![
            TransferIntentV { to_address: master_address, denom, amount: deposit },
        ]);
    } else {
        let m = lv.totals.len() as int;
        assert(lv1.totals == lv.totals.push(TotalV { denom, amount: t0 + deposit }));
        assert(lv1.totals[m].denom == denom);
        assert(lv1.has_total(denom));
        assert forall|i: int| 0 <= i < m implies (#[trigger] lv1.totals[i]).denom != denom by {
            assert(lv1.totals[i] == lv.totals[i]);
            if lv.totals[i].denom == denom {
                assert(lv.has_total(denom));
            }
        }
        let k1 = lv1.total_index(denom);
        assert(lv1.totals[k1].denom == denom);
        assert(k1 == m);
        assert(lv1.total_amount(denom) == deposit);
        let r2 = spec_deregister(lv1, t, address, denom, Option::None, Seq::empty());
        assert(r2 is Ok);
        let lv2 = r2->Ok_0.0;
        assert(lv2.accounts =~= lv.accounts);
        assert(lv2.total_or_zero(denom) == 0);
        assert(r2->Ok_0.1.messages =~= seq![
            TransferIntentV { to_address: master_address, denom, amount: deposit },
        ]);
    }
}

} // verus!
