//! Properties that relate several operations, proved over the contracts of
//! the handlers.

use vstd::prelude::*;
use crate::address::Address;
use crate::handlers::{
    Deposit, Initialize, SetAllocation, TransferAuthority, Withdraw, deposit_post, deposit_refusal,
    initialize_refusal, initialized, is_authority, set_allocation_post, set_allocation_refusal,
    transfer_authority_post, transfer_authority_refusal, withdraw_post, withdraw_refusal,
};
use crate::state::{TokenAccount, Vault, VaultError, MAX_ALLOCATION_BPS};

verus! {

/// One call that moves funds through a vault's custody account.
pub enum CustodyCall {
    Deposit(Deposit, u64),
    Withdraw(Withdraw, u64),
}

/// The custody account as the call finds it.
pub open spec fn custody_before(c: CustodyCall) -> TokenAccount {
    match c {
        CustodyCall::Deposit(ctx, _) => ctx.vault_token_account,
        CustodyCall::Withdraw(ctx, _) => ctx.vault_token_account,
    }
}

/// The custody account as the call leaves it.
pub open spec fn custody_after(c: CustodyCall) -> TokenAccount {
    match c {
        CustodyCall::Deposit(ctx, amount) => deposit_post(ctx, amount).vault_token_account,
        CustodyCall::Withdraw(ctx, amount) => withdraw_post(ctx, amount).vault_token_account,
    }
}

/// Whether the call succeeds.
pub open spec fn succeeds(c: CustodyCall) -> bool {
    match c {
        CustodyCall::Deposit(ctx, amount) => deposit_refusal(ctx, amount) is None,
        CustodyCall::Withdraw(ctx, amount) => withdraw_refusal(ctx, amount) is None,
    }
}

/// What a call adds to the custody balance if it succeeds.
pub open spec fn requested_flow(c: CustodyCall) -> int {
    match c {
        CustodyCall::Deposit(_, amount) => amount as int,
        CustodyCall::Withdraw(_, amount) => -(amount as int),
    }
}

/// The sum of deposits less the sum of withdrawals, over the calls that
/// succeed.
pub open spec fn net_flow(calls: Seq<CustodyCall>) -> int
    decreases calls.len(),
{
    if calls.len() == 0 {
        0
    } else {
        net_flow(calls.drop_last()) + if succeeds(calls.last()) {
            requested_flow(calls.last())
        } else {
            0
        }
    }
}

/// Each call finds the custody account as the call before it left it: the
/// calls ran one at a time.
pub open spec fn one_at_a_time(calls: Seq<CustodyCall>) -> bool {
    forall|i: int| 0 <= i < calls.len() - 1 ==> #[trigger] custody_before(calls[i + 1]) == custody_after(calls[i])
}

/// A single call changes the custody balance by exactly its amount when it
/// succeeds, and not at all when it is refused.
pub proof fn lemma_call_moves_requested_flow(c: CustodyCall)
    ensures
        custody_after(c).amount == custody_before(c).amount + if succeeds(c) {
            requested_flow(c)
        } else {
            0
        },
{
}

/// Calls run one at a time against one vault leave the custody balance at its
/// starting value plus the deposits less the withdrawals of exactly the calls
/// that succeeded.
pub proof fn lemma_custody_balance_is_net_of_successes(calls: Seq<CustodyCall>)
    requires
        calls.len() > 0,
        one_at_a_time(calls),
    ensures
        custody_after(calls.last()).amount == custody_before(calls[0]).amount + net_flow(calls),
    decreases calls.len(),
{
    lemma_call_moves_requested_flow(calls.last());
    if calls.len() > 1 {
        let prefix = calls.drop_last();
        assert forall|i: int| 0 <= i < prefix.len() - 1 implies #[trigger] custody_before(prefix[i + 1])
            == custody_after(prefix[i]) by {
            assert(custody_before(calls[i + 1]) == custody_after(calls[i]));
        }
        lemma_custody_balance_is_net_of_successes(prefix);
        let k = calls.len() - 2;
        assert(custody_before(calls[k + 1]) == custody_after(calls[k]));
        assert(prefix.last() == calls[k]);
        assert(prefix[0] == calls[0]);
        assert(custody_before(calls.last()) == custody_after(prefix.last()));
        assert(net_flow(calls) == net_flow(prefix) + if succeeds(calls.last()) {
            requested_flow(calls.last())
        } else {
            0
        });
    } else {
        assert(calls.drop_last().len() == 0);
        assert(net_flow(calls.drop_last()) == 0);
        assert(calls.last() == calls[0]);
    }
}

/// A refused withdrawal, deposit, allocation update or hand-over leaves every
/// account it was given, the custody account and the vault record among them,
/// exactly as it found them.
pub proof fn lemma_refusal_changes_nothing(
    d: Deposit,
    d_amount: u64,
    w: Withdraw,
    w_amount: u64,
    s: SetAllocation,
    bps: u16,
    t: TransferAuthority,
)
    ensures
        deposit_refusal(d, d_amount) is Some ==> deposit_post(d, d_amount) == d,
        withdraw_refusal(w, w_amount) is Some ==> withdraw_post(w, w_amount) == w,
        set_allocation_refusal(s, bps) is Some ==> set_allocation_post(s, bps) == s,
        transfer_authority_refusal(t) is Some ==> transfer_authority_post(t) == t,
{
}

/// Only the vault's current authority can withdraw, set the allocation or
/// hand the authority over.
pub proof fn lemma_only_authority_succeeds(
    w: Withdraw,
    amount: u64,
    s: SetAllocation,
    bps: u16,
    t: TransferAuthority,
)
    ensures
        withdraw_refusal(w, amount) is None ==> is_authority(w.vault, w.authority),
        set_allocation_refusal(s, bps) is None ==> is_authority(s.vault, s.authority),
        transfer_authority_refusal(t) is None ==> is_authority(t.vault, t.authority),
{
}

/// Once the authority has been handed over to someone else, the former
/// authority is refused at the very next withdrawal, allocation update or
/// hand-over on the updated vault.
pub proof fn lemma_former_authority_loses_power(
    t: TransferAuthority,
    w: Withdraw,
    amount: u64,
    s: SetAllocation,
    bps: u16,
    t2: TransferAuthority,
)
    requires
        transfer_authority_refusal(t) is None,
        t.new_authority@ != t.authority@,
        w.vault == transfer_authority_post(t).vault,
        w.authority == t.authority,
        s.vault == transfer_authority_post(t).vault,
        s.authority == t.authority,
        t2.vault == transfer_authority_post(t).vault,
        t2.authority == t.authority,
    ensures
        withdraw_refusal(w, amount) is Some,
        set_allocation_refusal(s, bps) == Some(VaultError::Unauthorized),
        transfer_authority_refusal(t2) == Some(VaultError::Unauthorized),
{
}

/// For the authority, setting the allocation succeeds exactly when it lies
/// in `0..=10000` basis points, and then stores it unchanged; the record
/// stays within that range whatever happens.
pub proof fn lemma_allocation_bound(s: SetAllocation, bps: u16)
    requires
        is_authority(s.vault, s.authority),
    ensures
        set_allocation_refusal(s, bps) is None <==> bps <= MAX_ALLOCATION_BPS,
        set_allocation_refusal(s, bps) is None ==> set_allocation_post(s, bps).vault.target_allocation_bps == bps,
        s.vault.wf() ==> set_allocation_post(s, bps).vault.wf(),
{
}

/// After one successful creation, a second creation at the same derived
/// address is refused with `AlreadyExists`; being refused, it leaves the
/// record as the first call set it.
pub proof fn lemma_second_initialize_refused(
    first: Initialize,
    second: Initialize,
    r: Result<Address, VaultError>,
)
    requires
        initialize_refusal(first) is None,
        initialized(first, second, r),
    ensures
        initialize_refusal(second) == Some(VaultError::AlreadyExists),
{
}

/// The stored form of a record has the fixed size, and determines the
/// record: what is written reads back as the same record.
pub proof fn lemma_record_layout_round_trip(v: Vault, w: Vault)
    ensures
        v.body().len() == Vault::BODY_LEN,
        v.body() == w.body() ==> v == w,
{
    if v.body() == w.body() {
        let b = v.body();
        assert(v.authority@ =~= b.subrange(0, 32));
        assert(w.authority@ =~= b.subrange(0, 32));
        assert(v.usdc_mint@ =~= b.subrange(32, 64));
        assert(w.usdc_mint@ =~= b.subrange(32, 64));
        assert(v.vault_token_account@ =~= b.subrange(64, 96));
        assert(w.vault_token_account@ =~= b.subrange(64, 96));
        assert(v.authority.bytes =~= w.authority.bytes);
        assert(v.usdc_mint.bytes =~= w.usdc_mint.bytes);
        assert(v.vault_token_account.bytes =~= w.vault_token_account.bytes);
        assert(b[96] == w.body()[96] && b[97] == w.body()[97]);
        assert(v.target_allocation_bps == w.target_allocation_bps);
        assert(b[98] == w.body()[98] && b[99] == w.body()[99]);
        assert(v.authority == w.authority && v.usdc_mint == w.usdc_mint);
        assert(v.vault_token_account == w.vault_token_account);
    }
}

} // verus!
