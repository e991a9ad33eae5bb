//! The vault's operations. Each checks the supplied accounts, then the
//! caller's authority, then the values, then balances, and only then moves
//! funds and changes the record; a refused operation changes nothing.

use vstd::prelude::*;
use crate::address::{
    Address, find_vault_address, find_vault_token_address, program_address_of, vault_seeds,
    vault_token_seeds,
};
use crate::custody::{transfer, transfer_refusal, with_amount};
use crate::events::{AllocationUpdatedEvent, AuthorityTransferredEvent, DepositEvent, WithdrawEvent};
use crate::state::{
    TokenAccount, Vault, VaultError, DEFAULT_ALLOCATION_BPS, MAX_ALLOCATION_BPS,
};

verus! {

/// Accounts of vault creation. `vault` and `vault_token_account` are what is
/// stored at the derived addresses, if anything.
#[derive(Clone, Copy, Debug)]
pub struct Initialize {
    pub authority: Address,
    pub usdc_mint: Address,
    pub program_id: Address,
    pub vault: Option<Vault>,
    pub vault_token_account: Option<TokenAccount>,
}

/// Accounts of a deposit.
#[derive(Clone, Copy, Debug)]
pub struct Deposit {
    pub depositor: Address,
    pub vault: Vault,
    pub depositor_token_account: TokenAccount,
    pub vault_token_account: TokenAccount,
}

/// Accounts of a withdrawal. `vault_address` is the vault's own identity,
/// which authorizes transfers out of the custody account.
#[derive(Clone, Copy, Debug)]
pub struct Withdraw {
    pub authority: Address,
    pub recipient: Address,
    pub vault_address: Address,
    pub vault: Vault,
    pub vault_token_account: TokenAccount,
    pub recipient_token_account: TokenAccount,
}

/// Accounts of an allocation update.
#[derive(Clone, Copy, Debug)]
pub struct SetAllocation {
    pub authority: Address,
    pub vault: Vault,
}

/// Accounts of an authority hand-over.
#[derive(Clone, Copy, Debug)]
pub struct TransferAuthority {
    pub authority: Address,
    pub new_authority: Address,
    pub vault: Vault,
}

/// Accounts of a balance query.
#[derive(Clone, Copy, Debug)]
pub struct GetBalance {
    pub vault: Vault,
    pub vault_token_account: TokenAccount,
}

/// Whether `caller` is the vault's current authority.
pub open spec fn is_authority(vault: Vault, caller: Address) -> bool {
    caller@ == vault.authority@
}

/// The refusal, if any, of creating a vault from `ctx`.
pub open spec fn initialize_refusal(ctx: Initialize) -> Option<VaultError> {
    if ctx.vault is Some || ctx.vault_token_account is Some {
        Some(VaultError::AlreadyExists)
    } else if program_address_of(vault_seeds(), ctx.program_id@) is None {
        Some(VaultError::AddressDerivationFailed)
    } else if program_address_of(
        vault_token_seeds(program_address_of(vault_seeds(), ctx.program_id@)->Some_0.0),
        ctx.program_id@,
    ) is None {
        Some(VaultError::AddressDerivationFailed)
    } else {
        None
    }
}

/// What a successful creation from `pre` leaves: the record and an empty
/// custody account at the derived addresses, and the vault's address as result.
pub open spec fn initialized(pre: Initialize, post: Initialize, r: Result<Address, VaultError>) -> bool {
    r is Ok && {
        let (v, b) = program_address_of(vault_seeds(), pre.program_id@)->Some_0;
        let (t, tb) = program_address_of(vault_token_seeds(v), pre.program_id@)->Some_0;
        &&& r->Ok_0@ == v
        &&& post.authority == pre.authority
        &&& post.usdc_mint == pre.usdc_mint
        &&& post.program_id == pre.program_id
        &&& post.vault matches Some(rec) && {
            &&& rec.authority == pre.authority
            &&& rec.usdc_mint == pre.usdc_mint
            &&& rec.vault_token_account@ == t
            &&& rec.target_allocation_bps == DEFAULT_ALLOCATION_BPS
            &&& rec.bump == b
            &&& rec.token_bump == tb
        }
        &&& post.vault_token_account matches Some(acc) && {
            &&& acc.key@ == t
            &&& acc.mint == pre.usdc_mint
            &&& acc.owner@ == v
            &&& acc.amount == 0
        }
    }
}

/// Creates the vault record and its empty custody account at their derived
/// addresses, with the default allocation, and returns the vault's address.
pub fn initialize(ctx: &mut Initialize) -> (r: Result<Address, VaultError>)
    ensures
        match initialize_refusal(*old(ctx)) {
            Some(e) => r == Err::<Address, VaultError>(e) && *final(ctx) == *old(ctx),
            None => initialized(*old(ctx), *final(ctx), r),
        },
{
    if ctx.vault.is_some() || ctx.vault_token_account.is_some() {
        return Err(VaultError::AlreadyExists);
    }
    let (vault_address, bump) = match find_vault_address(&ctx.program_id) {
        Some(found) => found,
        None => return Err(VaultError::AddressDerivationFailed),
    };
    let (token_address, token_bump) = match find_vault_token_address(&vault_address, &ctx.program_id) {
        Some(found) => found,
        None => return Err(VaultError::AddressDerivationFailed),
    };
    ctx.vault = Some(Vault {
        authority: ctx.authority,
        usdc_mint: ctx.usdc_mint,
        vault_token_account: token_address,
        target_allocation_bps: DEFAULT_ALLOCATION_BPS,
        bump,
        token_bump,
    });
    ctx.vault_token_account = Some(TokenAccount {
        key: token_address,
        mint: ctx.usdc_mint,
        owner: vault_address,
        amount: 0,
    });
    Ok(vault_address)
}

/// The refusal, if any, of depositing `amount` with `ctx`.
pub open spec fn deposit_refusal(ctx: Deposit, amount: u64) -> Option<VaultError> {
    if ctx.vault_token_account.key@ != ctx.vault.vault_token_account@ {
        Some(VaultError::InvalidVaultTokenAccount)
    } else if ctx.depositor_token_account.owner@ != ctx.depositor@ {
        Some(VaultError::InvalidTokenAccount)
    } else if ctx.depositor_token_account.mint@ != ctx.vault.usdc_mint@ {
        Some(VaultError::InvalidMint)
    } else if amount == 0 {
        Some(VaultError::ZeroAmount)
    } else {
        match transfer_refusal(ctx.depositor_token_account, ctx.vault_token_account, ctx.depositor, amount) {
            Some(e) => Some(VaultError::Transfer(e)),
            None => None,
        }
    }
}

/// The accounts after depositing `amount` with `ctx`: unchanged when refused.
pub open spec fn deposit_post(ctx: Deposit, amount: u64) -> Deposit {
    if deposit_refusal(ctx, amount) is Some {
        ctx
    } else {
        Deposit {
            depositor_token_account: with_amount(
                ctx.depositor_token_account,
                ctx.depositor_token_account.amount - amount,
            ),
            vault_token_account: with_amount(ctx.vault_token_account, ctx.vault_token_account.amount + amount),
            ..ctx
        }
    }
}

/// Moves `amount` from the depositor's account into the custody account.
pub fn deposit(ctx: &mut Deposit, amount: u64, timestamp: i64) -> (r: Result<DepositEvent, VaultError>)
    ensures
        *final(ctx) == deposit_post(*old(ctx), amount),
        match deposit_refusal(*old(ctx), amount) {
            Some(e) => r == Err::<DepositEvent, VaultError>(e),
            None => r == Ok::<DepositEvent, VaultError>(
                DepositEvent { depositor: old(ctx).depositor, amount, timestamp },
            ),
        },
{
    if ctx.vault_token_account.key != ctx.vault.vault_token_account {
        return Err(VaultError::InvalidVaultTokenAccount);
    }
    if ctx.depositor_token_account.owner != ctx.depositor {
        return Err(VaultError::InvalidTokenAccount);
    }
    if ctx.depositor_token_account.mint != ctx.vault.usdc_mint {
        return Err(VaultError::InvalidMint);
    }
    if amount == 0 {
        return Err(VaultError::ZeroAmount);
    }
    let depositor = ctx.depositor;
    match transfer(&mut ctx.depositor_token_account, &mut ctx.vault_token_account, &depositor, amount) {
        Ok(()) => Ok(DepositEvent { depositor, amount, timestamp }),
        Err(e) => Err(VaultError::Transfer(e)),
    }
}

/// The refusal, if any, of withdrawing `amount` with `ctx`.
pub open spec fn withdraw_refusal(ctx: Withdraw, amount: u64) -> Option<VaultError> {
    if ctx.vault_token_account.key@ != ctx.vault.vault_token_account@ {
        Some(VaultError::InvalidVaultTokenAccount)
    } else if ctx.recipient_token_account.owner@ != ctx.recipient@ {
        Some(VaultError::InvalidTokenAccount)
    } else if ctx.recipient_token_account.mint@ != ctx.vault.usdc_mint@ {
        Some(VaultError::InvalidMint)
    } else if !is_authority(ctx.vault, ctx.authority) {
        Some(VaultError::Unauthorized)
    } else if amount == 0 {
        Some(VaultError::ZeroAmount)
    } else if ctx.vault_token_account.amount < amount {
        Some(VaultError::InsufficientBalance)
    } else {
        match transfer_refusal(ctx.vault_token_account, ctx.recipient_token_account, ctx.vault_address, amount) {
            Some(e) => Some(VaultError::Transfer(e)),
            None => None,
        }
    }
}

/// The accounts after withdrawing `amount` with `ctx`: unchanged when refused.
pub open spec fn withdraw_post(ctx: Withdraw, amount: u64) -> Withdraw {
    if withdraw_refusal(ctx, amount) is Some {
        ctx
    } else {
        Withdraw {
            vault_token_account: with_amount(ctx.vault_token_account, ctx.vault_token_account.amount - amount),
            recipient_token_account: with_amount(
                ctx.recipient_token_account,
                ctx.recipient_token_account.amount + amount,
            ),
            ..ctx
        }
    }
}

/// Moves `amount` from the custody account to the recipient's account, on
/// the authority's request and with the vault's own identity as authorizer.
pub fn withdraw(ctx: &mut Withdraw, amount: u64, timestamp: i64) -> (r: Result<WithdrawEvent, VaultError>)
    ensures
        *final(ctx) == withdraw_post(*old(ctx), amount),
        match withdraw_refusal(*old(ctx), amount) {
            Some(e) => r == Err::<WithdrawEvent, VaultError>(e),
            None => r == Ok::<WithdrawEvent, VaultError>(
                WithdrawEvent { recipient: old(ctx).recipient, amount, timestamp },
            ),
        },
{
    if ctx.vault_token_account.key != ctx.vault.vault_token_account {
        return Err(VaultError::InvalidVaultTokenAccount);
    }
    if ctx.recipient_token_account.owner != ctx.recipient {
        return Err(VaultError::InvalidTokenAccount);
    }
    if ctx.recipient_token_account.mint != ctx.vault.usdc_mint {
        return Err(VaultError::InvalidMint);
    }
    if ctx.authority != ctx.vault.authority {
        return Err(VaultError::Unauthorized);
    }
    if amount == 0 {
        return Err(VaultError::ZeroAmount);
    }
    if ctx.vault_token_account.amount < amount {
        return Err(VaultError::InsufficientBalance);
    }
    let signer = ctx.vault_address;
    match transfer(&mut ctx.vault_token_account, &mut ctx.recipient_token_account, &signer, amount) {
        Ok(()) => Ok(WithdrawEvent { recipient: ctx.recipient, amount, timestamp }),
        Err(e) => Err(VaultError::Transfer(e)),
    }
}

/// The refusal, if any, of setting the allocation to `bps` with `ctx`.
pub open spec fn set_allocation_refusal(ctx: SetAllocation, bps: u16) -> Option<VaultError> {
    if !is_authority(ctx.vault, ctx.authority) {
        Some(VaultError::Unauthorized)
    } else if bps > MAX_ALLOCATION_BPS {
        Some(VaultError::InvalidAllocation)
    } else {
        None
    }
}

/// The accounts after setting the allocation to `bps` with `ctx`: unchanged when refused.
pub open spec fn set_allocation_post(ctx: SetAllocation, bps: u16) -> SetAllocation {
    if set_allocation_refusal(ctx, bps) is Some {
        ctx
    } else {
        SetAllocation { vault: Vault { target_allocation_bps: bps, ..ctx.vault }, ..ctx }
    }
}

/// Sets the vault's allocation share to `allocation_bps`.
pub fn set_target_allocation(ctx: &mut SetAllocation, allocation_bps: u16, timestamp: i64) -> (r: Result<AllocationUpdatedEvent, VaultError>)
    ensures
        *final(ctx) == set_allocation_post(*old(ctx), allocation_bps),
        match set_allocation_refusal(*old(ctx), allocation_bps) {
            Some(e) => r == Err::<AllocationUpdatedEvent, VaultError>(e),
            None => r == Ok::<AllocationUpdatedEvent, VaultError>(
                AllocationUpdatedEvent {
                    old_allocation_bps: old(ctx).vault.target_allocation_bps,
                    new_allocation_bps: allocation_bps,
                    timestamp,
                },
            ),
        },
{
    if ctx.authority != ctx.vault.authority {
        return Err(VaultError::Unauthorized);
    }
    if allocation_bps > MAX_ALLOCATION_BPS {
        return Err(VaultError::InvalidAllocation);
    }
    let old_allocation = ctx.vault.target_allocation_bps;
    ctx.vault.target_allocation_bps = allocation_bps;
    Ok(AllocationUpdatedEvent {
        old_allocation_bps: old_allocation,
        new_allocation_bps: allocation_bps,
        timestamp,
    })
}

/// The refusal, if any, of handing the authority over with `ctx`.
pub open spec fn transfer_authority_refusal(ctx: TransferAuthority) -> Option<VaultError> {
    if !is_authority(ctx.vault, ctx.authority) {
        Some(VaultError::Unauthorized)
    } else {
        None
    }
}

/// The accounts after handing the authority over with `ctx`: unchanged when refused.
pub open spec fn transfer_authority_post(ctx: TransferAuthority) -> TransferAuthority {
    if transfer_authority_refusal(ctx) is Some {
        ctx
    } else {
        TransferAuthority { vault: Vault { authority: ctx.new_authority, ..ctx.vault }, ..ctx }
    }
}

/// Makes `new_authority` the vault's authority.
pub fn transfer_authority(ctx: &mut TransferAuthority, timestamp: i64) -> (r: Result<AuthorityTransferredEvent, VaultError>)
    ensures
        *final(ctx) == transfer_authority_post(*old(ctx)),
        match transfer_authority_refusal(*old(ctx)) {
            Some(e) => r == Err::<AuthorityTransferredEvent, VaultError>(e),
            None => r == Ok::<AuthorityTransferredEvent, VaultError>(
                AuthorityTransferredEvent {
                    old_authority: old(ctx).vault.authority,
                    new_authority: old(ctx).new_authority,
                    timestamp,
                },
            ),
        },
{
    if ctx.authority != ctx.vault.authority {
        return Err(VaultError::Unauthorized);
    }
    let old_authority = ctx.vault.authority;
    ctx.vault.authority = ctx.new_authority;
    Ok(AuthorityTransferredEvent { old_authority, new_authority: ctx.new_authority, timestamp })
}

/// The custody account's balance, once it is shown to be the vault's.
pub fn get_balance(ctx: &GetBalance) -> (r: Result<u64, VaultError>)
    ensures
        if ctx.vault_token_account.key@ == ctx.vault.vault_token_account@ {
            r == Ok::<u64, VaultError>(ctx.vault_token_account.amount)
        } else {
            r == Err::<u64, VaultError>(VaultError::InvalidVaultTokenAccount)
        },
{
    if ctx.vault_token_account.key != ctx.vault.vault_token_account {
        return Err(VaultError::InvalidVaultTokenAccount);
    }
    Ok(ctx.vault_token_account.amount)
}

} // verus!
