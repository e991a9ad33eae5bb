//! Audit records, one for each successful operation that changes a vault.

use vstd::prelude::*;
use crate::address::Address;

verus! {

/// A deposit into the custody account.
#[derive(Clone, Copy, Debug)]
pub struct DepositEvent {
    pub depositor: Address,
    pub amount: u64,
    pub timestamp: i64,
}

/// A withdrawal from the custody account.
#[derive(Clone, Copy, Debug)]
pub struct WithdrawEvent {
    pub recipient: Address,
    pub amount: u64,
    pub timestamp: i64,
}

/// A change of the vault's allocation share.
#[derive(Clone, Copy, Debug)]
pub struct AllocationUpdatedEvent {
    pub old_allocation_bps: u16,
    pub new_allocation_bps: u16,
    pub timestamp: i64,
}

/// A hand-over of the vault's authority.
#[derive(Clone, Copy, Debug)]
pub struct AuthorityTransferredEvent {
    pub old_authority: Address,
    pub new_authority: Address,
    pub timestamp: i64,
}

} // verus!
