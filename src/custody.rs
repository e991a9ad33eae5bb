//! The contract of the custody service that moves balances between asset
//! accounts: all of the amount moves, or nothing does.

use vstd::prelude::*;
use crate::address::Address;
use crate::state::{TokenAccount, TransferError};

verus! {

/// The refusal, if any, of a transfer of `amount` from `from` to `to`
/// authorized by `authorizer`, checked in this order.
pub open spec fn transfer_refusal(from: TokenAccount, to: TokenAccount, authorizer: Address, amount: u64) -> Option<TransferError> {
    if from.owner@ != authorizer@ {
        Some(TransferError::OwnerMismatch)
    } else if from.mint@ != to.mint@ {
        Some(TransferError::MintMismatch)
    } else if from.key@ == to.key@ {
        Some(TransferError::SameAccount)
    } else if from.amount < amount {
        Some(TransferError::InsufficientFunds)
    } else if to.amount + amount > u64::MAX {
        Some(TransferError::Overflow)
    } else {
        None
    }
}

/// `a` with its balance replaced.
pub open spec fn with_amount(a: TokenAccount, amount: int) -> TokenAccount {
    TokenAccount { amount: amount as u64, ..a }
}

/// Moves `amount` from `from` to `to` on behalf of `authorizer`, or moves
/// nothing and says why.
pub fn transfer(from: &mut TokenAccount, to: &mut TokenAccount, authorizer: &Address, amount: u64) -> (r: Result<(), TransferError>)
    ensures
        match transfer_refusal(*old(from), *old(to), *authorizer, amount) {
            Some(e) => r == Err::<(), TransferError>(e) && *final(from) == *old(from) && *final(to) == *old(to),
            None => r is Ok
                && *final(from) == with_amount(*old(from), old(from).amount - amount)
                && *final(to) == with_amount(*old(to), old(to).amount + amount),
        },
{
    if from.owner != *authorizer {
        return Err(TransferError::OwnerMismatch);
    }
    if from.mint != to.mint {
        return Err(TransferError::MintMismatch);
    }
    if from.key == to.key {
        return Err(TransferError::SameAccount);
    }
    if from.amount < amount {
        return Err(TransferError::InsufficientFunds);
    }
    if to.amount > u64::MAX - amount {
        return Err(TransferError::Overflow);
    }
    from.amount = from.amount - amount;
    to.amount = to.amount + amount;
    Ok(())
}

} // verus!
