//! Custodial treasury vault: derived addressing, the vault record, and the
//! authority-gated handlers that validate every operation before any balance
//! or record changes.

pub mod address;
pub mod custody;
pub mod state;
pub mod events;
pub mod handlers;
pub mod laws;

pub use address::{find_vault_address, find_vault_token_address, vault_seed, vault_token_seed, Address};
pub use events::{AllocationUpdatedEvent, AuthorityTransferredEvent, DepositEvent, WithdrawEvent};
pub use handlers::{
    deposit, get_balance, initialize, set_target_allocation, transfer_authority, withdraw, Deposit,
    GetBalance, Initialize, SetAllocation, TransferAuthority, Withdraw,
};
pub use state::{TokenAccount, TransferError, Vault, VaultError};
