use treasury_vault_solana::handlers::SetAllocation;
use treasury_vault_solana::{
    deposit, find_vault_address, find_vault_token_address, get_balance, initialize,
    set_target_allocation, transfer_authority, vault_seed, vault_token_seed, withdraw, Address,
    Deposit, GetBalance, Initialize, TokenAccount, TransferAuthority, TransferError, Vault,
    VaultError, Withdraw,
};

const PROGRAM_ID: [u8; 32] = [
    36, 233, 90, 92, 148, 83, 163, 164, 246, 3, 12, 189, 70, 80, 84, 165, 223, 69, 89, 90, 167,
    30, 78, 144, 254, 226, 97, 182, 25, 46, 40, 159,
];
const VAULT_ADDRESS: [u8; 32] = [
    254, 71, 188, 250, 70, 71, 52, 103, 171, 204, 6, 55, 183, 153, 52, 110, 123, 97, 80, 7, 26,
    115, 241, 118, 60, 175, 215, 249, 26, 51, 124, 116,
];
const CUSTODY_ADDRESS: [u8; 32] = [
    42, 244, 58, 129, 205, 11, 66, 28, 46, 251, 66, 114, 2, 140, 173, 99, 75, 33, 90, 118, 120,
    218, 109, 174, 249, 246, 164, 170, 196, 63, 199, 113,
];

fn addr(n: u8) -> Address {
    Address { bytes: [n; 32] }
}

fn authority() -> Address {
    addr(1)
}

fn mint() -> Address {
    addr(2)
}

/// A freshly created vault, its address and its empty custody account.
fn created() -> (Vault, Address, TokenAccount) {
    let mut ctx = Initialize {
        authority: authority(),
        usdc_mint: mint(),
        program_id: Address { bytes: PROGRAM_ID },
        vault: None,
        vault_token_account: None,
    };
    let vault_address = initialize(&mut ctx).unwrap();
    (ctx.vault.unwrap(), vault_address, ctx.vault_token_account.unwrap())
}

fn holder(key: u8, owner: Address, amount: u64) -> TokenAccount {
    TokenAccount { key: addr(key), mint: mint(), owner, amount }
}

fn deposit_ctx(vault: Vault, custody: TokenAccount, depositor: Address, balance: u64) -> Deposit {
    Deposit {
        depositor,
        vault,
        depositor_token_account: holder(10, depositor, balance),
        vault_token_account: custody,
    }
}

fn withdraw_ctx(vault: Vault, vault_address: Address, custody: TokenAccount, caller: Address) -> Withdraw {
    Withdraw {
        authority: caller,
        recipient: addr(7),
        vault_address,
        vault,
        vault_token_account: custody,
        recipient_token_account: holder(11, addr(7), 0),
    }
}

fn funded(amount: u64) -> (Vault, Address, TokenAccount) {
    let (vault, vault_address, custody) = created();
    let mut ctx = deposit_ctx(vault, custody, addr(5), amount);
    deposit(&mut ctx, amount, 1).unwrap();
    (vault, vault_address, ctx.vault_token_account)
}

#[test]
fn derivation_matches_known_addresses() {
    let program_id = Address { bytes: PROGRAM_ID };
    let (vault, bump) = find_vault_address(&program_id).unwrap();
    assert_eq!(vault.bytes, VAULT_ADDRESS);
    assert_eq!(bump, 254);
    let (custody, token_bump) = find_vault_token_address(&vault, &program_id).unwrap();
    assert_eq!(custody.bytes, CUSTODY_ADDRESS);
    assert_eq!(token_bump, 255);
}

#[test]
fn derivation_is_deterministic_and_tags_do_not_collide() {
    let program_id = addr(3);
    let first = find_vault_address(&program_id).unwrap();
    let again = find_vault_address(&program_id).unwrap();
    assert!(first.0 == again.0 && first.1 == again.1);
    assert!(first.0 != program_id);
    let custody = find_vault_token_address(&first.0, &program_id).unwrap();
    assert!(custody.0 != first.0);
}

#[test]
fn seeds_are_the_fixed_tags() {
    assert_eq!(vault_seed(), b"treasury_vault".to_vec());
    assert_eq!(vault_token_seed(), b"vault_token".to_vec());
}

#[test]
fn initialize_sets_defaults() {
    let (vault, vault_address, custody) = created();
    assert!(vault.authority == authority());
    assert!(vault.usdc_mint == mint());
    assert_eq!(vault.target_allocation_bps, 5000);
    assert_eq!(vault.bump, 254);
    assert_eq!(vault.token_bump, 255);
    assert_eq!(vault_address.bytes, VAULT_ADDRESS);
    assert_eq!(vault.vault_token_account.bytes, CUSTODY_ADDRESS);
    assert!(custody.key == vault.vault_token_account);
    assert!(custody.owner == vault_address);
    assert!(custody.mint == mint());
    assert_eq!(custody.amount, 0);
    assert_eq!(Vault::LEN, 108);
}

#[test]
fn initialize_twice_is_refused_and_keeps_first_record() {
    let mut ctx = Initialize {
        authority: authority(),
        usdc_mint: mint(),
        program_id: Address { bytes: PROGRAM_ID },
        vault: None,
        vault_token_account: None,
    };
    assert!(initialize(&mut ctx).is_ok());
    let first = ctx.vault.unwrap();
    ctx.authority = addr(9);
    assert_eq!(initialize(&mut ctx), Err(VaultError::AlreadyExists));
    let kept = ctx.vault.unwrap();
    assert!(kept.authority == first.authority);
    assert_eq!(kept.target_allocation_bps, first.target_allocation_bps);
    assert!(kept.vault_token_account == first.vault_token_account);
}

#[test]
fn scenario_deposit_withdraw_allocate() {
    let (vault, vault_address, custody) = created();
    assert_eq!(vault.target_allocation_bps, 5000);

    let mut dep = deposit_ctx(vault, custody, addr(5), 1_000_000);
    let event = deposit(&mut dep, 1_000_000, 100).unwrap();
    assert_eq!(event.amount, 1_000_000);
    assert!(event.depositor == addr(5));
    assert_eq!(event.timestamp, 100);
    assert_eq!(dep.vault_token_account.amount, 1_000_000);
    assert_eq!(dep.depositor_token_account.amount, 0);

    let mut w = withdraw_ctx(vault, vault_address, dep.vault_token_account, authority());
    assert_eq!(withdraw(&mut w, 2_000_000, 101).unwrap_err(), VaultError::InsufficientBalance);
    assert_eq!(w.vault_token_account.amount, 1_000_000);
    let out = withdraw(&mut w, 500_000, 102).unwrap();
    assert_eq!(out.amount, 500_000);
    assert!(out.recipient == addr(7));
    assert_eq!(w.vault_token_account.amount, 500_000);
    assert_eq!(w.recipient_token_account.amount, 500_000);

    let balance = get_balance(&GetBalance { vault, vault_token_account: w.vault_token_account });
    assert_eq!(balance, Ok(500_000));

    let mut s = SetAllocation { authority: authority(), vault };
    assert_eq!(set_target_allocation(&mut s, 12000, 103).unwrap_err(), VaultError::InvalidAllocation);
    assert_eq!(s.vault.target_allocation_bps, 5000);
    let update = set_target_allocation(&mut s, 7500, 104).unwrap();
    assert_eq!(update.old_allocation_bps, 5000);
    assert_eq!(update.new_allocation_bps, 7500);
    assert_eq!(s.vault.target_allocation_bps, 7500);
}

#[test]
fn allocation_bounds() {
    let (vault, _, _) = created();
    let mut s = SetAllocation { authority: authority(), vault };
    assert!(set_target_allocation(&mut s, 0, 1).is_ok());
    assert_eq!(s.vault.target_allocation_bps, 0);
    assert!(set_target_allocation(&mut s, 10000, 1).is_ok());
    assert_eq!(s.vault.target_allocation_bps, 10000);
    assert_eq!(set_target_allocation(&mut s, 10001, 1).unwrap_err(), VaultError::InvalidAllocation);
    assert_eq!(set_target_allocation(&mut s, u16::MAX, 1).unwrap_err(), VaultError::InvalidAllocation);
    assert_eq!(s.vault.target_allocation_bps, 10000);
}

#[test]
fn unauthorized_callers_are_refused() {
    let (vault, vault_address, custody) = funded(1000);
    let stranger = addr(8);
    let mut s = SetAllocation { authority: stranger, vault };
    assert_eq!(set_target_allocation(&mut s, 100, 1).unwrap_err(), VaultError::Unauthorized);
    let mut t = TransferAuthority { authority: stranger, new_authority: stranger, vault };
    assert_eq!(transfer_authority(&mut t, 1).unwrap_err(), VaultError::Unauthorized);
    assert!(t.vault.authority == authority());
    let mut w = withdraw_ctx(vault, vault_address, custody, stranger);
    assert_eq!(withdraw(&mut w, 10, 1).unwrap_err(), VaultError::Unauthorized);
    assert_eq!(w.vault_token_account.amount, 1000);
}

#[test]
fn former_authority_loses_power_at_once() {
    let (vault, vault_address, custody) = funded(1000);
    let mut t = TransferAuthority { authority: authority(), new_authority: addr(4), vault };
    let event = transfer_authority(&mut t, 9).unwrap();
    assert!(event.old_authority == authority());
    assert!(event.new_authority == addr(4));
    let moved = t.vault;
    assert!(moved.authority == addr(4));

    let mut s = SetAllocation { authority: authority(), vault: moved };
    assert_eq!(set_target_allocation(&mut s, 100, 1).unwrap_err(), VaultError::Unauthorized);
    let mut w = withdraw_ctx(moved, vault_address, custody, authority());
    assert_eq!(withdraw(&mut w, 10, 1).unwrap_err(), VaultError::Unauthorized);
    let mut again = TransferAuthority { authority: authority(), new_authority: authority(), vault: moved };
    assert_eq!(transfer_authority(&mut again, 1).unwrap_err(), VaultError::Unauthorized);

    let mut w2 = withdraw_ctx(moved, vault_address, custody, addr(4));
    assert!(withdraw(&mut w2, 10, 1).is_ok());
    assert_eq!(w2.vault_token_account.amount, 990);
}

#[test]
fn deposit_errors() {
    let (vault, _, custody) = created();
    let mut ctx = deposit_ctx(vault, custody, addr(5), 50);
    assert_eq!(deposit(&mut ctx, 0, 1).unwrap_err(), VaultError::ZeroAmount);
    assert_eq!(
        deposit(&mut ctx, 51, 1).unwrap_err(),
        VaultError::Transfer(TransferError::InsufficientFunds)
    );
    assert_eq!(ctx.depositor_token_account.amount, 50);
    assert_eq!(ctx.vault_token_account.amount, 0);

    let mut wrong_mint = deposit_ctx(vault, custody, addr(5), 50);
    wrong_mint.depositor_token_account.mint = addr(6);
    assert_eq!(deposit(&mut wrong_mint, 10, 1).unwrap_err(), VaultError::InvalidMint);

    let mut wrong_owner = deposit_ctx(vault, custody, addr(5), 50);
    wrong_owner.depositor_token_account.owner = addr(6);
    assert_eq!(deposit(&mut wrong_owner, 10, 1).unwrap_err(), VaultError::InvalidTokenAccount);

    let mut wrong_custody = deposit_ctx(vault, custody, addr(5), 50);
    wrong_custody.vault_token_account.key = addr(12);
    assert_eq!(deposit(&mut wrong_custody, 10, 1).unwrap_err(), VaultError::InvalidVaultTokenAccount);
}

#[test]
fn structural_checks_come_before_authorization() {
    let (vault, vault_address, custody) = funded(100);
    let mut w = withdraw_ctx(vault, vault_address, custody, addr(8));
    w.vault_token_account.key = addr(12);
    assert_eq!(withdraw(&mut w, 0, 1).unwrap_err(), VaultError::InvalidVaultTokenAccount);

    let mut w = withdraw_ctx(vault, vault_address, custody, addr(8));
    w.recipient_token_account.owner = addr(6);
    assert_eq!(withdraw(&mut w, 0, 1).unwrap_err(), VaultError::InvalidTokenAccount);

    let mut w = withdraw_ctx(vault, vault_address, custody, addr(8));
    w.recipient_token_account.mint = addr(6);
    assert_eq!(withdraw(&mut w, 0, 1).unwrap_err(), VaultError::InvalidMint);

    let mut w = withdraw_ctx(vault, vault_address, custody, authority());
    assert_eq!(withdraw(&mut w, 0, 1).unwrap_err(), VaultError::ZeroAmount);
}

#[test]
fn withdraw_needs_the_vault_identity_as_signer() {
    let (vault, _, custody) = funded(100);
    let mut w = withdraw_ctx(vault, addr(13), custody, authority());
    assert_eq!(
        withdraw(&mut w, 10, 1).unwrap_err(),
        VaultError::Transfer(TransferError::OwnerMismatch)
    );
    assert_eq!(w.vault_token_account.amount, 100);
    assert_eq!(w.recipient_token_account.amount, 0);
}

#[test]
fn deposit_refuses_overflowing_custody() {
    let (vault, _, mut custody) = created();
    custody.amount = u64::MAX;
    let mut ctx = deposit_ctx(vault, custody, addr(5), 10);
    assert_eq!(deposit(&mut ctx, 1, 1).unwrap_err(), VaultError::Transfer(TransferError::Overflow));
    assert_eq!(ctx.vault_token_account.amount, u64::MAX);
}

#[test]
fn get_balance_checks_custody_account() {
    let (vault, _, custody) = funded(42);
    assert_eq!(get_balance(&GetBalance { vault, vault_token_account: custody }), Ok(42));
    let mut other = custody;
    other.key = addr(12);
    assert_eq!(
        get_balance(&GetBalance { vault, vault_token_account: other }),
        Err(VaultError::InvalidVaultTokenAccount)
    );
}

#[test]
fn balance_is_net_of_successful_calls() {
    let (vault, vault_address, custody) = created();
    let mut balance_account = custody;
    let mut expected: u64 = 0;
    let calls: [(bool, u64); 6] = [(true, 300), (false, 500), (false, 100), (true, 0), (true, 50), (false, 250)];
    for (is_deposit, amount) in calls {
        if is_deposit {
            let mut ctx = deposit_ctx(vault, balance_account, addr(5), 1000);
            if deposit(&mut ctx, amount, 1).is_ok() {
                expected += amount;
            }
            balance_account = ctx.vault_token_account;
        } else {
            let mut ctx = withdraw_ctx(vault, vault_address, balance_account, authority());
            if withdraw(&mut ctx, amount, 1).is_ok() {
                expected -= amount;
            }
            balance_account = ctx.vault_token_account;
        }
    }
    assert_eq!(expected, 300 - 100 + 50 - 250);
    assert_eq!(balance_account.amount, expected);
}

#[test]
fn custody_service_refusals() {
    let (vault, _, custody) = created();
    let mut odd_custody = custody;
    odd_custody.mint = addr(6);
    let mut ctx = deposit_ctx(vault, odd_custody, addr(5), 50);
    assert_eq!(deposit(&mut ctx, 10, 1).unwrap_err(), VaultError::Transfer(TransferError::MintMismatch));

    let mut same = deposit_ctx(vault, custody, addr(5), 50);
    same.depositor_token_account.key = custody.key;
    assert_eq!(deposit(&mut same, 10, 1).unwrap_err(), VaultError::Transfer(TransferError::SameAccount));
    assert_eq!(same.depositor_token_account.amount, 50);
    assert_eq!(same.vault_token_account.amount, 0);
}

#[test]
fn refused_calls_leave_record_and_balance() {
    let (vault, vault_address, custody) = funded(300);
    let mut w = withdraw_ctx(vault, vault_address, custody, authority());
    assert!(withdraw(&mut w, 301, 1).is_err());
    assert_eq!(w.vault_token_account.amount, 300);
    assert_eq!(w.recipient_token_account.amount, 0);
    assert!(w.vault.authority == authority());
    assert_eq!(w.vault.target_allocation_bps, 5000);

    let mut t = TransferAuthority { authority: addr(8), new_authority: addr(8), vault };
    assert!(transfer_authority(&mut t, 1).is_err());
    assert!(t.vault.authority == vault.authority);
    assert!(t.vault.vault_token_account == vault.vault_token_account);
}


#[test]
fn record_layout_round_trip() {
    let vault = Vault {
        authority: addr(1),
        usdc_mint: addr(2),
        vault_token_account: addr(3),
        target_allocation_bps: 7500,
        bump: 254,
        token_bump: 253,
    };
    let bytes = vault.to_bytes();
    assert_eq!(bytes.len(), Vault::BODY_LEN);
    assert_eq!(Vault::BODY_LEN + 8, Vault::LEN);
    assert_eq!(&bytes[0..32], &[1u8; 32][..]);
    assert_eq!(&bytes[32..64], &[2u8; 32][..]);
    assert_eq!(&bytes[64..96], &[3u8; 32][..]);
    assert_eq!(&bytes[96..100], &[0x4c, 0x1d, 254, 253][..]);
    let back = Vault::from_bytes(&bytes).unwrap();
    assert!(back.authority == vault.authority);
    assert!(back.usdc_mint == vault.usdc_mint);
    assert!(back.vault_token_account == vault.vault_token_account);
    assert_eq!(back.target_allocation_bps, 7500);
    assert_eq!(back.bump, 254);
    assert_eq!(back.token_bump, 253);
    assert!(Vault::from_bytes(&bytes[..99]).is_none());
    let mut longer = bytes.clone();
    longer.push(0);
    assert!(Vault::from_bytes(&longer).is_none());
}
