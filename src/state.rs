//! The persisted vault record, the token accounts that handlers read, and the
//! error taxonomy.

use vstd::prelude::*;
use crate::address::Address;

verus! {

/// Largest allocation share, in basis points.
pub const MAX_ALLOCATION_BPS: u16 = 10000;

/// Allocation share given to a freshly created vault, in basis points.
pub const DEFAULT_ALLOCATION_BPS: u16 = 5000;

/// The record kept for one vault.
#[derive(Clone, Copy, Debug)]
pub struct Vault {
    /// The identity that may withdraw and reconfigure the vault.
    pub authority: Address,
    /// The asset the vault holds.
    pub usdc_mint: Address,
    /// The custody account that holds the vault's balance.
    pub vault_token_account: Address,
    /// This vault's intended share, in basis points.
    pub target_allocation_bps: u16,
    /// Bump of the vault's derived address.
    pub bump: u8,
    /// Bump of the custody account's derived address.
    pub token_bump: u8,
}

impl Vault {
    /// Size of the stored record: an 8-byte type tag, three identities, the
    /// allocation and the two bumps.
    pub const LEN: usize = 8 + 32 + 32 + 32 + 2 + 1 + 1;

    /// Size of the stored fields, after the type tag.
    pub const BODY_LEN: usize = 32 + 32 + 32 + 2 + 1 + 1;

    /// The record's invariant: the allocation never exceeds the whole.
    pub open spec fn wf(self) -> bool {
        self.target_allocation_bps <= MAX_ALLOCATION_BPS
    }

    /// The stored fields in order: the three identities, the allocation as
    /// two little-endian bytes, then the two bumps.
    pub open spec fn body(self) -> Seq<u8> {
        self.authority@ + self.usdc_mint@ + self.vault_token_account@ + seq![
            (self.target_allocation_bps % 256) as u8,
            (self.target_allocation_bps / 256) as u8,
            self.bump,
            self.token_bump,
        ]
    }

    /// Writes the stored fields.
    pub fn to_bytes(&self) -> (r: Vec<u8>)
        ensures
            r@ == self.body(),
    {
        let mut r: Vec<u8> = Vec::new();
        push_address(&mut r, &self.authority);
        push_address(&mut r, &self.usdc_mint);
        push_address(&mut r, &self.vault_token_account);
        r.push((self.target_allocation_bps % 256) as u8);
        r.push((self.target_allocation_bps / 256) as u8);
        r.push(self.bump);
        r.push(self.token_bump);
        assert(r@ =~= self.body());
        r
    }

    /// Reads the stored fields; `None` unless there are exactly
    /// [`Vault::BODY_LEN`] bytes.
    pub fn from_bytes(b: &[u8]) -> (r: Option<Vault>)
        ensures
            r is Some <==> b@.len() == Vault::BODY_LEN,
            r matches Some(v) ==> v.body() == b@,
    {
        if b.len() != Vault::BODY_LEN {
            return None;
        }
        let authority = read_address(b, 0);
        let usdc_mint = read_address(b, 32);
        let vault_token_account = read_address(b, 64);
        let lo = b[96] as u16;
        let hi = b[97] as u16;
        let bps: u16 = lo + hi * 256;
        let v = Vault {
            authority,
            usdc_mint,
            vault_token_account,
            target_allocation_bps: bps,
            bump: b[98],
            token_bump: b[99],
        };
        assert((bps % 256) as u8 == b@[96] && (bps / 256) as u8 == b@[97]);
        assert(v.body() =~= b@);
        Some(v)
    }
}

/// Appends the 32 bytes of `a`.
fn push_address(out: &mut Vec<u8>, a: &Address)
    ensures
        final(out)@ == old(out)@ + a@,
{
    let mut i: usize = 0;
    while i < 32
        invariant
            i <= 32,
            out@ == old(out)@ + a@.subrange(0, i as int),
        decreases 32 - i,
    {
        out.push(a.bytes[i]);
        i = i + 1;
        assert(a@.subrange(0, i as int) =~= a@.subrange(0, i - 1) + seq![a@[i - 1]]);
    }
    assert(a@.subrange(0, 32) =~= a@);
}

/// The address held in `b` from `at` on.
fn read_address(b: &[u8], at: usize) -> (r: Address)
    requires
        at + 32 <= b@.len(),
    ensures
        r@ == b@.subrange(at as int, at + 32),
{
    let n = b.len();
    let mut bytes: [u8; 32] = [0u8; 32];
    let mut i: usize = 0;
    while i < 32
        invariant
            i <= 32,
            at + 32 <= b@.len(),
            n == b@.len(),
            forall|j: int| 0 <= j < i ==> bytes@[j] == b@[at + j],
        decreases 32 - i,
    {
        bytes[i] = b[at + i];
        i = i + 1;
    }
    let r = Address { bytes };
    assert(r@ =~= b@.subrange(at as int, at + 32));
    r
}

/// What a handler reads of an asset-holding account.
#[derive(Clone, Copy, Debug)]
pub struct TokenAccount {
    /// The account's own address.
    pub key: Address,
    /// The asset it holds.
    pub mint: Address,
    /// The identity allowed to move its balance.
    pub owner: Address,
    /// Its balance.
    pub amount: u64,
}

/// Refusals of the custody service when asked to move a balance.
#[derive(Clone, Copy, Debug, PartialEq, Eq, Structural)]
pub enum TransferError {
    /// The authorizer does not own the source account.
    OwnerMismatch,
    /// Source and destination hold different assets.
    MintMismatch,
    /// Source and destination are one account.
    SameAccount,
    /// The source holds less than the amount.
    InsufficientFunds,
    /// The destination's balance would exceed its range.
    Overflow,
}

/// Every way an operation on a vault is refused.
#[derive(Clone, Copy, Debug, PartialEq, Eq, Structural)]
pub enum VaultError {
    /// The amount is zero where a positive transfer is required.
    ZeroAmount,
    /// The withdrawal exceeds the custody balance.
    InsufficientBalance,
    /// The allocation lies outside `0..=10000` basis points.
    InvalidAllocation,
    /// The caller is not the vault's authority.
    Unauthorized,
    /// The supplied asset account is not owned by the expected identity.
    InvalidTokenAccount,
    /// The supplied asset account holds another asset than the vault.
    InvalidMint,
    /// The supplied custody account is not the vault's.
    InvalidVaultTokenAccount,
    /// A vault, or its custody account, already exists.
    AlreadyExists,
    /// No bump gives the vault or its custody account a derived address.
    AddressDerivationFailed,
    /// The custody service refused the transfer.
    Transfer(TransferError),
}

} // verus!
