//! Account identities and the deterministic derivation of the vault's
//! addresses from fixed domain tags.

use vstd::prelude::*;

verus! {

/// A 32-byte account identity.
#[derive(Clone, Copy, Debug, Eq)]
pub struct Address {
    pub bytes: [u8; 32],
}

impl PartialEq for Address {
    fn eq(&self, o: &Address) -> (r: bool) {
        let mut i: usize = 0;
        while i < 32
            invariant
                i <= 32,
                forall|j: int| 0 <= j < i ==> self.bytes@[j] == o.bytes@[j],
            decreases 32 - i,
        {
            if self.bytes[i] != o.bytes[i] {
                return false;
            }
            i = i + 1;
        }
        assert(self.bytes@ =~= o.bytes@);
        true
    }
}

impl vstd::std_specs::cmp::PartialEqSpecImpl for Address {
    open spec fn obeys_eq_spec() -> bool {
        true
    }

    open spec fn eq_spec(&self, o: &Address) -> bool {
        self@ == o@
    }
}

impl Address {
    pub open spec fn view(self) -> Seq<u8> {
        self.bytes@
    }
}

/// The address and bump that program-address derivation yields for the given
/// seeds and program id, or `None` when no bump gives an off-curve address.
pub uninterp spec fn program_address_of(seeds: Seq<Seq<u8>>, program_id: Seq<u8>) -> Option<(Seq<u8>, u8)>;

/// The byte strings held by a list of seeds.
pub open spec fn seeds_view(seeds: Seq<Vec<u8>>) -> Seq<Seq<u8>> {
    seeds.map_values(|v: Vec<u8>| v@)
}

/// Relies on `Pubkey::try_find_program_address` of solana-program: the search
/// over bumps is a function of the seeds and the program id alone.
#[verifier::external_body]
fn try_find_program_address(seeds: &Vec<Vec<u8>>, program_id: &Address) -> (r: Option<(Address, u8)>)
    ensures
        r is Some <==> program_address_of(seeds_view(seeds@), program_id@) is Some,
        r matches Some((a, b)) ==> program_address_of(seeds_view(seeds@), program_id@) == Some((a@, b)),
{
    let parts: Vec<&[u8]> = seeds.iter().map(|s| s.as_slice()).collect();
    let id = anchor_lang::prelude::Pubkey::new_from_array(program_id.bytes);
    anchor_lang::prelude::Pubkey::try_find_program_address(&parts, &id).map(
        |(k, b)| (Address { bytes: k.to_bytes() }, b),
    )
}

/// Domain tag of the vault's own identity.
pub open spec fn vault_seed_spec() -> Seq<u8> {
    seq![116u8, 114, 101, 97, 115, 117, 114, 121, 95, 118, 97, 117, 108, 116]
}

/// Domain tag of the vault's custody account.
pub open spec fn vault_token_seed_spec() -> Seq<u8> {
    seq![118u8, 97, 117, 108, 116, 95, 116, 111, 107, 101, 110]
}

/// The bytes of `"treasury_vault"`.
pub fn vault_seed() -> (r: Vec<u8>)
    ensures
        r@ == vault_seed_spec(),
{
    let r: Vec<u8> = vec![116u8, 114, 101, 97, 115, 117, 114, 121, 95, 118, 97, 117, 108, 116];
    assert(r@ =~= vault_seed_spec());
    r
}

/// The bytes of `"vault_token"`.
pub fn vault_token_seed() -> (r: Vec<u8>)
    ensures
        r@ == vault_token_seed_spec(),
{
    let r: Vec<u8> = vec![118u8, 97, 117, 108, 116, 95, 116, 111, 107, 101, 110];
    assert(r@ =~= vault_token_seed_spec());
    r
}

/// Seeds of the vault identity: the vault tag alone.
pub open spec fn vault_seeds() -> Seq<Seq<u8>> {
    seq![vault_seed_spec()]
}

/// Seeds of the custody account: its tag, then the vault's address.
pub open spec fn vault_token_seeds(vault: Seq<u8>) -> Seq<Seq<u8>> {
    seq![vault_token_seed_spec(), vault]
}

/// Derives the vault's canonical address and bump under `program_id`.
pub fn find_vault_address(program_id: &Address) -> (r: Option<(Address, u8)>)
    ensures
        r is Some <==> program_address_of(vault_seeds(), program_id@) is Some,
        r matches Some((a, b)) ==> program_address_of(vault_seeds(), program_id@) == Some((a@, b)),
{
    let mut seeds: Vec<Vec<u8>> = Vec::new();
    seeds.push(vault_seed());
    assert(seeds_view(seeds@) =~= vault_seeds());
    try_find_program_address(&seeds, program_id)
}

/// Derives the address and bump of the custody account of the vault at
/// `vault` under `program_id`.
pub fn find_vault_token_address(vault: &Address, program_id: &Address) -> (r: Option<(Address, u8)>)
    ensures
        r is Some <==> program_address_of(vault_token_seeds(vault@), program_id@) is Some,
        r matches Some((a, b)) ==> program_address_of(vault_token_seeds(vault@), program_id@) == Some((a@, b)),
{
    let mut seeds: Vec<Vec<u8>> = Vec::new();
    seeds.push(vault_token_seed());
    let mut key: Vec<u8> = Vec::new();
    let mut i: usize = 0;
    while i < 32
        invariant
            i <= 32,
            key@ == vault@.subrange(0, i as int),
        decreases 32 - i,
    {
        key.push(vault.bytes[i]);
        i = i + 1;
    }
    assert(key@ =~= vault@);
    seeds.push(key);
    assert(seeds_view(seeds@) =~= vault_token_seeds(vault@));
    try_find_program_address(&seeds, program_id)
}

} // verus!
