//! Program-derived addresses: the distributor of a version, and the token account of a
//! clawback receiver.
use vstd::prelude::*;
use vstd::bytes::{spec_u64_to_le_bytes, u64_to_le_bytes};
use solana_sdk::pubkey::Pubkey;
use spl_associated_token_account::get_associated_token_address;
use crate::error::RunError;
use crate::key::{byte_strings, Key, ASSOCIATED_TOKEN_PROGRAM, TOKEN_PROGRAM};

verus! {

/// The address and bump seed that `Pubkey::try_find_program_address` of solana-program
/// finds for these seeds under this program, or `None` where it finds none.
pub uninterp spec fn program_address(seeds: Seq<Seq<u8>>, program_id: Key) -> Option<(Key, u8)>;

/// The first seed of every distributor address, the text `MerkleDistributor`.
pub const DISTRIBUTOR_SEED: [u8; 17] = [
    77, 101, 114, 107, 108, 101, 68, 105, 115, 116, 114, 105, 98, 117, 116, 111, 114,
];

/// The seeds of the distributor of one version: the fixed text, the base key, the mint,
/// and the version as eight bytes, least significant first.
pub open spec fn distributor_seeds(base: Key, mint: Key, version: u64) -> Seq<Seq<u8>> {
    seq![DISTRIBUTOR_SEED@, base@, mint@, spec_u64_to_le_bytes(version)]
}

/// The address of the distributor of one version, with its bump seed.
pub open spec fn distributor_address(program_id: Key, base: Key, mint: Key, version: u64) -> Option<
    (Key, u8),
> {
    program_address(distributor_seeds(base, mint, version), program_id)
}

/// The seeds of a wallet's token account for a mint.
pub open spec fn token_account_seeds(wallet: Key, mint: Key) -> Seq<Seq<u8>> {
    seq![wallet@, TOKEN_PROGRAM@, mint@]
}

/// The address of a wallet's token account for a mint.
pub open spec fn token_account_address(wallet: Key, mint: Key) -> Option<Key> {
    match program_address(
        token_account_seeds(wallet, mint),
        Key { bytes: ASSOCIATED_TOKEN_PROGRAM },
    ) {
        Some((address, _)) => Some(address),
        None => None,
    }
}

/// Calls `Pubkey::try_find_program_address` of solana-program. The result depends on the
/// seeds and the program alone; the contract gives it its name and claims nothing more.
#[verifier::external_body]
fn find_program_address(seeds: &Vec<Vec<u8>>, program_id: &Key) -> (found: Option<(Key, u8)>)
    ensures
        found == program_address(byte_strings(seeds@), *program_id),
{
    let slices: Vec<&[u8]> = seeds.iter().map(|seed| seed.as_slice()).collect();
    Pubkey::try_find_program_address(&slices, &Pubkey::new_from_array(program_id.bytes))
        .map(|(address, bump)| (Key { bytes: address.to_bytes() }, bump))
}

/// Calls `get_associated_token_address` of spl-associated-token-account, which searches
/// the address of the seeds wallet, token program, mint under the associated-token-account
/// program and panics where the search finds none: the contract asks that it finds one,
/// and says that this address is returned.
#[verifier::external_body]
fn associated_token_address(wallet: &Key, mint: &Key) -> (address: Key)
    requires
        token_account_address(*wallet, *mint) is Some,
    ensures
        Some(address) == token_account_address(*wallet, *mint),
{
    let found = get_associated_token_address(
        &Pubkey::new_from_array(wallet.bytes),
        &Pubkey::new_from_array(mint.bytes),
    );
    Key { bytes: found.to_bytes() }
}

/// Appends the bytes of an array of 32 as one seed.
fn push_seed(seeds: &mut Vec<Vec<u8>>, bytes: &[u8; 32])
    ensures
        byte_strings(final(seeds)@) == byte_strings(old(seeds)@).push(bytes@),
{
    let key = Key { bytes: *bytes };
    let seed = key.to_vec();
    seeds.push(seed);
    assert(byte_strings(seeds@) =~= byte_strings(old(seeds)@).push(bytes@));
}

/// Derives the address of the distributor of `version`, with its bump seed.
///
/// Fails with [`RunError::AddressDerivation`] exactly where the search finds no address.
pub fn derive_distributor_address(program_id: &Key, base: &Key, mint: &Key, version: u64) -> (r:
    Result<(Key, u8), RunError>)
    ensures
        r == match distributor_address(*program_id, *base, *mint, version) {
            Some(found) => Ok::<(Key, u8), RunError>(found),
            None => Err(RunError::AddressDerivation { version }),
        },
{
    let mut seeds: Vec<Vec<u8>> = Vec::new();
    let mut text: Vec<u8> = Vec::new();
    let mut i: usize = 0;
    while i < 17
        invariant
            i <= 17,
            text@ == DISTRIBUTOR_SEED@.subrange(0, i as int),
        decreases 17 - i,
    {
        text.push(DISTRIBUTOR_SEED[i]);
        assert(text@ =~= DISTRIBUTOR_SEED@.subrange(0, i + 1));
        i += 1;
    }
    assert(text@ =~= DISTRIBUTOR_SEED@);
    seeds.push(text);
    assert(byte_strings(seeds@) =~= seq![DISTRIBUTOR_SEED@]);
    push_seed(&mut seeds, &base.bytes);
    push_seed(&mut seeds, &mint.bytes);
    let number = u64_to_le_bytes(version);
    let ghost before = byte_strings(seeds@);
    seeds.push(number);
    assert(byte_strings(seeds@) =~= before.push(spec_u64_to_le_bytes(version)));
    assert(byte_strings(seeds@) =~= distributor_seeds(*base, *mint, version));
    match find_program_address(&seeds, program_id) {
        Some(found) => Ok(found),
        None => Err(RunError::AddressDerivation { version }),
    }
}

/// Derives the token account that receives clawed-back tokens for a receiver wallet, or
/// `None` where the search finds no address for it.
pub fn clawback_token_account(receiver: &Key, mint: &Key) -> (account: Option<Key>)
    ensures
        account == token_account_address(*receiver, *mint),
{
    let mut seeds: Vec<Vec<u8>> = Vec::new();
    assert(byte_strings(seeds@) =~= Seq::<Seq<u8>>::empty());
    push_seed(&mut seeds, &receiver.bytes);
    push_seed(&mut seeds, &TOKEN_PROGRAM);
    push_seed(&mut seeds, &mint.bytes);
    assert(byte_strings(seeds@) =~= token_account_seeds(*receiver, *mint));
    let program = Key { bytes: ASSOCIATED_TOKEN_PROGRAM };
    match find_program_address(&seeds, &program) {
        Some(_) => Some(associated_token_address(receiver, mint)),
        None => None,
    }
}

} // verus!
