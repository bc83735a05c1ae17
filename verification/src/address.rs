//! Addresses that belong to the program itself.
//!
//! Such an address is derived from a list of seeds and the program's key, and no
//! private key exists for it: only the program can sign for it, by handing the
//! runtime the seeds again.

use vstd::prelude::*;

use crate::key::{lemma_key_is_its_bytes, optional_bytes, Pubkey};

verus! {

/// What `Pubkey::create_program_address` of the chain's SDK derives from the seeds
/// and the program's key: a key, or nothing where the seeds do not give an address.
pub uninterp spec fn program_address(seeds: Seq<Seq<u8>>, program_id: Seq<u8>) -> Option<Seq<u8>>;

/// The SDK's error for seeds that give no address.
#[verifier::external_type_specification]
#[verifier::external_body]
pub struct ExPubkeyError(anchor_lang::solana_program::pubkey::PubkeyError);

/// The byte strings of a list of seeds.
pub open spec fn seed_bytes(seeds: Seq<Vec<u8>>) -> Seq<Seq<u8>> {
    seeds.map_values(|s: Vec<u8>| s@)
}

/// Calls `Pubkey::create_program_address`. The contract names its result: a hash of
/// the seeds and the program's key, or an error where that hash is a point of the
/// curve or the seeds are too many or too long. Which of the errors it is stays
/// unsaid.
#[verifier::external_body]
fn create_program_address(seeds: &Vec<Vec<u8>>, program_id: &Pubkey) -> (r: Result<
    Pubkey,
    anchor_lang::solana_program::pubkey::PubkeyError,
>)
    ensures
        match r {
            Ok(key) => program_address(seed_bytes(seeds@), program_id@) == Some(key@),
            Err(_) => program_address(seed_bytes(seeds@), program_id@) is None,
        },
{
    let slices: Vec<&[u8]> = seeds.iter().map(|s| s.as_slice()).collect();
    let program_id = anchor_lang::prelude::Pubkey::new_from_array(program_id.bytes);
    let key = anchor_lang::prelude::Pubkey::create_program_address(&slices, &program_id)?;
    Ok(Pubkey { bytes: key.to_bytes() })
}

/// `bump` is the bump that a search from 255 down to 1 stops at: the largest one
/// which, appended to the seeds, gives an address.
pub open spec fn is_canonical_bump(seeds: Seq<Seq<u8>>, program_id: Seq<u8>, bump: u8) -> bool {
    &&& 1 <= bump
    &&& program_address(seeds.push(seq![bump]), program_id) is Some
    &&& forall|b: u8| bump < b ==> #[trigger] program_address(seeds.push(seq![b]), program_id) is None
}

/// No bump from 1 to 255, appended to the seeds, gives an address.
pub open spec fn has_no_bump(seeds: Seq<Seq<u8>>, program_id: Seq<u8>) -> bool {
    forall|b: u8| 1 <= b ==> #[trigger] program_address(seeds.push(seq![b]), program_id) is None
}

/// Calls `Pubkey::try_find_program_address`, which tries the bumps from 255 down to
/// 1 and returns the first address that `create_program_address` gives, with its
/// bump. There is none when every one of these bumps fails.
#[verifier::external_body]
fn try_find_program_address(seeds: &Vec<Vec<u8>>, program_id: &Pubkey) -> (r: Option<(Pubkey, u8)>)
    ensures
        match r {
            Some((key, bump)) => {
                &&& is_canonical_bump(seed_bytes(seeds@), program_id@, bump)
                &&& program_address(seed_bytes(seeds@).push(seq![bump]), program_id@) == Some(key@)
            },
            None => has_no_bump(seed_bytes(seeds@), program_id@),
        },
{
    let slices: Vec<&[u8]> = seeds.iter().map(|s| s.as_slice()).collect();
    let program_id = anchor_lang::prelude::Pubkey::new_from_array(program_id.bytes);
    match anchor_lang::prelude::Pubkey::try_find_program_address(&slices, &program_id) {
        Some((key, bump)) => Some((Pubkey { bytes: key.to_bytes() }, bump)),
        None => None,
    }
}

/// The seeds, with their bump, of an address that the program signs for.
#[derive(Clone, Copy, Debug, PartialEq, Eq)]
pub enum SignerSeeds {
    /// The address of a pool: it may mint the pool's tokens.
    Pool { pool: Pubkey, bump: u8 },
    /// The address of a record of a pool, a staker or a rewarder: it owns the vaults
    /// of that record.
    Record { pool: Pubkey, record: Pubkey, bump: u8 },
}

impl SignerSeeds {
    /// The seeds as byte strings, in order, the bump last.
    pub open spec fn seeds(self) -> Seq<Seq<u8>> {
        match self {
            SignerSeeds::Pool { pool, bump } => seq![pool@, seq![bump]],
            SignerSeeds::Record { pool, record, bump } => seq![pool@, record@, seq![bump]],
        }
    }

    /// The address that the program `program_id` signs for with these seeds.
    pub open spec fn address(self, program_id: Pubkey) -> Option<Seq<u8>> {
        program_address(self.seeds(), program_id@)
    }

    /// The seeds as byte strings, as the runtime takes them for a signature.
    pub fn to_seeds(&self) -> (r: Vec<Vec<u8>>)
        ensures
            seed_bytes(r@) == self.seeds(),
    {
        let mut r: Vec<Vec<u8>> = Vec::new();
        match self {
            SignerSeeds::Pool { pool, bump } => {
                r.push(key_bytes(pool));
                r.push(one_byte(*bump));
            },
            SignerSeeds::Record { pool, record, bump } => {
                r.push(key_bytes(pool));
                r.push(key_bytes(record));
                r.push(one_byte(*bump));
            },
        }
        assert(seed_bytes(r@) =~= self.seeds());
        r
    }

    /// Derives the address of these seeds, where they give one.
    pub fn derive(&self, program_id: &Pubkey) -> (r: Option<Pubkey>)
        ensures
            optional_bytes(r) == self.address(*program_id),
    {
        let seeds = self.to_seeds();
        match create_program_address(&seeds, program_id) {
            Ok(key) => Some(key),
            Err(_) => None,
        }
    }
}

/// Tests whether `key` is the address that was derived.
pub fn is_address(derived: &Option<Pubkey>, key: &Pubkey) -> (r: bool)
    ensures
        r == (optional_bytes(*derived) == Some(key@)),
{
    match derived {
        Some(address) => {
            proof {
                lemma_key_is_its_bytes(*address, *key);
            }
            *address == *key
        },
        None => false,
    }
}

/// The bytes of a key as a seed.
fn key_bytes(key: &Pubkey) -> (r: Vec<u8>)
    ensures
        r@ == key@,
{
    let mut r: Vec<u8> = Vec::new();
    let mut i: usize = 0;
    while i < 32
        invariant
            i <= 32,
            r@ == key@.take(i as int),
        decreases 32 - i,
    {
        r.push(key.bytes[i]);
        i += 1;
        assert(key@.take(i as int).drop_last() =~= key@.take(i - 1));
    }
    assert(key@.take(32) =~= key@);
    r
}

/// A seed of one byte.
fn one_byte(byte: u8) -> (r: Vec<u8>)
    ensures
        r@ == seq![byte],
{
    let mut r: Vec<u8> = Vec::new();
    r.push(byte);
    r
}

/// The bytes of the word `pool-manager`.
pub open spec fn manager_word() -> Seq<u8> {
    seq![
        112u8, 111u8, 111u8, 108u8, 45u8, 109u8, 97u8, 110u8, 97u8, 103u8, 101u8, 114u8,
    ]
}

/// The seeds, without a bump, of the address where the manager with the number
/// `nonce` is kept.
pub open spec fn manager_seeds(nonce: u64) -> Seq<Seq<u8>> {
    seq![manager_word(), vstd::bytes::spec_u64_to_le_bytes(nonce)]
}

/// Some bump gives an address for the manager with the number `nonce`.
pub open spec fn manager_exists(nonce: u64, program_id: Pubkey) -> bool {
    !has_no_bump(manager_seeds(nonce), program_id@)
}

/// The address where the manager with the number `nonce` is kept: that of the
/// largest bump that gives one.
pub open spec fn manager_address(nonce: u64, program_id: Pubkey) -> Seq<u8>
    recommends
        manager_exists(nonce, program_id),
{
    let bump = choose|b: u8| is_canonical_bump(manager_seeds(nonce), program_id@, b);
    program_address(manager_seeds(nonce).push(seq![bump]), program_id@)->0
}

/// There is at most one canonical bump.
proof fn lemma_canonical_bump_is_unique(seeds: Seq<Seq<u8>>, program_id: Seq<u8>, a: u8, b: u8)
    requires
        is_canonical_bump(seeds, program_id, a),
        is_canonical_bump(seeds, program_id, b),
    ensures
        a == b,
{
    assert(program_address(seeds.push(seq![a]), program_id) is Some);
    assert(program_address(seeds.push(seq![b]), program_id) is Some);
}

/// Finds the address where the manager with the number `nonce` is kept. There is
/// none when no bump gives an address.
pub fn find_manager(nonce: u64, program_id: &Pubkey) -> (r: Option<Pubkey>)
    ensures
        r is Some <==> manager_exists(nonce, *program_id),
        r matches Some(key) ==> key@ == manager_address(nonce, *program_id),
{
    let word: Vec<u8> = vec![112, 111, 111, 108, 45, 109, 97, 110, 97, 103, 101, 114];
    assert(word@ =~= manager_word());
    let mut seeds: Vec<Vec<u8>> = Vec::new();
    seeds.push(word);
    seeds.push(vstd::bytes::u64_to_le_bytes(nonce));
    assert(seed_bytes(seeds@) =~= manager_seeds(nonce));
    match try_find_program_address(&seeds, program_id) {
        Some((key, bump)) => {
            proof {
                let found = choose|b: u8|
                    is_canonical_bump(manager_seeds(nonce), program_id@, b);
                lemma_canonical_bump_is_unique(manager_seeds(nonce), program_id@, bump, found);
                assert(program_address(manager_seeds(nonce).push(seq![bump]), program_id@) is Some);
            }
            Some(key)
        },
        None => None,
    }
}

} // verus!
