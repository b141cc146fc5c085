//! Addresses, and the derivation of every address the fund needs.
//!
//! An address is derived from a list of seeds and the identity of this
//! program. The derivation searches for a bump, the one byte that makes the
//! derived address one that no private key can sign for. The bump is stored
//! when a record is created; later operations rebuild the address from the
//! seeds and the stored bump and compare it with the account they were given.

use crate::errors::FundError;
use solana_program::pubkey::{Pubkey, PubkeyError};
use vstd::prelude::*;
use vstd::slice::slice_to_vec;
use vstd::std_specs::cmp::PartialEqSpecImpl;
use vstd::utf8::encode_utf8;

verus! {

/// The number of bytes in an address.
pub const ADDRESS_BYTES: usize = 32;

/// The longest seed that a derivation accepts.
pub const MAX_SEED_LEN: usize = 32;

/// The largest number of seeds that a derivation accepts, the bump included.
pub const MAX_SEEDS: usize = 16;

/// The address of an account on the ledger.
#[derive(Debug, Clone, Copy, Eq)]
pub struct Address {
    pub bytes: [u8; 32],
}

impl View for Address {
    type V = Seq<u8>;

    open spec fn view(&self) -> Seq<u8> {
        self.bytes@
    }
}

impl PartialEq for Address {
    fn eq(&self, other: &Address) -> (r: bool) {
        let mut i: usize = 0;
        while i < 32
            invariant
                i <= 32,
                forall|j: int| 0 <= j < i ==> self.bytes[j] == other.bytes[j],
            decreases 32 - i,
        {
            if self.bytes[i] != other.bytes[i] {
                return false;
            }
            i += 1;
        }
        proof {
            assert(self@ =~= other@);
            lemma_address_ext(*self, *other);
        }
        true
    }
}

impl PartialEqSpecImpl for Address {
    open spec fn obeys_eq_spec() -> bool {
        true
    }

    open spec fn eq_spec(&self, other: &Address) -> bool {
        *self == *other
    }
}

/// Two addresses with the same bytes are the same address.
pub proof fn lemma_address_ext(a: Address, b: Address)
    requires
        a@ == b@,
    ensures
        a == b,
{
    assert forall|i: int| 0 <= i < 32 implies a.bytes[i] == b.bytes[i] by {
        assert(a.bytes@[i] == b.bytes@[i]);
    }
    assert(a.bytes =~= b.bytes);
}

impl Address {
    /// The address with the given bytes.
    pub fn new(bytes: [u8; 32]) -> (r: Address)
        ensures
            r.bytes == bytes,
    {
        Address { bytes }
    }

    /// The bytes of the address.
    pub fn to_bytes(&self) -> (r: [u8; 32])
        ensures
            r == self.bytes,
    {
        self.bytes
    }

    /// Whether two addresses have the same bytes.
    pub fn same(&self, other: &Address) -> (r: bool)
        ensures
            r == (self@ == other@),
    {
        let r = *self == *other;
        proof {
            if self@ == other@ {
                lemma_address_ext(*self, *other);
            }
        }
        r
    }

    /// The bytes of the address, as a seed for a derivation.
    pub fn to_vec(&self) -> (r: Vec<u8>)
        ensures
            r@ == self@,
    {
        let mut out: Vec<u8> = Vec::new();
        let mut i: usize = 0;
        while i < 32
            invariant
                i <= 32,
                out@ == self@.subrange(0, i as int),
            decreases 32 - i,
        {
            out.push(self.bytes[i]);
            i += 1;
            assert(out@ =~= self@.subrange(0, i as int));
        }
        assert(self@.subrange(0, 32) =~= self@);
        out
    }
}

/// The bytes of the system program's address.
pub open spec fn system_program_bytes() -> Seq<u8> {
    seq![
        0u8, 0, 0, 0, 0, 0, 0, 0, 0, 0, 0, 0, 0, 0, 0, 0,
        0, 0, 0, 0, 0, 0, 0, 0, 0, 0, 0, 0, 0, 0, 0, 0,
    ]
}

/// The bytes of the token program's address.
pub open spec fn token_program_bytes() -> Seq<u8> {
    seq![
        6u8, 221, 246, 225, 215, 101, 161, 147, 217, 203, 225, 70, 206, 235, 121, 172,
        28, 180, 133, 237, 95, 91, 55, 145, 58, 140, 245, 133, 126, 255, 0, 169,
    ]
}

/// The bytes of the associated-token-account program's address.
pub open spec fn associated_token_program_bytes() -> Seq<u8> {
    seq![
        140u8, 151, 37, 143, 78, 36, 137, 241, 187, 61, 16, 41, 20, 142, 13, 131,
        11, 90, 19, 153, 218, 255, 16, 132, 4, 142, 123, 216, 219, 233, 248, 89,
    ]
}

/// The bytes of the rent sysvar's address.
pub open spec fn rent_sysvar_bytes() -> Seq<u8> {
    seq![
        6u8, 167, 213, 23, 25, 44, 92, 81, 33, 140, 201, 76, 61, 74, 241, 127,
        88, 218, 238, 8, 155, 161, 253, 68, 227, 219, 217, 138, 0, 0, 0, 0,
    ]
}

/// The address of the system program, which creates accounts.
pub fn system_program_id() -> (r: Address)
    ensures
        r@ == system_program_bytes(),
{
    let r = Address {
        bytes: [
            0, 0, 0, 0, 0, 0, 0, 0, 0, 0, 0, 0, 0, 0, 0, 0,
            0, 0, 0, 0, 0, 0, 0, 0, 0, 0, 0, 0, 0, 0, 0, 0,
        ],
    };
    assert(r@ =~= system_program_bytes());
    r
}

/// The address of the token program, which owns balances and mints.
pub fn token_program_id() -> (r: Address)
    ensures
        r@ == token_program_bytes(),
{
    let r = Address {
        bytes: [
            6, 221, 246, 225, 215, 101, 161, 147, 217, 203, 225, 70, 206, 235, 121, 172,
            28, 180, 133, 237, 95, 91, 55, 145, 58, 140, 245, 133, 126, 255, 0, 169,
        ],
    };
    assert(r@ =~= token_program_bytes());
    r
}

/// The address of the program that creates associated token accounts.
pub fn associated_token_program_id() -> (r: Address)
    ensures
        r@ == associated_token_program_bytes(),
{
    let r = Address {
        bytes: [
            140, 151, 37, 143, 78, 36, 137, 241, 187, 61, 16, 41, 20, 142, 13, 131,
            11, 90, 19, 153, 218, 255, 16, 132, 4, 142, 123, 216, 219, 233, 248, 89,
        ],
    };
    assert(r@ =~= associated_token_program_bytes());
    r
}

/// The address of the rent sysvar.
pub fn rent_sysvar_id() -> (r: Address)
    ensures
        r@ == rent_sysvar_bytes(),
{
    let r = Address {
        bytes: [
            6, 167, 213, 23, 25, 44, 92, 81, 33, 140, 201, 76, 61, 74, 241, 127,
            88, 218, 238, 8, 155, 161, 253, 68, 227, 219, 217, 138, 0, 0, 0, 0,
        ],
    };
    assert(r@ =~= rent_sysvar_bytes());
    r
}

/// The seed that marks a fund record: the bytes of `fund`.
pub open spec fn fund_label() -> Seq<u8> {
    seq![102u8, 117, 110, 100]
}

/// The seed that marks a fund's share mint: the bytes of `mint`.
pub open spec fn mint_label() -> Seq<u8> {
    seq![109u8, 105, 110, 116]
}

/// The seed that marks a redemption record: the bytes of `redemption`.
pub open spec fn redemption_label() -> Seq<u8> {
    seq![114u8, 101, 100, 101, 109, 112, 116, 105, 111, 110]
}

/// Whether a derivation rejects these seeds for their number or length.
pub open spec fn seeds_exceed_limits(seeds: Seq<Seq<u8>>) -> bool {
    seeds.len() > MAX_SEEDS || exists|i: int|
        0 <= i < seeds.len() && (#[trigger] seeds[i]).len() > MAX_SEED_LEN
}

/// The address that the seeds and the program identity hash to, where that
/// address is one that no private key signs for.
pub uninterp spec fn created_address(seeds: Seq<Seq<u8>>, program_id: Seq<u8>) -> Option<Seq<u8>>;

/// The address and bump that the search over bumps finds for the seeds and
/// the program identity.
pub uninterp spec fn found_address(seeds: Seq<Seq<u8>>, program_id: Seq<u8>) -> Option<
    (Seq<u8>, u8),
>;

/// The address and bump found for the seeds, which is none where the seeds
/// with a bump added are over the limits.
pub open spec fn found_within_limits(seeds: Seq<Seq<u8>>, program_id: Seq<u8>) -> Option<
    (Seq<u8>, u8),
> {
    if seeds_exceed_limits(seeds.push(seq![0u8])) {
        None
    } else {
        found_address(seeds, program_id)
    }
}

/// The outcome of a search, over bytes.
pub open spec fn found_view(found: Option<(Address, u8)>) -> Option<(Seq<u8>, u8)> {
    match found {
        Some((address, bump)) => Some((address@, bump)),
        None => None,
    }
}

/// The outcome of a derivation with a given bump: the address, or the error
/// that the seeds earn.
pub open spec fn created_result(seeds: Seq<Seq<u8>>, program_id: Seq<u8>) -> Result<
    Seq<u8>,
    FundError,
> {
    created_outcome(seeds_exceed_limits(seeds), created_address(seeds, program_id))
}

/// What a derivation with a given bump returns: `MaxSeedLengthExceeded` for
/// seeds over the limits, else the address created, else `InvalidSeeds`.
pub open spec fn created_outcome(over_limits: bool, address: Option<Seq<u8>>) -> Result<
    Seq<u8>,
    FundError,
> {
    if over_limits {
        Err(FundError::MaxSeedLengthExceeded)
    } else {
        match address {
            Some(a) => Ok(a),
            None => Err(FundError::InvalidSeeds),
        }
    }
}

/// The outcome of a derivation, over bytes.
pub open spec fn created_view(created: Result<Address, FundError>) -> Result<Seq<u8>, FundError> {
    match created {
        Ok(address) => Ok(address@),
        Err(e) => Err(e),
    }
}

/// Calls `Pubkey::create_program_address` of `solana_program`.
///
/// Believed of it: seeds over the limits (more than sixteen, or one longer
/// than 32 bytes) give `MaxSeedLengthExceeded`; any other seeds give the
/// address they hash to with the program identity, or `InvalidSeeds` where
/// that hash is a point of the curve. The result depends on the seeds and
/// the program identity alone.
#[verifier::external_body]
pub(crate) fn create_program_address(seeds: &Vec<Vec<u8>>, program_id: &Address) -> (r: Result<Address, FundError>)
    ensures
        created_view(r) == created_outcome(
            seeds_exceed_limits(seeds.deep_view()),
            created_address(seeds.deep_view(), program_id@),
        ),
{
    let parts: Vec<&[u8]> = seeds.iter().map(|s| s.as_slice()).collect();
    match Pubkey::create_program_address(&parts, &Pubkey::new_from_array(program_id.bytes)) {
        Ok(key) => Ok(Address { bytes: key.to_bytes() }),
        Err(PubkeyError::MaxSeedLengthExceeded) => Err(FundError::MaxSeedLengthExceeded),
        Err(PubkeyError::InvalidSeeds) => Err(FundError::InvalidSeeds),
        Err(PubkeyError::IllegalOwner) => Err(FundError::IllegalOwner),
    }
}

/// Calls `Pubkey::try_find_program_address` of `solana_program`.
///
/// Believed of it: the result depends on the seeds and the program identity
/// alone; an address it finds is the one that the same seeds, followed by
/// the bump it found as a seed of one byte, create; and it finds nothing
/// where the seeds with a bump added are over the limits.
#[verifier::external_body]
pub(crate) fn find_program_address(seeds: &Vec<Vec<u8>>, program_id: &Address) -> (r: Option<(Address, u8)>)
    ensures
        found_view(r) == found_address(seeds.deep_view(), program_id@),
        r is Some ==> created_result(
            seeds.deep_view().push(seq![r.unwrap().1]),
            program_id@,
        ) == created_view(Ok(r.unwrap().0)),
        seeds_exceed_limits(seeds.deep_view().push(seq![0u8])) ==> r is None,
{
    let parts: Vec<&[u8]> = seeds.iter().map(|s| s.as_slice()).collect();
    match Pubkey::try_find_program_address(&parts, &Pubkey::new_from_array(program_id.bytes)) {
        Some((key, bump)) => Some((Address { bytes: key.to_bytes() }, bump)),
        None => None,
    }
}

/// The seeds of a fund record: the fund label and the fund's name.
pub open spec fn fund_seeds(name: Seq<u8>) -> Seq<Seq<u8>> {
    seq![fund_label(), name]
}

/// The seeds of a fund's share mint: the mint label and the fund's name.
pub open spec fn mint_seeds(name: Seq<u8>) -> Seq<Seq<u8>> {
    seq![mint_label(), name]
}

/// The seeds of a redemption record: the redemption label, the fund's name
/// and the investor's address.
pub open spec fn redemption_seeds(name: Seq<u8>, investor: Seq<u8>) -> Seq<Seq<u8>> {
    seq![redemption_label(), name, investor]
}

/// The seeds by which the token program associates a token account with a
/// wallet and a mint.
pub open spec fn associated_token_seeds(wallet: Seq<u8>, mint: Seq<u8>) -> Seq<Seq<u8>> {
    seq![wallet, token_program_bytes(), mint]
}

/// Seeds with their bump added: what the program signs with for the
/// derived address.
pub open spec fn with_bump(seeds: Seq<Seq<u8>>, bump: u8) -> Seq<Seq<u8>> {
    seeds.push(seq![bump])
}

/// The address of the token account that holds a wallet's balance of a mint,
/// if the association derives one.
pub open spec fn associated_token_address(wallet: Seq<u8>, mint: Seq<u8>) -> Option<Seq<u8>> {
    match found_address(associated_token_seeds(wallet, mint), associated_token_program_bytes()) {
        Some((address, _)) => Some(address),
        None => None,
    }
}

/// An address found, over bytes.
pub open spec fn address_view(address: Option<Address>) -> Option<Seq<u8>> {
    match address {
        Some(a) => Some(a@),
        None => None,
    }
}

fn fund_label_bytes() -> (r: Vec<u8>)
    ensures
        r@ == fund_label(),
{
    let r: Vec<u8> = vec![102, 117, 110, 100];
    assert(r@ =~= fund_label());
    r
}

fn mint_label_bytes() -> (r: Vec<u8>)
    ensures
        r@ == mint_label(),
{
    let r: Vec<u8> = vec![109, 105, 110, 116];
    assert(r@ =~= mint_label());
    r
}

fn redemption_label_bytes() -> (r: Vec<u8>)
    ensures
        r@ == redemption_label(),
{
    let r: Vec<u8> = vec![114, 101, 100, 101, 109, 112, 116, 105, 111, 110];
    assert(r@ =~= redemption_label());
    r
}

/// A list of seeds keeps what was pushed onto it.
proof fn lemma_seeds_push(before: Vec<Vec<u8>>, after: Vec<Vec<u8>>, seed: Vec<u8>)
    requires
        after@ == before@.push(seed),
    ensures
        after.deep_view() == before.deep_view().push(seed@),
{
    assert(seed.deep_view() =~= seed@);
    assert(after.deep_view() =~= before.deep_view().push(seed@));
}

fn two_seeds(first: Vec<u8>, second: Vec<u8>) -> (r: Vec<Vec<u8>>)
    ensures
        r.deep_view() == seq![first@, second@],
{
    let mut seeds: Vec<Vec<u8>> = Vec::new();
    let ghost s0 = seeds;
    assert(s0.deep_view() =~= Seq::<Seq<u8>>::empty());
    seeds.push(first);
    let ghost s1 = seeds;
    seeds.push(second);
    proof {
        lemma_seeds_push(s0, s1, first);
        lemma_seeds_push(s1, seeds, second);
        assert(seeds.deep_view() =~= seq![first@, second@]);
    }
    seeds
}

fn push_seed(seeds: Vec<Vec<u8>>, seed: Vec<u8>) -> (r: Vec<Vec<u8>>)
    ensures
        r.deep_view() == seeds.deep_view().push(seed@),
{
    let mut out = seeds;
    out.push(seed);
    proof {
        lemma_seeds_push(seeds, out, seed);
    }
    out
}

fn bump_seed(bump: u8) -> (r: Vec<u8>)
    ensures
        r@ == seq![bump],
{
    let r: Vec<u8> = vec![bump];
    assert(r@ =~= seq![bump]);
    r
}

/// The seeds of the fund record of the fund with this name.
pub fn fund_seeds_of(fund_name: &str) -> (r: Vec<Vec<u8>>)
    ensures
        r.deep_view() == fund_seeds(encode_utf8(fund_name@)),
{
    two_seeds(fund_label_bytes(), slice_to_vec(fund_name.as_bytes()))
}

/// The seeds of the share mint of the fund with this name.
pub fn mint_seeds_of(fund_name: &str) -> (r: Vec<Vec<u8>>)
    ensures
        r.deep_view() == mint_seeds(encode_utf8(fund_name@)),
{
    two_seeds(mint_label_bytes(), slice_to_vec(fund_name.as_bytes()))
}

/// The seeds of the redemption record of this investor in the fund with
/// this name.
pub fn redemption_seeds_of(fund_name: &str, investor: &Address) -> (r: Vec<Vec<u8>>)
    ensures
        r.deep_view() == redemption_seeds(encode_utf8(fund_name@), investor@),
{
    let seeds = two_seeds(redemption_label_bytes(), slice_to_vec(fund_name.as_bytes()));
    let seeds = push_seed(seeds, investor.to_vec());
    assert(seeds.deep_view() =~= redemption_seeds(encode_utf8(fund_name@), investor@));
    seeds
}

/// The seeds with which the program signs for a fund record.
pub fn fund_signer_seeds(fund_name: &str, bump: u8) -> (r: Vec<Vec<u8>>)
    ensures
        r.deep_view() == with_bump(fund_seeds(encode_utf8(fund_name@)), bump),
{
    push_seed(fund_seeds_of(fund_name), bump_seed(bump))
}

/// The seeds with which the program signs for a fund's share mint.
pub fn mint_signer_seeds(fund_name: &str, bump: u8) -> (r: Vec<Vec<u8>>)
    ensures
        r.deep_view() == with_bump(mint_seeds(encode_utf8(fund_name@)), bump),
{
    push_seed(mint_seeds_of(fund_name), bump_seed(bump))
}

/// The seeds with which the program signs for a redemption record.
pub fn redemption_signer_seeds(fund_name: &str, investor: &Address, bump: u8) -> (r: Vec<Vec<u8>>)
    ensures
        r.deep_view() == with_bump(redemption_seeds(encode_utf8(fund_name@), investor@), bump),
{
    push_seed(redemption_seeds_of(fund_name, investor), bump_seed(bump))
}

/// Derives the address and bump of the fund record of the fund with this
/// name.
pub fn find_fund_address(fund_name: &str, program_id: &Address) -> (r: Option<(Address, u8)>)
    ensures
        found_view(r) == found_within_limits(fund_seeds(encode_utf8(fund_name@)), program_id@),
        r matches Some((address, bump)) ==> created_result(
            with_bump(fund_seeds(encode_utf8(fund_name@)), bump),
            program_id@,
        ) == Ok::<Seq<u8>, FundError>(address@),
        encode_utf8(fund_name@).len() > MAX_SEED_LEN ==> r is None,
{
    let seeds = fund_seeds_of(fund_name);
    proof {
        let longer = seeds.deep_view().push(seq![0u8]);
        if encode_utf8(fund_name@).len() > MAX_SEED_LEN {
            assert(longer[1].len() > MAX_SEED_LEN);
        }
    }
    find_program_address(&seeds, program_id)
}

/// Derives the address and bump of the share mint of the fund with this
/// name.
pub fn find_mint_address(fund_name: &str, program_id: &Address) -> (r: Option<(Address, u8)>)
    ensures
        found_view(r) == found_within_limits(mint_seeds(encode_utf8(fund_name@)), program_id@),
        r matches Some((address, bump)) ==> created_result(
            with_bump(mint_seeds(encode_utf8(fund_name@)), bump),
            program_id@,
        ) == Ok::<Seq<u8>, FundError>(address@),
        encode_utf8(fund_name@).len() > MAX_SEED_LEN ==> r is None,
{
    let seeds = mint_seeds_of(fund_name);
    proof {
        let longer = seeds.deep_view().push(seq![0u8]);
        if encode_utf8(fund_name@).len() > MAX_SEED_LEN {
            assert(longer[1].len() > MAX_SEED_LEN);
        }
    }
    find_program_address(&seeds, program_id)
}

/// Derives the address and bump of the redemption record of this investor
/// in the fund with this name.
pub fn find_redemption_address(fund_name: &str, investor: &Address, program_id: &Address) -> (r: Option<(Address, u8)>)
    ensures
        found_view(r) == found_within_limits(
            redemption_seeds(encode_utf8(fund_name@), investor@),
            program_id@,
        ),
        r matches Some((address, bump)) ==> created_result(
            with_bump(redemption_seeds(encode_utf8(fund_name@), investor@), bump),
            program_id@,
        ) == Ok::<Seq<u8>, FundError>(address@),
        encode_utf8(fund_name@).len() > MAX_SEED_LEN ==> r is None,
{
    let seeds = redemption_seeds_of(fund_name, investor);
    proof {
        let longer = seeds.deep_view().push(seq![0u8]);
        if encode_utf8(fund_name@).len() > MAX_SEED_LEN {
            assert(longer[1].len() > MAX_SEED_LEN);
        }
    }
    find_program_address(&seeds, program_id)
}

/// Derives the address of the token account that the token program
/// associates with a wallet and a mint.
pub fn find_associated_token_address(wallet: &Address, mint: &Address) -> (r: Option<Address>)
    ensures
        address_view(r) == associated_token_address(wallet@, mint@),
{
    let seeds = two_seeds(wallet.to_vec(), token_program_id().to_vec());
    let seeds = push_seed(seeds, mint.to_vec());
    assert(seeds.deep_view() =~= associated_token_seeds(wallet@, mint@));
    match find_program_address(&seeds, &associated_token_program_id()) {
        Some((address, _)) => Some(address),
        None => None,
    }
}

/// Rebuilds the address of a fund record from its name and its stored bump.
pub fn create_fund_address(fund_name: &str, bump: u8, program_id: &Address) -> (r: Result<Address, FundError>)
    ensures
        created_view(r) == created_result(
            with_bump(fund_seeds(encode_utf8(fund_name@)), bump),
            program_id@,
        ),
{
    let seeds = fund_signer_seeds(fund_name, bump);
    create_program_address(&seeds, program_id)
}

/// The address of a search's outcome, without its bump.
pub open spec fn found_key(found: Option<(Seq<u8>, u8)>) -> Option<Seq<u8>> {
    match found {
        Some((address, _)) => Some(address),
        None => None,
    }
}

/// What is wrong with a supplied account, held against the address derived
/// for its role: `InvalidSeeds` where no address was derived,
/// `InvalidAccountData` where the account is another one.
pub open spec fn derivation_error(derived: Option<Seq<u8>>, supplied: Seq<u8>) -> Option<
    FundError,
> {
    match derived {
        None => Some(FundError::InvalidSeeds),
        Some(address) => if address == supplied {
            None
        } else {
            Some(FundError::InvalidAccountData)
        },
    }
}

/// What is wrong with a supplied account, held against the outcome of
/// rebuilding its address from a stored bump: the error of the rebuilding,
/// or `InvalidAccountData` where the account is another one.
pub open spec fn rebuilt_error(rebuilt: Result<Seq<u8>, FundError>, supplied: Seq<u8>) -> Option<
    FundError,
> {
    match rebuilt {
        Err(e) => Some(e),
        Ok(address) => if address == supplied {
            None
        } else {
            Some(FundError::InvalidAccountData)
        },
    }
}

/// An error, if there is one, as the failure of an operation.
pub open spec fn as_failure(error: Option<FundError>) -> Result<(), FundError> {
    match error {
        Some(e) => Err(e),
        None => Ok(()),
    }
}

/// Holds a supplied account against the address derived for its role.
pub fn check_derived(derived: Option<Address>, supplied: &Address) -> (r: Result<(), FundError>)
    ensures
        r == as_failure(derivation_error(address_view(derived), supplied@)),
{
    match derived {
        None => Err(FundError::InvalidSeeds),
        Some(address) => {
            if address.same(supplied) {
                Ok(())
            } else {
                Err(FundError::InvalidAccountData)
            }
        },
    }
}

/// Holds a supplied account against the address found for its role.
pub fn check_found(found: Option<(Address, u8)>, supplied: &Address) -> (r: Result<u8, FundError>)
    ensures
        match r {
            Ok(bump) => derivation_error(found_key(found_view(found)), supplied@) is None
                && found is Some && bump == found.unwrap().1,
            Err(e) => derivation_error(found_key(found_view(found)), supplied@) == Some(e),
        },
{
    match found {
        None => Err(FundError::InvalidSeeds),
        Some((address, bump)) => {
            if address.same(supplied) {
                Ok(bump)
            } else {
                Err(FundError::InvalidAccountData)
            }
        },
    }
}

/// Holds a supplied account against the outcome of rebuilding its address.
pub fn check_rebuilt(rebuilt: Result<Address, FundError>, supplied: &Address) -> (r: Result<
    (),
    FundError,
>)
    ensures
        r == as_failure(rebuilt_error(created_view(rebuilt), supplied@)),
{
    match rebuilt {
        Err(e) => Err(e),
        Ok(address) => {
            if address.same(supplied) {
                Ok(())
            } else {
                Err(FundError::InvalidAccountData)
            }
        },
    }
}

/// A name longer than a seed may be derives nothing: where
/// an address is found for a fund record, a mint or a redemption record,
/// the name is at most 32 bytes long.
pub proof fn lemma_found_name_fits(name: Seq<u8>, investor: Seq<u8>, program_id: Seq<u8>)
    ensures
        found_within_limits(fund_seeds(name), program_id) is Some ==> name.len() <= MAX_SEED_LEN,
        found_within_limits(mint_seeds(name), program_id) is Some ==> name.len() <= MAX_SEED_LEN,
        found_within_limits(redemption_seeds(name, investor), program_id) is Some ==> name.len()
            <= MAX_SEED_LEN,
{
    if name.len() > MAX_SEED_LEN {
        assert(fund_seeds(name).push(seq![0u8])[1].len() > MAX_SEED_LEN);
        assert(mint_seeds(name).push(seq![0u8])[1].len() > MAX_SEED_LEN);
        assert(redemption_seeds(name, investor).push(seq![0u8])[1].len() > MAX_SEED_LEN);
    }
}

/// Deriving twice from the same seeds gives the same address and the same
/// bump: for the fund record, the share mint and the redemption record, and
/// for the token account associated with a wallet and a mint.
pub proof fn lemma_derivation_deterministic(
    name: Seq<u8>,
    investor: Seq<u8>,
    program_id: Seq<u8>,
    wallet: Seq<u8>,
    mint: Seq<u8>,
    same_name: Seq<u8>,
    same_investor: Seq<u8>,
    same_program_id: Seq<u8>,
    same_wallet: Seq<u8>,
    same_mint: Seq<u8>,
)
    requires
        name == same_name,
        investor == same_investor,
        program_id == same_program_id,
        wallet == same_wallet,
        mint == same_mint,
    ensures
        found_within_limits(fund_seeds(name), program_id) == found_within_limits(
            fund_seeds(same_name),
            same_program_id,
        ),
        found_within_limits(mint_seeds(name), program_id) == found_within_limits(
            mint_seeds(same_name),
            same_program_id,
        ),
        found_within_limits(redemption_seeds(name, investor), program_id) == found_within_limits(
            redemption_seeds(same_name, same_investor),
            same_program_id,
        ),
        associated_token_address(wallet, mint) == associated_token_address(same_wallet, same_mint),
{
}

} // verus!
