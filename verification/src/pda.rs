//! Deterministic program-derived addresses (PDAs).
//!
//! A PDA is computed from a list of seed byte strings and a 32-byte program
//! identifier by a one-way hashing function that probes bump values 255 down
//! to 0 until an off-curve result is found; it fails (very improbably) if no
//! bump yields an off-curve address. The derivation is a pure function of the
//! seeds and the program id, performed by the external crate and named here
//! by the uninterpreted function [`pda_of`].

use vstd::prelude::*;
use vstd::slice::slice_to_vec;
use crate::constants::{
    ASSOCIATED_TOKEN_PROGRAM_ID, BONDING_CURVE_SEED, GLOBAL_SEED, METADATA_SEED,
    MINT_AUTHORITY_SEED, MPL_TOKEN_METADATA_ID, PUMP_PROGRAM_ID, TOKEN_PROGRAM_ID,
};

verus! {

/// A derived address: a 32-byte account address plus the bump byte the
/// derivation settled on.
#[derive(Clone, Debug, PartialEq, Eq)]
pub struct DerivedAddress {
    /// The 32-byte derived account address.
    pub address: Vec<u8>,
    /// The bump byte under which the address came out off-curve.
    pub bump: u8,
}

impl DerivedAddress {
    /// A well-formed derived address holds exactly 32 bytes.
    pub open spec fn wf(self) -> bool {
        self.address@.len() == 32
    }
}

/// What the external derivation returns for given seeds and program id:
/// `None` if no bump in 255..=0 yields an off-curve address (or a seed is
/// over the seed-length limits), else the address bytes and the bump.
pub uninterp spec fn pda_of(seeds: Seq<Seq<u8>>, program_id: Seq<u8>) -> Option<(Seq<u8>, u8)>;

/// The byte views of a list of seed strings.
pub open spec fn views_of(seeds: Seq<Vec<u8>>) -> Seq<Seq<u8>> {
    seeds.map_values(|s: Vec<u8>| s@)
}

/// Relies on `solana_sdk`'s `Pubkey::try_find_program_address`: the result is
/// a pure function of the seeds and the program id alone (a bump-probed
/// SHA-256 with domain separation), it never panics, and a returned address
/// is exactly 32 bytes.
#[verifier::external_body]
fn try_find_pda(seeds: &Vec<Vec<u8>>, program_id: &[u8]) -> (r: Option<DerivedAddress>)
    requires
        program_id@.len() == 32,
    ensures
        r is Some <==> pda_of(views_of(seeds@), program_id@) is Some,
        r is Some ==> (r->Some_0.address@, r->Some_0.bump) == pda_of(
            views_of(seeds@),
            program_id@,
        )->Some_0,
        r is Some ==> r->Some_0.wf(),
{
    let pk = solana_sdk::pubkey::Pubkey::try_from(program_id).unwrap();
    let refs: Vec<&[u8]> = seeds.iter().map(|s| s.as_slice()).collect();
    solana_sdk::pubkey::Pubkey::try_find_program_address(&refs, &pk).map(
        |(a, b)| DerivedAddress { address: a.to_bytes().to_vec(), bump: b },
    )
}

/// The global state account's derivation.
pub open spec fn spec_global_pda() -> Option<(Seq<u8>, u8)> {
    pda_of(seq![GLOBAL_SEED@], PUMP_PROGRAM_ID@)
}

/// The mint authority's derivation.
pub open spec fn spec_mint_authority_pda() -> Option<(Seq<u8>, u8)> {
    pda_of(seq![MINT_AUTHORITY_SEED@], PUMP_PROGRAM_ID@)
}

/// A token's bonding curve account derivation.
pub open spec fn spec_bonding_curve_pda(mint: Seq<u8>) -> Option<(Seq<u8>, u8)> {
    pda_of(seq![BONDING_CURVE_SEED@, mint], PUMP_PROGRAM_ID@)
}

/// A token's metadata account derivation: against the metadata-registry
/// program, not the exchange program.
pub open spec fn spec_metadata_pda(mint: Seq<u8>) -> Option<(Seq<u8>, u8)> {
    pda_of(
        seq![METADATA_SEED@, MPL_TOKEN_METADATA_ID@, mint],
        MPL_TOKEN_METADATA_ID@,
    )
}

/// Derives the global state PDA of the exchange program.
pub fn get_global_pda() -> (r: Option<DerivedAddress>)
    ensures
        r is Some <==> spec_global_pda() is Some,
        r is Some ==> r->Some_0.wf() && (r->Some_0.address@, r->Some_0.bump)
            == spec_global_pda()->Some_0,
{
    let mut seeds: Vec<Vec<u8>> = Vec::new();
    seeds.push(slice_to_vec(GLOBAL_SEED.as_slice()));
    proof {
        assert(views_of(seeds@) =~= seq![GLOBAL_SEED@]);
    }
    try_find_pda(&seeds, PUMP_PROGRAM_ID.as_slice())
}

/// Derives the mint authority PDA of the exchange program.
pub fn get_mint_authority_pda() -> (r: Option<DerivedAddress>)
    ensures
        r is Some <==> spec_mint_authority_pda() is Some,
        r is Some ==> r->Some_0.wf() && (r->Some_0.address@, r->Some_0.bump)
            == spec_mint_authority_pda()->Some_0,
{
    let mut seeds: Vec<Vec<u8>> = Vec::new();
    seeds.push(slice_to_vec(MINT_AUTHORITY_SEED.as_slice()));
    proof {
        assert(views_of(seeds@) =~= seq![MINT_AUTHORITY_SEED@]);
    }
    try_find_pda(&seeds, PUMP_PROGRAM_ID.as_slice())
}

/// Derives a token's bonding curve PDA, `None` if no off-curve bump exists
/// for this mint (callers treat that as a fatal precondition failure).
pub fn get_bonding_curve_pda(mint: &[u8]) -> (r: Option<DerivedAddress>)
    requires
        mint@.len() == 32,
    ensures
        r is Some <==> spec_bonding_curve_pda(mint@) is Some,
        r is Some ==> r->Some_0.wf() && (r->Some_0.address@, r->Some_0.bump)
            == spec_bonding_curve_pda(mint@)->Some_0,
{
    let mut seeds: Vec<Vec<u8>> = Vec::new();
    seeds.push(slice_to_vec(BONDING_CURVE_SEED.as_slice()));
    seeds.push(slice_to_vec(mint));
    proof {
        assert(views_of(seeds@) =~= seq![BONDING_CURVE_SEED@, mint@]);
    }
    try_find_pda(&seeds, PUMP_PROGRAM_ID.as_slice())
}

/// Law: every derivation here is deterministic, so repeated calls yield
/// identical output. Each derivation's contract pins its result to one spec
/// value — `spec_global_pda()`, `spec_mint_authority_pda()`,
/// `spec_bonding_curve_pda(mint)` for a fixed mint, and so on — and any two
/// results pinned to the same value agree with each other.
pub proof fn lemma_derivation_deterministic(
    pinned: Option<(Seq<u8>, u8)>,
    r1: Option<DerivedAddress>,
    r2: Option<DerivedAddress>,
)
    requires
        r1 is Some <==> pinned is Some,
        r2 is Some <==> pinned is Some,
        r1 is Some ==> (r1->Some_0.address@, r1->Some_0.bump) == pinned->Some_0,
        r2 is Some ==> (r2->Some_0.address@, r2->Some_0.bump) == pinned->Some_0,
    ensures
        r1 is Some <==> r2 is Some,
        r1 is Some ==> (r1->Some_0.address@, r1->Some_0.bump) == (
            r2->Some_0.address@,
            r2->Some_0.bump,
        ),
{
}

/// A wallet's associated token account derivation for a mint: seeds are the
/// wallet, the token program and the mint, against the associated-token
/// program.
pub open spec fn spec_associated_token_pda(wallet: Seq<u8>, mint: Seq<u8>) -> Option<
    (Seq<u8>, u8),
> {
    pda_of(seq![wallet, TOKEN_PROGRAM_ID@, mint], ASSOCIATED_TOKEN_PROGRAM_ID@)
}

/// Derives a wallet's associated token account address for a mint.
pub fn get_associated_token_address(wallet: &[u8], mint: &[u8]) -> (r: Option<DerivedAddress>)
    requires
        wallet@.len() == 32,
        mint@.len() == 32,
    ensures
        r is Some <==> spec_associated_token_pda(wallet@, mint@) is Some,
        r is Some ==> r->Some_0.wf() && (r->Some_0.address@, r->Some_0.bump)
            == spec_associated_token_pda(wallet@, mint@)->Some_0,
{
    let mut seeds: Vec<Vec<u8>> = Vec::new();
    seeds.push(slice_to_vec(wallet));
    seeds.push(slice_to_vec(TOKEN_PROGRAM_ID.as_slice()));
    seeds.push(slice_to_vec(mint));
    proof {
        assert(views_of(seeds@) =~= seq![wallet@, TOKEN_PROGRAM_ID@, mint@]);
    }
    try_find_pda(&seeds, ASSOCIATED_TOKEN_PROGRAM_ID.as_slice())
}

/// Derives a token's metadata PDA against the metadata-registry program.
pub fn get_metadata_pda(mint: &[u8]) -> (r: Option<DerivedAddress>)
    requires
        mint@.len() == 32,
    ensures
        r is Some <==> spec_metadata_pda(mint@) is Some,
        r is Some ==> r->Some_0.wf() && (r->Some_0.address@, r->Some_0.bump)
            == spec_metadata_pda(mint@)->Some_0,
{
    let mut seeds: Vec<Vec<u8>> = Vec::new();
    seeds.push(slice_to_vec(METADATA_SEED.as_slice()));
    seeds.push(slice_to_vec(MPL_TOKEN_METADATA_ID.as_slice()));
    seeds.push(slice_to_vec(mint));
    proof {
        assert(views_of(seeds@) =~= seq![METADATA_SEED@, MPL_TOKEN_METADATA_ID@, mint@]);
    }
    try_find_pda(&seeds, MPL_TOKEN_METADATA_ID.as_slice())
}

} // verus!
