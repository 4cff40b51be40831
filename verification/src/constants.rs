//! Fixed protocol constants: PDA seed strings and the 32-byte identifiers of
//! the programs and accounts the exchange protocol is wired to. All of them
//! are bit-exact protocol contracts with the external on-chain program.

use vstd::prelude::*;

verus! {

/// Seed for the global state PDA: the bytes of `"global"`.
pub const GLOBAL_SEED: [u8; 6] = [103, 108, 111, 98, 97, 108];

/// Seed for the mint authority PDA: the bytes of `"mint-authority"`.
pub const MINT_AUTHORITY_SEED: [u8; 14] = [
    109, 105, 110, 116, 45, 97, 117, 116, 104, 111, 114, 105, 116, 121,
];

/// Seed for bonding curve PDAs: the bytes of `"bonding-curve"`.
pub const BONDING_CURVE_SEED: [u8; 13] = [
    98, 111, 110, 100, 105, 110, 103, 45, 99, 117, 114, 118, 101,
];

/// Seed for metadata PDAs: the bytes of `"metadata"`.
pub const METADATA_SEED: [u8; 8] = [109, 101, 116, 97, 100, 97, 116, 97];

/// The exchange program's identifier
/// (base58 `6EF8rrecthR5Dkzon8Nwu78hRvfCKubJ14M5uBEwF6P`).
pub const PUMP_PROGRAM_ID: [u8; 32] = [
    1, 86, 224, 246, 147, 102, 90, 207, 68, 219, 21, 104, 191, 23, 91, 170, 81, 137, 203, 151,
    245, 210, 255, 59, 101, 93, 43, 182, 253, 109, 24, 176,
];

/// The metadata-registry program's identifier
/// (base58 `metaqbxxUerdq28cj1RbAWkYQm3ybzjb6a8bt518x1s`).
pub const MPL_TOKEN_METADATA_ID: [u8; 32] = [
    11, 112, 101, 177, 227, 209, 124, 69, 56, 157, 82, 127, 107, 4, 195, 205, 88, 184, 108, 115,
    26, 160, 253, 181, 73, 182, 209, 188, 3, 248, 41, 70,
];

/// The token program's identifier
/// (base58 `TokenkegQfeZyiNwAJbNbGKPFXCWuBvf9Ss623VQ5DA`).
pub const TOKEN_PROGRAM_ID: [u8; 32] = [
    6, 221, 246, 225, 215, 101, 161, 147, 217, 203, 225, 70, 206, 235, 121, 172, 28, 180, 133,
    237, 95, 91, 55, 145, 58, 140, 245, 133, 126, 255, 0, 169,
];

/// The associated-token-account program's identifier
/// (base58 `ATokenGPvbdGVxr1b2hvZbsiqW5xWH25efTNsLJA8knL`).
pub const ASSOCIATED_TOKEN_PROGRAM_ID: [u8; 32] = [
    140, 151, 37, 143, 78, 36, 137, 241, 187, 61, 16, 41, 20, 142, 13, 131, 11, 90, 19, 153, 218,
    255, 16, 132, 4, 142, 123, 216, 219, 233, 248, 89,
];

/// The system program's identifier (base58 `11111111111111111111111111111111`).
pub const SYSTEM_PROGRAM_ID: [u8; 32] = [
    0, 0, 0, 0, 0, 0, 0, 0, 0, 0, 0, 0, 0, 0, 0, 0, 0, 0, 0, 0, 0, 0, 0, 0, 0, 0, 0, 0, 0, 0, 0,
    0,
];

/// The rent sysvar's address
/// (base58 `SysvarRent111111111111111111111111111111111`).
pub const RENT_SYSVAR_ID: [u8; 32] = [
    6, 167, 213, 23, 25, 44, 92, 81, 33, 140, 201, 76, 61, 74, 241, 127, 88, 218, 238, 8, 155,
    161, 253, 68, 227, 219, 217, 138, 0, 0, 0, 0,
];

/// The exchange program's fixed event authority account, used for
/// instruction introspection.
pub const EVENT_AUTHORITY: [u8; 32] = [
    172, 241, 54, 235, 1, 252, 28, 78, 136, 61, 35, 200, 181, 132, 74, 181, 154, 55, 246, 106,
    221, 87, 197, 233, 172, 59, 83, 224, 89, 211, 92, 100,
];

} // verus!
