//! Decoded, read-only snapshots of the exchange program's on-chain accounts,
//! the fixed-format codec that reads them from raw bytes, and the integer
//! pricing functions of the bonding curve.
//!
//! Both account records are fixed binary layouts: an 8-byte record tag
//! followed by the fields in protocol order, integers little-endian, booleans
//! one byte holding 0 or 1. The byte offsets are a protocol contract with the
//! external program, not an internal choice.

use vstd::prelude::*;
use vstd::slice::slice_index_get;
use vstd::arithmetic::div_mod::{
    lemma_div_is_ordered, lemma_div_is_ordered_by_denominator, lemma_div_multiples_vanish,
    lemma_fundamental_div_mod, lemma_fundamental_div_mod_converse_div,
    lemma_fundamental_div_mod_converse_mod, lemma_mod_bound,
};
use vstd::arithmetic::div_mod::lemma_div_pos_is_pos;
use vstd::arithmetic::mul::{lemma_mul_inequality, lemma_mul_nonnegative, lemma_mul_upper_bound};
use crate::error::{DecodeError, PricingError};

verus! {

/// Record tag of the global state account.
pub const GLOBAL_DISCRIMINATOR: [u8; 8] = [167, 232, 232, 177, 200, 108, 114, 127];

/// Record tag of a bonding curve account.
pub const BONDING_CURVE_DISCRIMINATOR: [u8; 8] = [23, 183, 248, 55, 96, 216, 172, 96];

/// Byte length of an encoded global state account.
pub const GLOBAL_ACCOUNT_LEN: usize = 113;

/// Byte length of an encoded bonding curve account.
pub const BONDING_CURVE_ACCOUNT_LEN: usize = 49;

/// The unsigned value of 8 little-endian bytes.
pub open spec fn spec_u64_le(s: Seq<u8>) -> int
    recommends
        s.len() == 8,
{
    s[0] + s[1] * 0x100 + s[2] * 0x1_0000 + s[3] * 0x100_0000 + s[4] * 0x1_0000_0000 + s[5]
        * 0x100_0000_0000 + s[6] * 0x1_0000_0000_0000 + s[7] * 0x100_0000_0000_0000
}

/// The 8 little-endian bytes of a 64-bit value.
pub open spec fn spec_u64_bytes(x: u64) -> Seq<u8> {
    seq![
        (x as int % 0x100) as u8,
        (x as int / 0x100 % 0x100) as u8,
        (x as int / 0x1_0000 % 0x100) as u8,
        (x as int / 0x100_0000 % 0x100) as u8,
        (x as int / 0x1_0000_0000 % 0x100) as u8,
        (x as int / 0x100_0000_0000 % 0x100) as u8,
        (x as int / 0x1_0000_0000_0000 % 0x100) as u8,
        (x as int / 0x100_0000_0000_0000 % 0x100) as u8,
    ]
}

/// The byte encoding a boolean flag.
pub open spec fn spec_bool_byte(b: bool) -> u8 {
    if b {
        1u8
    } else {
        0u8
    }
}

/// Reading a 64-bit value back from its little-endian bytes is lossless:
/// any 8 bytes are reproduced exactly by re-encoding the value they denote.
pub proof fn lemma_u64_le_bytes(s: Seq<u8>)
    requires
        s.len() == 8,
    ensures
        0 <= spec_u64_le(s) <= u64::MAX,
        spec_u64_bytes(spec_u64_le(s) as u64) == s,
{
    let s0 = s[0] as int;
    let s1 = s[1] as int;
    let s2 = s[2] as int;
    let s3 = s[3] as int;
    let s4 = s[4] as int;
    let s5 = s[5] as int;
    let s6 = s[6] as int;
    let s7 = s[7] as int;
    let x = spec_u64_le(s);
    let h1 = s1 + s2 * 0x100 + s3 * 0x1_0000 + s4 * 0x100_0000 + s5 * 0x1_0000_0000 + s6
        * 0x100_0000_0000 + s7 * 0x1_0000_0000_0000;
    let h2 = s2 + s3 * 0x100 + s4 * 0x1_0000 + s5 * 0x100_0000 + s6 * 0x1_0000_0000 + s7
        * 0x100_0000_0000;
    let h3 = s3 + s4 * 0x100 + s5 * 0x1_0000 + s6 * 0x100_0000 + s7 * 0x1_0000_0000;
    let h4 = s4 + s5 * 0x100 + s6 * 0x1_0000 + s7 * 0x100_0000;
    let h5 = s5 + s6 * 0x100 + s7 * 0x1_0000;
    let h6 = s6 + s7 * 0x100;
    let h7 = s7;
    lemma_fundamental_div_mod_converse_mod(x, 0x100, h1, s0);
    lemma_fundamental_div_mod_converse_div(x, 0x100, h1, s0);
    lemma_fundamental_div_mod_converse_mod(h1, 0x100, h2, s1);
    lemma_fundamental_div_mod_converse_div(x, 0x1_0000, h2, s0 + s1 * 0x100);
    lemma_fundamental_div_mod_converse_mod(h2, 0x100, h3, s2);
    lemma_fundamental_div_mod_converse_div(x, 0x100_0000, h3, s0 + s1 * 0x100 + s2 * 0x1_0000);
    lemma_fundamental_div_mod_converse_mod(h3, 0x100, h4, s3);
    lemma_fundamental_div_mod_converse_div(
        x,
        0x1_0000_0000,
        h4,
        s0 + s1 * 0x100 + s2 * 0x1_0000 + s3 * 0x100_0000,
    );
    lemma_fundamental_div_mod_converse_mod(h4, 0x100, h5, s4);
    lemma_fundamental_div_mod_converse_div(
        x,
        0x100_0000_0000,
        h5,
        s0 + s1 * 0x100 + s2 * 0x1_0000 + s3 * 0x100_0000 + s4 * 0x1_0000_0000,
    );
    lemma_fundamental_div_mod_converse_mod(h5, 0x100, h6, s5);
    lemma_fundamental_div_mod_converse_div(
        x,
        0x1_0000_0000_0000,
        h6,
        s0 + s1 * 0x100 + s2 * 0x1_0000 + s3 * 0x100_0000 + s4 * 0x1_0000_0000 + s5
            * 0x100_0000_0000,
    );
    lemma_fundamental_div_mod_converse_mod(h6, 0x100, h7, s6);
    lemma_fundamental_div_mod_converse_div(
        x,
        0x100_0000_0000_0000,
        h7,
        s0 + s1 * 0x100 + s2 * 0x1_0000 + s3 * 0x100_0000 + s4 * 0x1_0000_0000 + s5
            * 0x100_0000_0000 + s6 * 0x1_0000_0000_0000,
    );
    lemma_fundamental_div_mod_converse_mod(h7, 0x100, 0, s7);
    assert(spec_u64_bytes(x as u64) =~= s);
}

/// Encoding a 64-bit value and reading the bytes back yields the value.
pub proof fn lemma_u64_bytes_value(x: u64)
    ensures
        spec_u64_le(spec_u64_bytes(x)) == x,
{
    let xi = x as int;
    lemma_fundamental_div_mod(xi, 0x100);
    lemma_mod_bound(xi, 0x100);
    lemma_fundamental_div_mod_converse_div(xi, 0x1_0000, xi / 0x1_0000, xi % 0x1_0000);
    lemma_fundamental_div_mod(xi / 0x100, 0x100);
    lemma_mod_bound(xi / 0x100, 0x100);
    lemma_fundamental_div_mod(xi / 0x1_0000, 0x100);
    lemma_mod_bound(xi / 0x1_0000, 0x100);
    lemma_fundamental_div_mod(xi / 0x100_0000, 0x100);
    lemma_mod_bound(xi / 0x100_0000, 0x100);
    lemma_fundamental_div_mod(xi / 0x1_0000_0000, 0x100);
    lemma_mod_bound(xi / 0x1_0000_0000, 0x100);
    lemma_fundamental_div_mod(xi / 0x100_0000_0000, 0x100);
    lemma_mod_bound(xi / 0x100_0000_0000, 0x100);
    lemma_fundamental_div_mod(xi / 0x1_0000_0000_0000, 0x100);
    lemma_mod_bound(xi / 0x1_0000_0000_0000, 0x100);
    lemma_fundamental_div_mod(xi / 0x100_0000_0000_0000, 0x100);
    lemma_mod_bound(xi / 0x100_0000_0000_0000, 0x100);
    lemma_div_chain(xi);
    assert(xi / 0x100_0000_0000_0000 / 0x100 == 0) by {
        lemma_div_is_ordered(xi, 0xffff_ffff_ffff_ffff, 0x100_0000_0000_0000);
    };
}

/// Dividing twice by powers of 256 is dividing by their product.
proof fn lemma_div_chain(x: int)
    requires
        0 <= x,
    ensures
        x / 0x100 / 0x100 == x / 0x1_0000,
        x / 0x1_0000 / 0x100 == x / 0x100_0000,
        x / 0x100_0000 / 0x100 == x / 0x1_0000_0000,
        x / 0x1_0000_0000 / 0x100 == x / 0x100_0000_0000,
        x / 0x100_0000_0000 / 0x100 == x / 0x1_0000_0000_0000,
        x / 0x1_0000_0000_0000 / 0x100 == x / 0x100_0000_0000_0000,
{
    lemma_div_step(x, 0x100);
    lemma_div_step(x, 0x1_0000);
    lemma_div_step(x, 0x100_0000);
    lemma_div_step(x, 0x1_0000_0000);
    lemma_div_step(x, 0x100_0000_0000);
    lemma_div_step(x, 0x1_0000_0000_0000);
}

/// One step of the chain: `x / d / 256 == x / (256 * d)`.
proof fn lemma_div_step(x: int, d: int)
    requires
        0 <= x,
        0 < d,
    ensures
        x / d / 0x100 == x / (0x100 * d),
{
    lemma_fundamental_div_mod(x, d);
    lemma_mod_bound(x, d);
    lemma_fundamental_div_mod(x / d, 0x100);
    lemma_mod_bound(x / d, 0x100);
    let q = x / d / 0x100;
    let r = (x / d % 0x100) * d + x % d;
    assert(x == q * (0x100 * d) + r) by (nonlinear_arith)
        requires
            x == d * (x / d) + x % d,
            x / d == 0x100 * q + (x / d % 0x100),
            r == (x / d % 0x100) * d + x % d,
    ;
    assert(0 <= r < 0x100 * d) by (nonlinear_arith)
        requires
            r == (x / d % 0x100) * d + x % d,
            0 <= x / d % 0x100 < 0x100,
            0 <= x % d < d,
    ;
    lemma_fundamental_div_mod_converse_div(x, 0x100 * d, q, r);
}

/// Reads the 64-bit little-endian value at `off`.
pub fn read_u64_le(data: &[u8], off: usize) -> (r: u64)
    requires
        off + 8 <= data@.len(),
    ensures
        r == spec_u64_le(data@.subrange(off as int, off as int + 8)),
{
    let n: usize = data.len();
    let b0: u8 = *slice_index_get(data, off);
    let b1: u8 = *slice_index_get(data, off + 1);
    let b2: u8 = *slice_index_get(data, off + 2);
    let b3: u8 = *slice_index_get(data, off + 3);
    let b4: u8 = *slice_index_get(data, off + 4);
    let b5: u8 = *slice_index_get(data, off + 5);
    let b6: u8 = *slice_index_get(data, off + 6);
    let b7: u8 = *slice_index_get(data, off + 7);
    let r: u64 = b0 as u64 + b1 as u64 * 0x100 + b2 as u64 * 0x1_0000 + b3 as u64 * 0x100_0000
        + b4 as u64 * 0x1_0000_0000 + b5 as u64 * 0x100_0000_0000 + b6 as u64 * 0x1_0000_0000_0000
        + b7 as u64 * 0x100_0000_0000_0000;
    proof {
        let s = data@.subrange(off as int, off as int + 8);
        assert(s[0] == b0 && s[1] == b1 && s[2] == b2 && s[3] == b3 && s[4] == b4 && s[5] == b5
            && s[6] == b6 && s[7] == b7);
    }
    r
}

/// Appends the 8 little-endian bytes of `x`.
pub fn write_u64_le(out: &mut Vec<u8>, x: u64)
    ensures
        final(out)@ == old(out)@ + spec_u64_bytes(x),
{
    out.push((x % 0x100) as u8);
    out.push((x / 0x100 % 0x100) as u8);
    out.push((x / 0x1_0000 % 0x100) as u8);
    out.push((x / 0x100_0000 % 0x100) as u8);
    out.push((x / 0x1_0000_0000 % 0x100) as u8);
    out.push((x / 0x100_0000_0000 % 0x100) as u8);
    out.push((x / 0x1_0000_0000_0000 % 0x100) as u8);
    out.push((x / 0x100_0000_0000_0000 % 0x100) as u8);
    proof {
        assert(final(out)@ =~= old(out)@ + spec_u64_bytes(x));
    }
}

/// Copies the 32 bytes at `off` into an owned vector.
pub fn read_bytes32(data: &[u8], off: usize) -> (r: Vec<u8>)
    requires
        off + 32 <= data@.len(),
    ensures
        r@ == data@.subrange(off as int, off as int + 32),
{
    let n: usize = data.len();
    let mut r: Vec<u8> = Vec::new();
    let mut i: usize = 0;
    while i < 32
        invariant
            off + 32 <= n == data@.len(),
            i <= 32,
            r@ == data@.subrange(off as int, off as int + i as int),
        decreases 32 - i,
    {
        r.push(*slice_index_get(data, off + i));
        proof {
            assert(r@ =~= data@.subrange(off as int, off as int + i as int + 1));
        }
        i = i + 1;
    }
    r
}

/// Appends every byte of `s`.
pub fn push_bytes(out: &mut Vec<u8>, s: &[u8])
    ensures
        final(out)@ == old(out)@ + s@,
{
    let mut i: usize = 0;
    while i < s.len()
        invariant
            i <= s@.len(),
            out@ == old(out)@ + s@.subrange(0, i as int),
        decreases s@.len() - i,
    {
        out.push(*slice_index_get(s, i));
        proof {
            assert(out@ =~= old(out)@ + s@.subrange(0, i as int + 1));
        }
        i = i + 1;
    }
    proof {
        assert(out@ =~= old(out)@ + s@);
    }
}

/// True exactly when the first 8 bytes of `data` equal `tag`.
fn has_tag8(data: &[u8], tag: &[u8; 8]) -> (r: bool)
    requires
        data@.len() >= 8,
    ensures
        r <==> data@.subrange(0, 8) == tag@,
{
    let mut i: usize = 0;
    let mut ok: bool = true;
    while i < 8
        invariant
            data@.len() >= 8,
            i <= 8,
            ok <==> (forall|k: int| 0 <= k < i ==> data@[k] == tag@[k]),
        decreases 8 - i,
    {
        if *slice_index_get(data, i) != *slice_index_get(tag.as_slice(), i) {
            ok = false;
        }
        i = i + 1;
    }
    proof {
        if ok {
            assert(data@.subrange(0, 8) =~= tag@);
        }
        if data@.subrange(0, 8) == tag@ {
            assert(forall|k: int| 0 <= k < 8 ==> data@[k] == data@.subrange(0, 8)[k]);
        }
    }
    ok
}

/// Decoded snapshot of the program-wide configuration account. Fetched fresh
/// for every operation; never cached.
#[derive(Clone, Debug, PartialEq, Eq)]
pub struct GlobalAccount {
    /// Whether the program has been initialized.
    pub initialized: bool,
    /// The program authority's 32-byte address.
    pub authority: Vec<u8>,
    /// The 32-byte address fees are paid to.
    pub fee_recipient: Vec<u8>,
    /// Virtual token reserves a fresh curve starts with.
    pub initial_virtual_token_reserves: u64,
    /// Virtual base-currency reserves a fresh curve starts with.
    pub initial_virtual_sol_reserves: u64,
    /// Real token reserves a fresh curve starts with.
    pub initial_real_token_reserves: u64,
    /// Total token supply a fresh curve starts with.
    pub token_total_supply: u64,
    /// Fee rate in basis points (1 bp = 0.01%).
    pub fee_basis_points: u64,
}

impl GlobalAccount {
    /// Well-formed: both addresses hold exactly 32 bytes.
    pub open spec fn wf(self) -> bool {
        self.authority@.len() == 32 && self.fee_recipient@.len() == 32
    }
}

/// The exact byte encoding of a global state account.
pub open spec fn spec_global_bytes(g: GlobalAccount) -> Seq<u8>
    recommends
        g.wf(),
{
    GLOBAL_DISCRIMINATOR@ + seq![spec_bool_byte(g.initialized)] + g.authority@ + g.fee_recipient@
        + spec_u64_bytes(g.initial_virtual_token_reserves) + spec_u64_bytes(
        g.initial_virtual_sol_reserves,
    ) + spec_u64_bytes(g.initial_real_token_reserves) + spec_u64_bytes(g.token_total_supply)
        + spec_u64_bytes(g.fee_basis_points)
}

/// Decodes a global state account snapshot from raw account bytes.
///
/// Succeeds exactly on a buffer of the fixed length, carrying the global
/// record tag and a valid boolean byte; the decoded snapshot re-encodes to
/// the input bytes exactly.
pub fn decode_global(data: &[u8]) -> (r: Result<GlobalAccount, DecodeError>)
    ensures
        r is Ok <==> (data@.len() == GLOBAL_ACCOUNT_LEN && data@.subrange(0, 8)
            == GLOBAL_DISCRIMINATOR@ && data@[8] <= 1),
        data@.len() != GLOBAL_ACCOUNT_LEN ==> r == Err::<GlobalAccount, DecodeError>(
            DecodeError::WrongLength,
        ),
        data@.len() == GLOBAL_ACCOUNT_LEN && data@.subrange(0, 8) != GLOBAL_DISCRIMINATOR@ ==> r
            == Err::<GlobalAccount, DecodeError>(DecodeError::WrongDiscriminator),
        data@.len() == GLOBAL_ACCOUNT_LEN && data@.subrange(0, 8) == GLOBAL_DISCRIMINATOR@
            && data@[8] > 1 ==> r == Err::<GlobalAccount, DecodeError>(DecodeError::InvalidFlag),
        r is Ok ==> r->Ok_0.wf() && spec_global_bytes(r->Ok_0) == data@,
{
    if data.len() != GLOBAL_ACCOUNT_LEN {
        return Err(DecodeError::WrongLength);
    }
    if !has_tag8(data, &GLOBAL_DISCRIMINATOR) {
        return Err(DecodeError::WrongDiscriminator);
    }
    let flag: u8 = *slice_index_get(data, 8);
    if flag > 1 {
        return Err(DecodeError::InvalidFlag);
    }
    let g = GlobalAccount {
        initialized: flag == 1,
        authority: read_bytes32(data, 9),
        fee_recipient: read_bytes32(data, 41),
        initial_virtual_token_reserves: read_u64_le(data, 73),
        initial_virtual_sol_reserves: read_u64_le(data, 81),
        initial_real_token_reserves: read_u64_le(data, 89),
        token_total_supply: read_u64_le(data, 97),
        fee_basis_points: read_u64_le(data, 105),
    };
    proof {
        lemma_u64_le_bytes(data@.subrange(73, 81));
        lemma_u64_le_bytes(data@.subrange(81, 89));
        lemma_u64_le_bytes(data@.subrange(89, 97));
        lemma_u64_le_bytes(data@.subrange(97, 105));
        lemma_u64_le_bytes(data@.subrange(105, 113));
        assert(spec_global_bytes(g) =~= data@);
    }
    Ok(g)
}

/// Encodes a global state account snapshot back to its exact byte layout.
pub fn encode_global(g: &GlobalAccount) -> (r: Vec<u8>)
    requires
        g.wf(),
    ensures
        r@ == spec_global_bytes(*g),
{
    let mut out: Vec<u8> = Vec::new();
    push_bytes(&mut out, GLOBAL_DISCRIMINATOR.as_slice());
    out.push(if g.initialized {
        1
    } else {
        0
    });
    push_bytes(&mut out, g.authority.as_slice());
    push_bytes(&mut out, g.fee_recipient.as_slice());
    write_u64_le(&mut out, g.initial_virtual_token_reserves);
    write_u64_le(&mut out, g.initial_virtual_sol_reserves);
    write_u64_le(&mut out, g.initial_real_token_reserves);
    write_u64_le(&mut out, g.token_total_supply);
    write_u64_le(&mut out, g.fee_basis_points);
    proof {
        assert(out@ =~= spec_global_bytes(*g));
    }
    out
}

/// Law: the global account encoding is injective, so the byte round trip
/// loses nothing — snapshots that encode to the same bytes agree on every
/// field.
#[verifier::rlimit(100)]
pub proof fn lemma_global_encoding_injective(g1: GlobalAccount, g2: GlobalAccount)
    requires
        g1.wf(),
        g2.wf(),
        spec_global_bytes(g1) == spec_global_bytes(g2),
    ensures
        g1.initialized == g2.initialized,
        g1.authority@ == g2.authority@,
        g1.fee_recipient@ == g2.fee_recipient@,
        g1.initial_virtual_token_reserves == g2.initial_virtual_token_reserves,
        g1.initial_virtual_sol_reserves == g2.initial_virtual_sol_reserves,
        g1.initial_real_token_reserves == g2.initial_real_token_reserves,
        g1.token_total_supply == g2.token_total_supply,
        g1.fee_basis_points == g2.fee_basis_points,
{
    let s1 = spec_global_bytes(g1);
    let s2 = spec_global_bytes(g2);
    assert(spec_bool_byte(g1.initialized) == s1[8] && spec_bool_byte(g2.initialized) == s2[8]);
    assert(g1.authority@ =~= s1.subrange(9, 41));
    assert(g2.authority@ =~= s2.subrange(9, 41));
    assert(g1.fee_recipient@ =~= s1.subrange(41, 73));
    assert(g2.fee_recipient@ =~= s2.subrange(41, 73));
    assert(spec_u64_bytes(g1.initial_virtual_token_reserves) =~= s1.subrange(73, 81));
    assert(spec_u64_bytes(g2.initial_virtual_token_reserves) =~= s2.subrange(73, 81));
    assert(spec_u64_bytes(g1.initial_virtual_sol_reserves) =~= s1.subrange(81, 89));
    assert(spec_u64_bytes(g2.initial_virtual_sol_reserves) =~= s2.subrange(81, 89));
    assert(spec_u64_bytes(g1.initial_real_token_reserves) =~= s1.subrange(89, 97));
    assert(spec_u64_bytes(g2.initial_real_token_reserves) =~= s2.subrange(89, 97));
    assert(spec_u64_bytes(g1.token_total_supply) =~= s1.subrange(97, 105));
    assert(spec_u64_bytes(g2.token_total_supply) =~= s2.subrange(97, 105));
    assert(spec_u64_bytes(g1.fee_basis_points) =~= s1.subrange(105, 113));
    assert(spec_u64_bytes(g2.fee_basis_points) =~= s2.subrange(105, 113));
    lemma_u64_bytes_value(g1.initial_virtual_token_reserves);
    lemma_u64_bytes_value(g2.initial_virtual_token_reserves);
    lemma_u64_bytes_value(g1.initial_virtual_sol_reserves);
    lemma_u64_bytes_value(g2.initial_virtual_sol_reserves);
    lemma_u64_bytes_value(g1.initial_real_token_reserves);
    lemma_u64_bytes_value(g2.initial_real_token_reserves);
    lemma_u64_bytes_value(g1.token_total_supply);
    lemma_u64_bytes_value(g2.token_total_supply);
    lemma_u64_bytes_value(g1.fee_basis_points);
    lemma_u64_bytes_value(g2.fee_basis_points);
}

/// Decoded snapshot of one token's bonding curve account: the reserve state
/// that prices trades, and the completion flag that closes them.
#[derive(Clone, Copy, Debug, PartialEq, Eq, Structural)]
pub struct BondingCurveAccount {
    /// Virtual token reserves entering the pricing function.
    pub virtual_token_reserves: u64,
    /// Virtual base-currency reserves entering the pricing function.
    pub virtual_sol_reserves: u64,
    /// Real token reserves: an upper bound on tokens a buy can pay out.
    pub real_token_reserves: u64,
    /// Real base-currency reserves held by the curve.
    pub real_sol_reserves: u64,
    /// Total supply of the token.
    pub token_total_supply: u64,
    /// Once set, any buy or sell against this curve is rejected.
    pub complete: bool,
}

/// The exact byte encoding of a bonding curve account.
pub open spec fn spec_bonding_curve_bytes(c: BondingCurveAccount) -> Seq<u8> {
    BONDING_CURVE_DISCRIMINATOR@ + spec_u64_bytes(c.virtual_token_reserves) + spec_u64_bytes(
        c.virtual_sol_reserves,
    ) + spec_u64_bytes(c.real_token_reserves) + spec_u64_bytes(c.real_sol_reserves)
        + spec_u64_bytes(c.token_total_supply) + seq![spec_bool_byte(c.complete)]
}

/// Decodes a bonding curve account snapshot from raw account bytes.
///
/// Succeeds exactly on a buffer of the fixed length, carrying the bonding
/// curve record tag and a valid boolean byte; the decoded snapshot re-encodes
/// to the input bytes exactly.
pub fn decode_bonding_curve(data: &[u8]) -> (r: Result<BondingCurveAccount, DecodeError>)
    ensures
        r is Ok <==> (data@.len() == BONDING_CURVE_ACCOUNT_LEN && data@.subrange(0, 8)
            == BONDING_CURVE_DISCRIMINATOR@ && data@[48] <= 1),
        data@.len() != BONDING_CURVE_ACCOUNT_LEN ==> r == Err::<BondingCurveAccount, DecodeError>(
            DecodeError::WrongLength,
        ),
        data@.len() == BONDING_CURVE_ACCOUNT_LEN && data@.subrange(0, 8)
            != BONDING_CURVE_DISCRIMINATOR@ ==> r == Err::<BondingCurveAccount, DecodeError>(
            DecodeError::WrongDiscriminator,
        ),
        data@.len() == BONDING_CURVE_ACCOUNT_LEN && data@.subrange(0, 8)
            == BONDING_CURVE_DISCRIMINATOR@ && data@[48] > 1 ==> r == Err::<
            BondingCurveAccount,
            DecodeError,
        >(DecodeError::InvalidFlag),
        r is Ok ==> spec_bonding_curve_bytes(r->Ok_0) == data@,
{
    if data.len() != BONDING_CURVE_ACCOUNT_LEN {
        return Err(DecodeError::WrongLength);
    }
    if !has_tag8(data, &BONDING_CURVE_DISCRIMINATOR) {
        return Err(DecodeError::WrongDiscriminator);
    }
    let flag: u8 = *slice_index_get(data, 48);
    if flag > 1 {
        return Err(DecodeError::InvalidFlag);
    }
    let c = BondingCurveAccount {
        virtual_token_reserves: read_u64_le(data, 8),
        virtual_sol_reserves: read_u64_le(data, 16),
        real_token_reserves: read_u64_le(data, 24),
        real_sol_reserves: read_u64_le(data, 32),
        token_total_supply: read_u64_le(data, 40),
        complete: flag == 1,
    };
    proof {
        lemma_u64_le_bytes(data@.subrange(8, 16));
        lemma_u64_le_bytes(data@.subrange(16, 24));
        lemma_u64_le_bytes(data@.subrange(24, 32));
        lemma_u64_le_bytes(data@.subrange(32, 40));
        lemma_u64_le_bytes(data@.subrange(40, 48));
        assert(spec_bonding_curve_bytes(c) =~= data@);
    }
    Ok(c)
}

/// What a buy quote returns: the tokens obtainable for `amount` of base
/// currency against the curve's reserves, clamped by the real token reserves.
///
/// The curve is constant-product on the virtual reserves: the new virtual
/// token reserve after paying in `amount` is
/// `(vsol * vtok) / (vsol + amount) + 1` (rounded against the buyer), and the
/// quote is what that releases. A completed curve always fails; a quote whose
/// intermediate subtraction would leave the unsigned range fails as overflow.
pub open spec fn spec_buy_price(c: BondingCurveAccount, amount: u64) -> Result<u64, PricingError> {
    if c.complete {
        Err(PricingError::CurveComplete)
    } else if amount == 0 {
        Ok(0u64)
    } else {
        let q = (c.virtual_sol_reserves * c.virtual_token_reserves) as int / (
        c.virtual_sol_reserves + amount) as int;
        if q + 1 > c.virtual_token_reserves {
            Err(PricingError::Overflow)
        } else {
            let s = c.virtual_token_reserves - q - 1;
            if s < c.real_token_reserves {
                Ok(s as u64)
            } else {
                Ok(c.real_token_reserves)
            }
        }
    }
}

/// What a sell quote returns: the base currency paid out for selling
/// `amount` tokens, after deducting a fee of `fee_basis_points / 10000` of
/// the gross proceeds; both divisions round down.
pub open spec fn spec_sell_price(
    c: BondingCurveAccount,
    amount: u64,
    fee_basis_points: u64,
) -> Result<u64, PricingError> {
    if c.complete {
        Err(PricingError::CurveComplete)
    } else if fee_basis_points > 10000 {
        Err(PricingError::InvalidTolerance)
    } else if amount == 0 {
        Ok(0u64)
    } else {
        let gross = (amount * c.virtual_sol_reserves) as int / (c.virtual_token_reserves
            + amount) as int;
        let fee = (gross * fee_basis_points) / 10000;
        Ok((gross - fee) as u64)
    }
}

impl BondingCurveAccount {
    /// Quotes how many tokens `amount` of base currency buys under the
    /// current reserves. Integer arithmetic throughout, bit-for-bit
    /// reproducible with the on-chain computation.
    pub fn get_buy_price(&self, amount: u64) -> (r: Result<u64, PricingError>)
        ensures
            r == spec_buy_price(*self, amount),
            self.complete ==> r == Err::<u64, PricingError>(PricingError::CurveComplete),
    {
        if self.complete {
            return Err(PricingError::CurveComplete);
        }
        if amount == 0 {
            return Ok(0);
        }
        let vsol: u128 = self.virtual_sol_reserves as u128;
        let vtok: u128 = self.virtual_token_reserves as u128;
        proof {
            lemma_mul_upper_bound(
                vsol as int,
                0xffff_ffff_ffff_ffff,
                vtok as int,
                0xffff_ffff_ffff_ffff,
            );
        }
        let n: u128 = vsol * vtok;
        let i: u128 = vsol + (amount as u128);
        let q: u128 = n / i;
        proof {
            lemma_div_is_ordered_by_denominator(n as int, 1, i as int);
        }
        if q + 1 > vtok {
            return Err(PricingError::Overflow);
        }
        let s: u128 = vtok - q - 1;
        let s64: u64 = s as u64;
        if s64 < self.real_token_reserves {
            Ok(s64)
        } else {
            Ok(self.real_token_reserves)
        }
    }

    /// Quotes the base currency received for selling `amount` tokens under
    /// the current reserves, net of the given fee rate.
    pub fn get_sell_price(&self, amount: u64, fee_basis_points: u64) -> (r: Result<
        u64,
        PricingError,
    >)
        ensures
            r == spec_sell_price(*self, amount, fee_basis_points),
            self.complete ==> r == Err::<u64, PricingError>(PricingError::CurveComplete),
    {
        if self.complete {
            return Err(PricingError::CurveComplete);
        }
        if fee_basis_points > 10000 {
            return Err(PricingError::InvalidTolerance);
        }
        if amount == 0 {
            return Ok(0);
        }
        let vsol: u128 = self.virtual_sol_reserves as u128;
        let vtok: u128 = self.virtual_token_reserves as u128;
        let a: u128 = amount as u128;
        proof {
            lemma_mul_upper_bound(
                a as int,
                0xffff_ffff_ffff_ffff,
                vsol as int,
                0xffff_ffff_ffff_ffff,
            );
        }
        let num: u128 = a * vsol;
        let den: u128 = vtok + a;
        let gross: u128 = num / den;
        proof {
            lemma_sell_gross_bound(a as int, vsol as int, vtok as int);
            lemma_mul_upper_bound(
                gross as int,
                0xffff_ffff_ffff_ffff,
                fee_basis_points as int,
                10000,
            );
        }
        let fee: u128 = gross * (fee_basis_points as u128) / 10000;
        proof {
            lemma_fee_le_gross(gross as int, fee_basis_points as int);
        }
        let net: u128 = gross - fee;
        Ok(net as u64)
    }
}

/// The gross proceeds of a sell never exceed the virtual base reserves:
/// `(a * vsol) / (vtok + a) <= vsol` for positive `a`.
proof fn lemma_sell_gross_bound(a: int, vsol: int, vtok: int)
    requires
        0 < a,
        0 <= vsol,
        0 <= vtok,
    ensures
        0 <= (a * vsol) / (vtok + a) <= vsol,
{
    lemma_mul_nonnegative(a, vsol);
    lemma_div_pos_is_pos(a * vsol, vtok + a);
    lemma_mul_inequality(a, vtok + a, vsol);
    lemma_div_is_ordered(a * vsol, (vtok + a) * vsol, vtok + a);
    lemma_div_multiples_vanish(vsol, vtok + a);
}

/// A fee of at most 100% never exceeds the gross amount:
/// `(gross * f) / 10000 <= gross` for `f <= 10000`.
proof fn lemma_fee_le_gross(gross: int, f: int)
    requires
        0 <= gross,
        0 <= f <= 10000,
    ensures
        0 <= (gross * f) / 10000 <= gross,
{
    lemma_mul_inequality(f, 10000, gross);
    assert(f * gross == gross * f) by (nonlinear_arith);
    assert(10000 * gross == gross * 10000) by (nonlinear_arith);
    lemma_div_is_ordered(0, gross * f, 10000);
    lemma_div_is_ordered(gross * f, gross * 10000, 10000);
    lemma_div_multiples_vanish(gross, 10000);
}

/// Law: a completed curve rejects every buy and every sell with the
/// completion error, whatever the amounts and fee.
pub proof fn lemma_complete_rejects(c: BondingCurveAccount, amount: u64, fee_basis_points: u64)
    requires
        c.complete,
    ensures
        spec_buy_price(c, amount) == Err::<u64, PricingError>(PricingError::CurveComplete),
        spec_sell_price(c, amount, fee_basis_points) == Err::<u64, PricingError>(
            PricingError::CurveComplete,
        ),
{
}

/// Law: with reserves fixed, the buy quote is monotonic non-decreasing in
/// the base-currency input, over inputs on which it succeeds.
pub proof fn lemma_buy_price_monotonic(c: BondingCurveAccount, a1: u64, a2: u64)
    requires
        a1 <= a2,
        spec_buy_price(c, a1) is Ok,
        spec_buy_price(c, a2) is Ok,
    ensures
        spec_buy_price(c, a1)->Ok_0 <= spec_buy_price(c, a2)->Ok_0,
{
    if a1 > 0 {
        let n = (c.virtual_sol_reserves * c.virtual_token_reserves) as int;
        lemma_mul_upper_bound(
            c.virtual_sol_reserves as int,
            0xffff_ffff_ffff_ffff,
            c.virtual_token_reserves as int,
            0xffff_ffff_ffff_ffff,
        );
        lemma_div_is_ordered_by_denominator(
            n,
            (c.virtual_sol_reserves + a1) as int,
            (c.virtual_sol_reserves + a2) as int,
        );
    }
}

/// Law: with reserves and fee fixed, the sell quote is monotonic
/// non-decreasing in the token input, over inputs on which it succeeds.
pub proof fn lemma_sell_price_monotonic(
    c: BondingCurveAccount,
    a1: u64,
    a2: u64,
    fee_basis_points: u64,
)
    requires
        a1 <= a2,
        spec_sell_price(c, a1, fee_basis_points) is Ok,
        spec_sell_price(c, a2, fee_basis_points) is Ok,
    ensures
        spec_sell_price(c, a1, fee_basis_points)->Ok_0 <= spec_sell_price(
            c,
            a2,
            fee_basis_points,
        )->Ok_0,
{
    if a1 > 0 {
        let vsol = c.virtual_sol_reserves as int;
        let vtok = c.virtual_token_reserves as int;
        let f = fee_basis_points as int;
        let g1 = (a1 * vsol) as int / (vtok + a1) as int;
        let g2 = (a2 * vsol) as int / (vtok + a2) as int;
        lemma_sell_gross_bound(a1 as int, vsol, vtok);
        lemma_sell_gross_bound(a2 as int, vsol, vtok);
        lemma_sell_gross_monotonic(vsol, vtok, a1 as int, a2 as int);
        lemma_net_monotonic(g1, g2, f);
        lemma_fee_le_gross(g1, f);
        lemma_fee_le_gross(g2, f);
    }
}

/// The gross proceeds grow with the amount sold:
/// `(a1 * vsol) / (vtok + a1) <= (a2 * vsol) / (vtok + a2)` for `a1 <= a2`.
proof fn lemma_sell_gross_monotonic(vsol: int, vtok: int, a1: int, a2: int)
    requires
        0 <= vsol,
        0 <= vtok,
        0 < a1 <= a2,
    ensures
        (a1 * vsol) / (vtok + a1) <= (a2 * vsol) / (vtok + a2),
{
    let x1 = a1 * vsol;
    let d1 = vtok + a1;
    let x2 = a2 * vsol;
    let d2 = vtok + a2;
    let q1 = x1 / d1;
    lemma_fundamental_div_mod(x1, d1);
    lemma_mod_bound(x1, d1);
    assert(0 <= q1) by (nonlinear_arith)
        requires
            0 <= x1,
            x1 == d1 * q1 + x1 % d1,
            0 <= x1 % d1 < d1,
            0 < d1,
    ;
    assert(q1 * d2 <= x2) by (nonlinear_arith)
        requires
            x1 == d1 * q1 + x1 % d1,
            0 <= x1 % d1,
            0 <= q1,
            x1 == a1 * vsol,
            x2 == a2 * vsol,
            d1 == vtok + a1,
            d2 == vtok + a2,
            0 <= vsol,
            0 <= vtok,
            0 < a1 <= a2,
    ;
    lemma_div_is_ordered(q1 * d2, x2, d2);
    lemma_div_multiples_vanish(q1, d2);
    assert(d2 * q1 == q1 * d2) by (nonlinear_arith);
}

/// Netting a capped, floored fee keeps order: if `g1 <= g2` then
/// `g1 - (g1 * f) / 10000 <= g2 - (g2 * f) / 10000` for `f <= 10000`.
proof fn lemma_net_monotonic(g1: int, g2: int, f: int)
    requires
        0 <= g1 <= g2,
        0 <= f <= 10000,
    ensures
        g1 - (g1 * f) / 10000 <= g2 - (g2 * f) / 10000,
{
    let f1 = (g1 * f) / 10000;
    let f2 = (g2 * f) / 10000;
    lemma_fundamental_div_mod(g2 * f, 10000);
    lemma_mod_bound(g2 * f, 10000);
    lemma_fundamental_div_mod(g1 * f, 10000);
    lemma_mod_bound(g1 * f, 10000);
    assert((f2 - f1 - 1) * 10000 < (g2 - g1) * 10000) by (nonlinear_arith)
        requires
            g2 * f == 10000 * f2 + (g2 * f) % 10000,
            g1 * f == 10000 * f1 + (g1 * f) % 10000,
            0 <= (g2 * f) % 10000 < 10000,
            0 <= (g1 * f) % 10000 < 10000,
            0 <= g1 <= g2,
            0 <= f <= 10000,
    ;
    assert(f2 - f1 <= g2 - g1) by (nonlinear_arith)
        requires
            (f2 - f1 - 1) * 10000 < (g2 - g1) * 10000,
    ;
}

/// Encodes a bonding curve account snapshot back to its exact byte layout.
pub fn encode_bonding_curve(c: &BondingCurveAccount) -> (r: Vec<u8>)
    ensures
        r@ == spec_bonding_curve_bytes(*c),
{
    let mut out: Vec<u8> = Vec::new();
    push_bytes(&mut out, BONDING_CURVE_DISCRIMINATOR.as_slice());
    write_u64_le(&mut out, c.virtual_token_reserves);
    write_u64_le(&mut out, c.virtual_sol_reserves);
    write_u64_le(&mut out, c.real_token_reserves);
    write_u64_le(&mut out, c.real_sol_reserves);
    write_u64_le(&mut out, c.token_total_supply);
    out.push(if c.complete {
        1
    } else {
        0
    });
    proof {
        assert(out@ =~= spec_bonding_curve_bytes(*c));
    }
    out
}

} // verus!
