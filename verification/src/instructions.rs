//! Assembly of the three client operations (create, buy, sell): the exact,
//! order-sensitive account lists and the instruction argument bytes the
//! external program validates. Both are fixed protocol contracts; the
//! transport that signs and submits the assembled instruction stays outside
//! this crate.

use vstd::prelude::*;
use vstd::slice::slice_to_vec;
use crate::accounts::{
    push_bytes, spec_buy_price, spec_sell_price, spec_u64_bytes, write_u64_le,
    BondingCurveAccount, GlobalAccount,
};
use crate::constants::{
    EVENT_AUTHORITY, MPL_TOKEN_METADATA_ID, PUMP_PROGRAM_ID, RENT_SYSVAR_ID, SYSTEM_PROGRAM_ID,
    TOKEN_PROGRAM_ID, ASSOCIATED_TOKEN_PROGRAM_ID,
};
use crate::error::{ClientError, PricingError};
use crate::pda::{
    get_associated_token_address, get_bonding_curve_pda, get_global_pda, get_metadata_pda,
    get_mint_authority_pda, spec_associated_token_pda, spec_bonding_curve_pda, spec_global_pda,
    spec_metadata_pda, spec_mint_authority_pda, DerivedAddress,
};
use crate::utils::{
    calculate_with_slippage_buy, calculate_with_slippage_sell, spec_buy_slippage,
    spec_sell_slippage, DEFAULT_SLIPPAGE_BASIS_POINTS,
};
verus! {

/// Instruction tag of the create operation.
pub const CREATE_TAG: [u8; 8] = [24, 30, 200, 40, 5, 28, 7, 119];

/// Instruction tag of the buy operation.
pub const BUY_TAG: [u8; 8] = [102, 6, 61, 18, 1, 218, 235, 234];

/// Instruction tag of the sell operation.
pub const SELL_TAG: [u8; 8] = [51, 230, 133, 164, 1, 127, 131, 173];

/// One account an instruction touches: its address and how it is used.
#[derive(Clone, Debug, PartialEq, Eq)]
pub struct InstructionAccount {
    /// The account's 32-byte address.
    pub address: Vec<u8>,
    /// Whether the account must sign the transaction.
    pub is_signer: bool,
    /// Whether the instruction may write to the account.
    pub is_writable: bool,
}

impl InstructionAccount {
    /// Well-formed: the address holds exactly 32 bytes.
    pub open spec fn wf(self) -> bool {
        self.address@.len() == 32
    }
}

/// A fully assembled instruction, ready for a transport to sign and submit.
#[derive(Clone, Debug, PartialEq, Eq)]
pub struct Instruction {
    /// The 32-byte identifier of the program to invoke.
    pub program_id: Vec<u8>,
    /// The accounts the instruction touches, in protocol order.
    pub accounts: Vec<InstructionAccount>,
    /// The instruction argument bytes.
    pub data: Vec<u8>,
}

impl Instruction {
    /// Well-formed: program id is 32 bytes and every account is well-formed.
    pub open spec fn wf(self) -> bool {
        self.program_id@.len() == 32 && forall|k: int|
            0 <= k < self.accounts@.len() ==> (#[trigger] self.accounts@[k]).wf()
    }
}

/// The (address, signer, writable) view of one account entry.
pub open spec fn account_view(m: InstructionAccount) -> (Seq<u8>, bool, bool) {
    (m.address@, m.is_signer, m.is_writable)
}

/// The (address, signer, writable) views of a whole account list.
pub open spec fn accounts_view(v: Seq<InstructionAccount>) -> Seq<(Seq<u8>, bool, bool)> {
    v.map_values(|m: InstructionAccount| account_view(m))
}

/// The tolerance actually applied: the caller's, or the default of
/// [`DEFAULT_SLIPPAGE_BASIS_POINTS`].
pub open spec fn spec_effective_bps(o: Option<u64>) -> u64 {
    if o is Some {
        o->Some_0
    } else {
        DEFAULT_SLIPPAGE_BASIS_POINTS
    }
}

/// The argument bytes of a buy: tag, token amount, cost ceiling.
pub open spec fn spec_buy_data(amount: u64, max_sol_cost: u64) -> Seq<u8> {
    BUY_TAG@ + spec_u64_bytes(amount) + spec_u64_bytes(max_sol_cost)
}

/// The argument bytes of a sell: tag, token amount, output floor.
pub open spec fn spec_sell_data(amount: u64, min_sol_output: u64) -> Seq<u8> {
    SELL_TAG@ + spec_u64_bytes(amount) + spec_u64_bytes(min_sol_output)
}

/// Builds the buy argument bytes.
pub fn buy_instruction_data(amount: u64, max_sol_cost: u64) -> (r: Vec<u8>)
    ensures
        r@ == spec_buy_data(amount, max_sol_cost),
{
    let mut out: Vec<u8> = Vec::new();
    push_bytes(&mut out, BUY_TAG.as_slice());
    write_u64_le(&mut out, amount);
    write_u64_le(&mut out, max_sol_cost);
    proof {
        assert(out@ =~= spec_buy_data(amount, max_sol_cost));
    }
    out
}

/// Builds the sell argument bytes.
pub fn sell_instruction_data(amount: u64, min_sol_output: u64) -> (r: Vec<u8>)
    ensures
        r@ == spec_sell_data(amount, min_sol_output),
{
    let mut out: Vec<u8> = Vec::new();
    push_bytes(&mut out, SELL_TAG.as_slice());
    write_u64_le(&mut out, amount);
    write_u64_le(&mut out, min_sol_output);
    proof {
        assert(out@ =~= spec_sell_data(amount, min_sol_output));
    }
    out
}

/// The 4 little-endian bytes of a 32-bit value.
pub open spec fn spec_u32_bytes(x: u32) -> Seq<u8> {
    seq![
        (x as int % 0x100) as u8,
        (x as int / 0x100 % 0x100) as u8,
        (x as int / 0x1_0000 % 0x100) as u8,
        (x as int / 0x100_0000 % 0x100) as u8,
    ]
}

/// A length-prefixed byte string: 32-bit little-endian length, then bytes.
pub open spec fn spec_len_prefixed(s: Seq<u8>) -> Seq<u8>
    recommends
        s.len() <= u32::MAX,
{
    spec_u32_bytes(s.len() as u32) + s
}

/// The argument bytes of a create: tag, then the metadata name, symbol and
/// content URI as length-prefixed strings.
pub open spec fn spec_create_data(name: Seq<u8>, symbol: Seq<u8>, uri: Seq<u8>) -> Seq<u8> {
    CREATE_TAG@ + spec_len_prefixed(name) + spec_len_prefixed(symbol) + spec_len_prefixed(uri)
}

/// Appends the 4 little-endian bytes of `x`.
fn write_u32_le(out: &mut Vec<u8>, x: u32)
    ensures
        final(out)@ == old(out)@ + spec_u32_bytes(x),
{
    out.push((x % 0x100) as u8);
    out.push((x / 0x100 % 0x100) as u8);
    out.push((x / 0x1_0000 % 0x100) as u8);
    out.push((x / 0x100_0000 % 0x100) as u8);
    proof {
        assert(final(out)@ =~= old(out)@ + spec_u32_bytes(x));
    }
}

/// Appends a length-prefixed byte string.
fn write_len_prefixed(out: &mut Vec<u8>, s: &[u8])
    requires
        s@.len() <= u32::MAX,
    ensures
        final(out)@ == old(out)@ + spec_len_prefixed(s@),
{
    write_u32_le(out, s.len() as u32);
    push_bytes(out, s);
}

/// Builds the create argument bytes from the token metadata fields (UTF-8
/// bytes of the name, ticker symbol and hosted-content URI).
pub fn create_instruction_data(name: &[u8], symbol: &[u8], uri: &[u8]) -> (r: Vec<u8>)
    requires
        name@.len() <= u32::MAX,
        symbol@.len() <= u32::MAX,
        uri@.len() <= u32::MAX,
    ensures
        r@ == spec_create_data(name@, symbol@, uri@),
{
    let mut out: Vec<u8> = Vec::new();
    push_bytes(&mut out, CREATE_TAG.as_slice());
    write_len_prefixed(&mut out, name);
    write_len_prefixed(&mut out, symbol);
    write_len_prefixed(&mut out, uri);
    proof {
        assert(out@ =~= spec_create_data(name@, symbol@, uri@));
    }
    out
}

/// The exact account list of a buy, in protocol order.
pub open spec fn spec_buy_accounts(fee_recipient: Seq<u8>, mint: Seq<u8>, user: Seq<u8>) -> Seq<
    (Seq<u8>, bool, bool),
>
    recommends
        spec_global_pda() is Some,
        spec_bonding_curve_pda(mint) is Some,
{
    let curve = spec_bonding_curve_pda(mint)->Some_0.0;
    seq![
        (spec_global_pda()->Some_0.0, false, false),
        (fee_recipient, false, true),
        (mint, false, false),
        (curve, false, true),
        (spec_associated_token_pda(curve, mint)->Some_0.0, false, true),
        (spec_associated_token_pda(user, mint)->Some_0.0, false, true),
        (user, true, true),
        (SYSTEM_PROGRAM_ID@, false, false),
        (TOKEN_PROGRAM_ID@, false, false),
        (RENT_SYSVAR_ID@, false, false),
        (EVENT_AUTHORITY@, false, false),
        (PUMP_PROGRAM_ID@, false, false),
    ]
}

/// The exact account list of a sell, in protocol order.
pub open spec fn spec_sell_accounts(fee_recipient: Seq<u8>, mint: Seq<u8>, user: Seq<u8>) -> Seq<
    (Seq<u8>, bool, bool),
>
    recommends
        spec_global_pda() is Some,
        spec_bonding_curve_pda(mint) is Some,
{
    let curve = spec_bonding_curve_pda(mint)->Some_0.0;
    seq![
        (spec_global_pda()->Some_0.0, false, false),
        (fee_recipient, false, true),
        (mint, false, false),
        (curve, false, true),
        (spec_associated_token_pda(curve, mint)->Some_0.0, false, true),
        (spec_associated_token_pda(user, mint)->Some_0.0, false, true),
        (user, true, true),
        (SYSTEM_PROGRAM_ID@, false, false),
        (ASSOCIATED_TOKEN_PROGRAM_ID@, false, false),
        (TOKEN_PROGRAM_ID@, false, false),
        (EVENT_AUTHORITY@, false, false),
        (PUMP_PROGRAM_ID@, false, false),
    ]
}

/// The exact account list of a create, in protocol order. The new mint and
/// the paying user are the two signers.
pub open spec fn spec_create_accounts(mint: Seq<u8>, user: Seq<u8>) -> Seq<(Seq<u8>, bool, bool)>
    recommends
        spec_global_pda() is Some,
        spec_mint_authority_pda() is Some,
        spec_bonding_curve_pda(mint) is Some,
        spec_metadata_pda(mint) is Some,
{
    let curve = spec_bonding_curve_pda(mint)->Some_0.0;
    seq![
        (mint, true, true),
        (spec_mint_authority_pda()->Some_0.0, false, false),
        (curve, false, true),
        (spec_associated_token_pda(curve, mint)->Some_0.0, false, true),
        (spec_global_pda()->Some_0.0, false, false),
        (MPL_TOKEN_METADATA_ID@, false, false),
        (spec_metadata_pda(mint)->Some_0.0, false, true),
        (user, true, true),
        (SYSTEM_PROGRAM_ID@, false, false),
        (TOKEN_PROGRAM_ID@, false, false),
        (ASSOCIATED_TOKEN_PROGRAM_ID@, false, false),
        (RENT_SYSVAR_ID@, false, false),
        (EVENT_AUTHORITY@, false, false),
        (PUMP_PROGRAM_ID@, false, false),
    ]
}

/// Assembles a buy: quotes the tokens `amount_sol` buys, widens the cost
/// ceiling by the tolerance (the default when none is given), and lays out
/// the exact accounts and argument bytes the program validates.
///
/// The caller supplies freshly fetched global and curve snapshots, the mint
/// and the paying user; the single signer is the user.
#[verifier::rlimit(100)]
pub fn build_buy_instruction(
    global: &GlobalAccount,
    curve: &BondingCurveAccount,
    mint: &[u8],
    user: &[u8],
    amount_sol: u64,
    slippage_basis_points: Option<u64>,
) -> (r: Result<Instruction, ClientError>)
    requires
        global.wf(),
        mint@.len() == 32,
        user@.len() == 32,
    ensures
        spec_bonding_curve_pda(mint@) is None ==> r == Err::<Instruction, ClientError>(
            ClientError::BondingCurveNotFound,
        ),
        spec_bonding_curve_pda(mint@) is Some && spec_buy_price(*curve, amount_sol) is Err ==> r
            == Err::<Instruction, ClientError>(
            ClientError::Pricing(spec_buy_price(*curve, amount_sol)->Err_0),
        ),
        spec_bonding_curve_pda(mint@) is Some && spec_buy_price(*curve, amount_sol) is Ok
            && spec_effective_bps(slippage_basis_points) > 10000 ==> r == Err::<
            Instruction,
            ClientError,
        >(ClientError::Pricing(PricingError::InvalidTolerance)),
        spec_bonding_curve_pda(mint@) is Some && spec_buy_price(*curve, amount_sol) is Ok
            && spec_effective_bps(slippage_basis_points) <= 10000 && spec_buy_slippage(
            amount_sol,
            spec_effective_bps(slippage_basis_points),
        ) > u64::MAX ==> r == Err::<Instruction, ClientError>(
            ClientError::Pricing(PricingError::Overflow),
        ),
        spec_bonding_curve_pda(mint@) is Some && spec_buy_price(*curve, amount_sol) is Ok
            && spec_effective_bps(slippage_basis_points) <= 10000 && spec_buy_slippage(
            amount_sol,
            spec_effective_bps(slippage_basis_points),
        ) <= u64::MAX ==> {
            let curve_address = spec_bonding_curve_pda(mint@)->Some_0.0;
            if spec_global_pda() is Some && spec_associated_token_pda(curve_address, mint@)
                is Some && spec_associated_token_pda(user@, mint@) is Some {
                r is Ok && r->Ok_0.wf() && r->Ok_0.program_id@ == PUMP_PROGRAM_ID@
                    && accounts_view(r->Ok_0.accounts@) == spec_buy_accounts(
                    global.fee_recipient@,
                    mint@,
                    user@,
                ) && r->Ok_0.data@ == spec_buy_data(
                    spec_buy_price(*curve, amount_sol)->Ok_0,
                    spec_buy_slippage(amount_sol, spec_effective_bps(slippage_basis_points)) as u64,
                )
            } else {
                r == Err::<Instruction, ClientError>(ClientError::AddressDerivationFailed)
            }
        },
{
    let bps: u64 = match slippage_basis_points {
        Some(b) => b,
        None => DEFAULT_SLIPPAGE_BASIS_POINTS,
    };
    let bc: DerivedAddress = match get_bonding_curve_pda(mint) {
        Some(d) => d,
        None => {
            return Err(ClientError::BondingCurveNotFound);
        },
    };
    let buy_amount: u64 = match curve.get_buy_price(amount_sol) {
        Ok(a) => a,
        Err(e) => {
            return Err(ClientError::Pricing(e));
        },
    };
    let max_sol_cost: u64 = match calculate_with_slippage_buy(amount_sol, bps) {
        Ok(c) => c,
        Err(e) => {
            return Err(ClientError::Pricing(e));
        },
    };
    let global_pda: DerivedAddress = match get_global_pda() {
        Some(d) => d,
        None => {
            return Err(ClientError::AddressDerivationFailed);
        },
    };
    let curve_ata: DerivedAddress = match get_associated_token_address(bc.address.as_slice(),
        mint) {
        Some(d) => d,
        None => {
            return Err(ClientError::AddressDerivationFailed);
        },
    };
    let user_ata: DerivedAddress = match get_associated_token_address(user, mint) {
        Some(d) => d,
        None => {
            return Err(ClientError::AddressDerivationFailed);
        },
    };
    let mut accounts: Vec<InstructionAccount> = Vec::new();
    accounts.push(
        InstructionAccount { address: global_pda.address, is_signer: false, is_writable: false },
    );
    accounts.push(
        InstructionAccount {
            address: slice_to_vec(global.fee_recipient.as_slice()),
            is_signer: false,
            is_writable: true,
        },
    );
    accounts.push(
        InstructionAccount { address: slice_to_vec(mint), is_signer: false, is_writable: false },
    );
    accounts.push(
        InstructionAccount { address: bc.address, is_signer: false, is_writable: true },
    );
    accounts.push(
        InstructionAccount { address: curve_ata.address, is_signer: false, is_writable: true },
    );
    accounts.push(
        InstructionAccount { address: user_ata.address, is_signer: false, is_writable: true },
    );
    accounts.push(
        InstructionAccount { address: slice_to_vec(user), is_signer: true, is_writable: true },
    );
    accounts.push(
        InstructionAccount {
            address: slice_to_vec(SYSTEM_PROGRAM_ID.as_slice()),
            is_signer: false,
            is_writable: false,
        },
    );
    accounts.push(
        InstructionAccount {
            address: slice_to_vec(TOKEN_PROGRAM_ID.as_slice()),
            is_signer: false,
            is_writable: false,
        },
    );
    accounts.push(
        InstructionAccount {
            address: slice_to_vec(RENT_SYSVAR_ID.as_slice()),
            is_signer: false,
            is_writable: false,
        },
    );
    accounts.push(
        InstructionAccount {
            address: slice_to_vec(EVENT_AUTHORITY.as_slice()),
            is_signer: false,
            is_writable: false,
        },
    );
    accounts.push(
        InstructionAccount {
            address: slice_to_vec(PUMP_PROGRAM_ID.as_slice()),
            is_signer: false,
            is_writable: false,
        },
    );
    let data: Vec<u8> = buy_instruction_data(buy_amount, max_sol_cost);
    let ins = Instruction {
        program_id: slice_to_vec(PUMP_PROGRAM_ID.as_slice()),
        accounts,
        data,
    };
    proof {
        assert(accounts_view(ins.accounts@) =~= spec_buy_accounts(
            global.fee_recipient@,
            mint@,
            user@,
        ));
        assert(ins.wf());
    }
    Ok(ins)
}

/// Assembles a sell: quotes the base currency `amount_token` fetches net of
/// the global fee rate, narrows the output floor by the tolerance (the
/// default when none is given), and lays out the exact accounts and argument
/// bytes the program validates. The single signer is the user.
#[verifier::rlimit(100)]
pub fn build_sell_instruction(
    global: &GlobalAccount,
    curve: &BondingCurveAccount,
    mint: &[u8],
    user: &[u8],
    amount_token: u64,
    slippage_basis_points: Option<u64>,
) -> (r: Result<Instruction, ClientError>)
    requires
        global.wf(),
        mint@.len() == 32,
        user@.len() == 32,
    ensures
        spec_bonding_curve_pda(mint@) is None ==> r == Err::<Instruction, ClientError>(
            ClientError::BondingCurveNotFound,
        ),
        spec_bonding_curve_pda(mint@) is Some && spec_sell_price(
            *curve,
            amount_token,
            global.fee_basis_points,
        ) is Err ==> r == Err::<Instruction, ClientError>(
            ClientError::Pricing(spec_sell_price(*curve, amount_token, global.fee_basis_points)->Err_0),
        ),
        spec_bonding_curve_pda(mint@) is Some && spec_sell_price(
            *curve,
            amount_token,
            global.fee_basis_points,
        ) is Ok && spec_effective_bps(slippage_basis_points) > 10000 ==> r == Err::<
            Instruction,
            ClientError,
        >(ClientError::Pricing(PricingError::InvalidTolerance)),
        spec_bonding_curve_pda(mint@) is Some && spec_sell_price(
            *curve,
            amount_token,
            global.fee_basis_points,
        ) is Ok && spec_effective_bps(slippage_basis_points) <= 10000 ==> {
            let curve_address = spec_bonding_curve_pda(mint@)->Some_0.0;
            if spec_global_pda() is Some && spec_associated_token_pda(curve_address, mint@)
                is Some && spec_associated_token_pda(user@, mint@) is Some {
                r is Ok && r->Ok_0.wf() && r->Ok_0.program_id@ == PUMP_PROGRAM_ID@
                    && accounts_view(r->Ok_0.accounts@) == spec_sell_accounts(
                    global.fee_recipient@,
                    mint@,
                    user@,
                ) && r->Ok_0.data@ == spec_sell_data(
                    amount_token,
                    spec_sell_slippage(
                        spec_sell_price(*curve, amount_token, global.fee_basis_points)->Ok_0,
                        spec_effective_bps(slippage_basis_points),
                    ) as u64,
                )
            } else {
                r == Err::<Instruction, ClientError>(ClientError::AddressDerivationFailed)
            }
        },
{
    let bps: u64 = match slippage_basis_points {
        Some(b) => b,
        None => DEFAULT_SLIPPAGE_BASIS_POINTS,
    };
    let bc: DerivedAddress = match get_bonding_curve_pda(mint) {
        Some(d) => d,
        None => {
            return Err(ClientError::BondingCurveNotFound);
        },
    };
    let sol_output: u64 = match curve.get_sell_price(amount_token, global.fee_basis_points) {
        Ok(a) => a,
        Err(e) => {
            return Err(ClientError::Pricing(e));
        },
    };
    let min_sol_output: u64 = match calculate_with_slippage_sell(sol_output, bps) {
        Ok(c) => c,
        Err(e) => {
            return Err(ClientError::Pricing(e));
        },
    };
    let global_pda: DerivedAddress = match get_global_pda() {
        Some(d) => d,
        None => {
            return Err(ClientError::AddressDerivationFailed);
        },
    };
    let curve_ata: DerivedAddress = match get_associated_token_address(bc.address.as_slice(),
        mint) {
        Some(d) => d,
        None => {
            return Err(ClientError::AddressDerivationFailed);
        },
    };
    let user_ata: DerivedAddress = match get_associated_token_address(user, mint) {
        Some(d) => d,
        None => {
            return Err(ClientError::AddressDerivationFailed);
        },
    };
    let mut accounts: Vec<InstructionAccount> = Vec::new();
    accounts.push(
        InstructionAccount { address: global_pda.address, is_signer: false, is_writable: false },
    );
    accounts.push(
        InstructionAccount {
            address: slice_to_vec(global.fee_recipient.as_slice()),
            is_signer: false,
            is_writable: true,
        },
    );
    accounts.push(
        InstructionAccount { address: slice_to_vec(mint), is_signer: false, is_writable: false },
    );
    accounts.push(
        InstructionAccount { address: bc.address, is_signer: false, is_writable: true },
    );
    accounts.push(
        InstructionAccount { address: curve_ata.address, is_signer: false, is_writable: true },
    );
    accounts.push(
        InstructionAccount { address: user_ata.address, is_signer: false, is_writable: true },
    );
    accounts.push(
        InstructionAccount { address: slice_to_vec(user), is_signer: true, is_writable: true },
    );
    accounts.push(
        InstructionAccount {
            address: slice_to_vec(SYSTEM_PROGRAM_ID.as_slice()),
            is_signer: false,
            is_writable: false,
        },
    );
    accounts.push(
        InstructionAccount {
            address: slice_to_vec(ASSOCIATED_TOKEN_PROGRAM_ID.as_slice()),
            is_signer: false,
            is_writable: false,
        },
    );
    accounts.push(
        InstructionAccount {
            address: slice_to_vec(TOKEN_PROGRAM_ID.as_slice()),
            is_signer: false,
            is_writable: false,
        },
    );
    accounts.push(
        InstructionAccount {
            address: slice_to_vec(EVENT_AUTHORITY.as_slice()),
            is_signer: false,
            is_writable: false,
        },
    );
    accounts.push(
        InstructionAccount {
            address: slice_to_vec(PUMP_PROGRAM_ID.as_slice()),
            is_signer: false,
            is_writable: false,
        },
    );
    let data: Vec<u8> = sell_instruction_data(amount_token, min_sol_output);
    let ins = Instruction {
        program_id: slice_to_vec(PUMP_PROGRAM_ID.as_slice()),
        accounts,
        data,
    };
    proof {
        assert(accounts_view(ins.accounts@) =~= spec_sell_accounts(
            global.fee_recipient@,
            mint@,
            user@,
        ));
        assert(ins.wf());
    }
    Ok(ins)
}

/// Assembles a create for a caller-supplied new mint: lays out the exact
/// accounts and the argument bytes carrying the token metadata (name, symbol
/// and the content URI the caller obtained from the metadata-hosting
/// service). The two signers are the new mint and the paying user.
#[verifier::rlimit(100)]
pub fn build_create_instruction(
    mint: &[u8],
    user: &[u8],
    name: &[u8],
    symbol: &[u8],
    uri: &[u8],
) -> (r: Result<Instruction, ClientError>)
    requires
        mint@.len() == 32,
        user@.len() == 32,
        name@.len() <= u32::MAX,
        symbol@.len() <= u32::MAX,
        uri@.len() <= u32::MAX,
    ensures
        spec_bonding_curve_pda(mint@) is None ==> r == Err::<Instruction, ClientError>(
            ClientError::BondingCurveNotFound,
        ),
        spec_bonding_curve_pda(mint@) is Some ==> {
            let curve_address = spec_bonding_curve_pda(mint@)->Some_0.0;
            if spec_global_pda() is Some && spec_mint_authority_pda() is Some && spec_metadata_pda(
                mint@,
            ) is Some && spec_associated_token_pda(curve_address, mint@) is Some {
                r is Ok && r->Ok_0.wf() && r->Ok_0.program_id@ == PUMP_PROGRAM_ID@
                    && accounts_view(r->Ok_0.accounts@) == spec_create_accounts(mint@, user@)
                    && r->Ok_0.data@ == spec_create_data(name@, symbol@, uri@)
            } else {
                r == Err::<Instruction, ClientError>(ClientError::AddressDerivationFailed)
            }
        },
{
    let bc: DerivedAddress = match get_bonding_curve_pda(mint) {
        Some(d) => d,
        None => {
            return Err(ClientError::BondingCurveNotFound);
        },
    };
    let global_pda: DerivedAddress = match get_global_pda() {
        Some(d) => d,
        None => {
            return Err(ClientError::AddressDerivationFailed);
        },
    };
    let mint_authority: DerivedAddress = match get_mint_authority_pda() {
        Some(d) => d,
        None => {
            return Err(ClientError::AddressDerivationFailed);
        },
    };
    let metadata: DerivedAddress = match get_metadata_pda(mint) {
        Some(d) => d,
        None => {
            return Err(ClientError::AddressDerivationFailed);
        },
    };
    let curve_ata: DerivedAddress = match get_associated_token_address(bc.address.as_slice(),
        mint) {
        Some(d) => d,
        None => {
            return Err(ClientError::AddressDerivationFailed);
        },
    };
    let mut accounts: Vec<InstructionAccount> = Vec::new();
    accounts.push(
        InstructionAccount { address: slice_to_vec(mint), is_signer: true, is_writable: true },
    );
    accounts.push(
        InstructionAccount {
            address: mint_authority.address,
            is_signer: false,
            is_writable: false,
        },
    );
    accounts.push(
        InstructionAccount { address: bc.address, is_signer: false, is_writable: true },
    );
    accounts.push(
        InstructionAccount { address: curve_ata.address, is_signer: false, is_writable: true },
    );
    accounts.push(
        InstructionAccount { address: global_pda.address, is_signer: false, is_writable: false },
    );
    accounts.push(
        InstructionAccount {
            address: slice_to_vec(MPL_TOKEN_METADATA_ID.as_slice()),
            is_signer: false,
            is_writable: false,
        },
    );
    accounts.push(
        InstructionAccount { address: metadata.address, is_signer: false, is_writable: true },
    );
    accounts.push(
        InstructionAccount { address: slice_to_vec(user), is_signer: true, is_writable: true },
    );
    accounts.push(
        InstructionAccount {
            address: slice_to_vec(SYSTEM_PROGRAM_ID.as_slice()),
            is_signer: false,
            is_writable: false,
        },
    );
    accounts.push(
        InstructionAccount {
            address: slice_to_vec(TOKEN_PROGRAM_ID.as_slice()),
            is_signer: false,
            is_writable: false,
        },
    );
    accounts.push(
        InstructionAccount {
            address: slice_to_vec(ASSOCIATED_TOKEN_PROGRAM_ID.as_slice()),
            is_signer: false,
            is_writable: false,
        },
    );
    accounts.push(
        InstructionAccount {
            address: slice_to_vec(RENT_SYSVAR_ID.as_slice()),
            is_signer: false,
            is_writable: false,
        },
    );
    accounts.push(
        InstructionAccount {
            address: slice_to_vec(EVENT_AUTHORITY.as_slice()),
            is_signer: false,
            is_writable: false,
        },
    );
    accounts.push(
        InstructionAccount {
            address: slice_to_vec(PUMP_PROGRAM_ID.as_slice()),
            is_signer: false,
            is_writable: false,
        },
    );
    let data: Vec<u8> = create_instruction_data(name, symbol, uri);
    let ins = Instruction {
        program_id: slice_to_vec(PUMP_PROGRAM_ID.as_slice()),
        accounts,
        data,
    };
    proof {
        assert(accounts_view(ins.accounts@) =~= spec_create_accounts(mint@, user@));
        assert(ins.wf());
    }
    Ok(ins)
}

} // verus!
