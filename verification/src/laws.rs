use vstd::prelude::*;

use crate::cpi::{unsigned, Action, RentMinimums, Step, TokenProgram, VaultSeeds};
use crate::instructions::claim_voucher::{claim_result, ClaimVoucher, ClaimVoucherArgs, LoadedInstruction};
use crate::token_account::{account_frozen, delegate_is};
use crate::errors::SignitoError;
use crate::hash::sha256_digest;
use crate::instructions::convert_to_airtoken::{convert_result, ConvertToAirtoken, ConvertToAirtokenArgs};
use crate::instructions::deposit::{deposit_result, Deposit, DepositArgs};
use crate::instructions::initialize_vault::{initialize_result, InitializeVault, InitializeVaultArgs};
use crate::instructions::refresh_ots::{refresh_result, RefreshOts, RefreshOtsArgs};
use crate::instructions::unshield::{unshield_result, Unshield, UnshieldArgs};
use crate::instructions::zk_unshield::{zk_unshield_result, ZkUnshield, ZkUnshieldArgs};
use crate::ots::{withdrawal_error, withdrawal_outcome};
use crate::state::VaultState;

verus! {

// ---------------------------------------------------------------------------
// The OTS hash chain
// ---------------------------------------------------------------------------

/// The vault after a run of withdrawals, each revealing a preimage and taking
/// an amount, or `None` when one of them is refused.
pub open spec fn run_withdrawals(vault: VaultState, reveals: Seq<([u8; 32], u64)>) -> Option<VaultState>
    decreases reveals.len(),
{
    if reveals.len() == 0 {
        Some(vault)
    } else {
        let (preimage, amount) = reveals[0];
        match withdrawal_outcome(vault, sha256_digest(preimage@), preimage, amount) {
            Ok(next) => run_withdrawals(next, reveals.drop_first()),
            Err(_) => None,
        }
    }
}

/// Sum of the amounts of a run of withdrawals.
pub open spec fn total_withdrawn(reveals: Seq<([u8; 32], u64)>) -> int
    decreases reveals.len(),
{
    if reveals.len() == 0 {
        0
    } else {
        reveals[0].1 + total_withdrawn(reveals.drop_first())
    }
}

/// The hash chain law. When a run of withdrawals all succeed: the first
/// revealed preimage hashes to the stored tip and each later one hashes to the
/// preimage revealed before it; the last preimage is the new tip; there were
/// at most `chain_depth` of them and each consumed one level; exactly their
/// total left the deposited balance; and owner, mint and bump are unchanged.
pub proof fn lemma_withdrawal_chain(vault: VaultState, reveals: Seq<([u8; 32], u64)>)
    requires
        run_withdrawals(vault, reveals) is Some,
    ensures
        ({
            let end = run_withdrawals(vault, reveals).unwrap();
            &&& reveals.len() <= vault.chain_depth
            &&& end.chain_depth == vault.chain_depth - reveals.len()
            &&& end.total_deposited == vault.total_deposited - total_withdrawn(reveals)
            &&& reveals.len() == 0 ==> end.current_ots_hash == vault.current_ots_hash
            &&& reveals.len() > 0 ==> end.current_ots_hash == reveals.last().0
            &&& reveals.len() > 0 ==> sha256_digest(reveals[0].0@) == vault.current_ots_hash@
            &&& forall|i: int| 0 < i < reveals.len() ==> #[trigger] sha256_digest(reveals[i].0@) == reveals[i - 1].0@
            &&& end.owner == vault.owner
            &&& end.mint_stoken == vault.mint_stoken
            &&& end.bump == vault.bump
        }),
    decreases reveals.len(),
{
    if reveals.len() > 0 {
        let (preimage, amount) = reveals[0];
        let next = withdrawal_outcome(vault, sha256_digest(preimage@), preimage, amount).unwrap();
        let rest = reveals.drop_first();
        lemma_withdrawal_chain(next, rest);
        if rest.len() > 0 {
            assert(rest.last() == reveals.last());
        }
        assert forall|i: int| 0 < i < reveals.len() implies #[trigger] sha256_digest(reveals[i].0@) == reveals[i - 1].0@ by {
            if i == 1 {
                assert(reveals[1] == rest[0]);
            } else {
                assert(reveals[i] == rest[i - 1]);
                assert(reveals[i - 1] == rest[i - 2]);
                assert(sha256_digest(rest[i - 1].0@) == rest[(i - 1) - 1].0@);
            }
        }
    }
}

/// One-time use: once a preimage has authorised a withdrawal, revealing it
/// again is refused as `InvalidOtsPreimage`, unless the preimage is a fixed
/// point of SHA-256.
pub proof fn lemma_preimage_single_use(vault: VaultState, preimage: [u8; 32], first: u64, second: u64)
    requires
        withdrawal_outcome(vault, sha256_digest(preimage@), preimage, first) is Ok,
        second > 0,
        sha256_digest(preimage@) != preimage@,
    ensures
        withdrawal_error(
            withdrawal_outcome(vault, sha256_digest(preimage@), preimage, first).unwrap(),
            sha256_digest(preimage@),
            second,
        ) == Some(SignitoError::InvalidOtsPreimage),
{
}

/// An exhausted chain (depth 0) refuses every withdrawal.
pub proof fn lemma_exhausted_chain_refuses(vault: VaultState, digest: Seq<u8>, amount: u64)
    requires
        vault.chain_depth == 0,
    ensures
        withdrawal_error(vault, digest, amount) is Some,
{
}

/// The three ways of spending a chain level run the same OTS check: for the
/// same vault and arguments, an owner-signed withdrawal and a conversion into
/// voucher tokens succeed or fail together, with the same error, and leave the
/// same vault state; a relayer-mediated withdrawal fails with that error too
/// when it fails the check, and otherwise (given the vault's delegation) leaves
/// the same vault state.
pub proof fn lemma_withdrawal_paths_agree(
    u: Unshield,
    c: ConvertToAirtoken,
    z: ZkUnshield,
    preimage: [u8; 32],
    amount: u64,
    rent: RentMinimums,
)
    requires
        u.vault_state == c.vault_state,
        u.vault_state == z.vault_state,
    ensures
        ({
            let ur = unshield_result(u, UnshieldArgs { ots_preimage: preimage, amount });
            let cr = convert_result(c, ConvertToAirtokenArgs { ots_preimage: preimage, amount }, rent);
            let zr = zk_unshield_result(z, ZkUnshieldArgs { ots_preimage: preimage, amount });
            &&& ur is Ok <==> cr is Ok
            &&& ur matches Err(e) ==> cr == Err::<(ConvertToAirtoken, Seq<Step>), SignitoError>(e)
                && zr == Err::<(ZkUnshield, Seq<Step>), SignitoError>(e)
            &&& ur matches Ok(ru) ==> cr.unwrap().0.vault_state == ru.0.vault_state
            &&& zr matches Ok(rz) ==> ur is Ok && rz.0.vault_state == ur.unwrap().0.vault_state
        }),
{
}

// ---------------------------------------------------------------------------
// Effects of an instruction on the receipt supply, the vault's lamports and
// the freeze state of the receipt account
// ---------------------------------------------------------------------------

/// Change of the supply of `mint` that one step makes.
pub open spec fn supply_effect(step: Step, mint: [u8; 32]) -> int {
    match step.action {
        Action::MintTo { mint: m, amount, .. } => if m == mint { amount as int } else { 0 },
        Action::Burn { mint: m, amount, .. } => if m == mint { -(amount as int) } else { 0 },
        _ => 0,
    }
}

/// Change of the supply of `mint` over the first `k` steps.
pub open spec fn supply_change_upto(steps: Seq<Step>, k: int, mint: [u8; 32]) -> int
    decreases k,
{
    if k <= 0 {
        0
    } else {
        supply_change_upto(steps, k - 1, mint) + supply_effect(steps[k - 1], mint)
    }
}

/// Change of the supply of `mint` over a list of steps.
pub open spec fn supply_change(steps: Seq<Step>, mint: [u8; 32]) -> int {
    supply_change_upto(steps, steps.len() as int, mint)
}

/// Change of the lamports of `account` that one step makes by a lamport
/// transfer or a direct move (rent paid to create accounts is not counted).
pub open spec fn lamport_effect(step: Step, account: [u8; 32]) -> int {
    match step.action {
        Action::SystemTransfer { from, to, lamports } =>
            (if to == account { lamports as int } else { 0 }) - (if from == account { lamports as int } else { 0 }),
        Action::MoveLamports { from, to, amount } =>
            (if to == account { amount as int } else { 0 }) - (if from == account { amount as int } else { 0 }),
        _ => 0,
    }
}

/// Change of the lamports of `account` over the first `k` steps.
pub open spec fn lamport_change_upto(steps: Seq<Step>, k: int, account: [u8; 32]) -> int
    decreases k,
{
    if k <= 0 {
        0
    } else {
        lamport_change_upto(steps, k - 1, account) + lamport_effect(steps[k - 1], account)
    }
}

/// Change of the lamports of `account` over a list of steps.
pub open spec fn lamport_change(steps: Seq<Step>, account: [u8; 32]) -> int {
    lamport_change_upto(steps, steps.len() as int, account)
}

/// Whether, after the first `k` steps, the last freeze or thaw of `account`
/// left it frozen.
pub open spec fn frozen_upto(steps: Seq<Step>, k: int, account: [u8; 32]) -> bool
    decreases k,
{
    if k <= 0 {
        false
    } else {
        match steps[k - 1].action {
            Action::FreezeAccount { account: a, .. } if a == account => true,
            Action::ThawAccount { account: a, .. } if a == account => false,
            _ => frozen_upto(steps, k - 1, account),
        }
    }
}

/// Whether, after a list of steps, the last freeze or thaw of `account` left
/// it frozen.
pub open spec fn leaves_frozen(steps: Seq<Step>, account: [u8; 32]) -> bool {
    frozen_upto(steps, steps.len() as int, account)
}

/// Receipts back deposits one to one, for an owner-signed withdrawal: the
/// receipts burned and the drop of the recorded balance are the withdrawn
/// amount; the vault loses and the destination gains exactly that many
/// lamports (nothing moves when the destination is the vault itself); and the
/// receipt account is left frozen.
pub proof fn lemma_unshield_accounting(ctx: Unshield, args: UnshieldArgs)
    requires
        unshield_result(ctx, args) is Ok,
    ensures
        ({
            let (after, steps) = unshield_result(ctx, args).unwrap();
            &&& supply_change(steps, ctx.mint_stoken) == -(args.amount as int)
            &&& ctx.destination != ctx.vault_pda ==> lamport_change(steps, ctx.vault_pda) == -(args.amount as int)
            &&& ctx.destination != ctx.vault_pda ==> lamport_change(steps, ctx.destination) == args.amount
            &&& ctx.destination == ctx.vault_pda ==> lamport_change(steps, ctx.vault_pda) == 0
            &&& after.vault_state.total_deposited == ctx.vault_state.total_deposited - args.amount
            &&& leaves_frozen(steps, ctx.owner_stoken_ata)
        }),
{
    let steps = unshield_result(ctx, args).unwrap().1;
    reveal_with_fuel(supply_change_upto, 5);
    reveal_with_fuel(lamport_change_upto, 5);
    reveal_with_fuel(frozen_upto, 3);
    if account_frozen(ctx.owner_stoken_ata_data@) {
        assert(steps.len() == 4);
    } else {
        assert(steps.len() == 3);
    }
}

/// Receipts back deposits one to one, for a relayer-mediated withdrawal: the
/// receipts burned and the drop of the recorded balance are the withdrawn
/// amount; the vault loses and the destination gains exactly that many
/// lamports (nothing moves when the destination is the vault itself); and the
/// receipt account is left frozen.
pub proof fn lemma_zk_unshield_accounting(ctx: ZkUnshield, args: ZkUnshieldArgs)
    requires
        zk_unshield_result(ctx, args) is Ok,
    ensures
        ({
            let (after, steps) = zk_unshield_result(ctx, args).unwrap();
            &&& supply_change(steps, ctx.mint_stoken) == -(args.amount as int)
            &&& ctx.destination != ctx.vault_pda ==> lamport_change(steps, ctx.vault_pda) == -(args.amount as int)
            &&& ctx.destination != ctx.vault_pda ==> lamport_change(steps, ctx.destination) == args.amount
            &&& ctx.destination == ctx.vault_pda ==> lamport_change(steps, ctx.vault_pda) == 0
            &&& after.vault_state.total_deposited == ctx.vault_state.total_deposited - args.amount
            &&& leaves_frozen(steps, ctx.owner_stoken_ata)
        }),
{
    let steps = zk_unshield_result(ctx, args).unwrap().1;
    reveal_with_fuel(supply_change_upto, 5);
    reveal_with_fuel(lamport_change_upto, 5);
    reveal_with_fuel(frozen_upto, 3);
    if account_frozen(ctx.owner_stoken_ata_data@) {
        assert(steps.len() == 4);
    } else {
        assert(steps.len() == 3);
    }
}

/// Receipts back deposits one to one, for a conversion into voucher tokens:
/// the receipts burned, the voucher tokens minted and the drop of the recorded
/// balance are all the converted amount; the vault loses and the owner gains
/// exactly that many lamports (nothing moves when the owner is the vault
/// itself); and the receipt account is left frozen.
pub proof fn lemma_convert_accounting(ctx: ConvertToAirtoken, args: ConvertToAirtokenArgs, rent: RentMinimums)
    requires
        convert_result(ctx, args, rent) is Ok,
        ctx.mint_atoken != ctx.mint_stoken,
    ensures
        ({
            let (after, steps) = convert_result(ctx, args, rent).unwrap();
            &&& supply_change(steps, ctx.mint_stoken) == -(args.amount as int)
            &&& supply_change(steps, ctx.mint_atoken) == args.amount
            &&& ctx.owner != ctx.vault_pda ==> lamport_change(steps, ctx.vault_pda) == -(args.amount as int)
            &&& ctx.owner != ctx.vault_pda ==> lamport_change(steps, ctx.owner) == args.amount
            &&& ctx.owner == ctx.vault_pda ==> lamport_change(steps, ctx.vault_pda) == 0
            &&& after.vault_state.total_deposited == ctx.vault_state.total_deposited - args.amount
            &&& leaves_frozen(steps, ctx.owner_stoken_ata)
        }),
{
    let steps = convert_result(ctx, args, rent).unwrap().1;
    reveal_with_fuel(supply_change_upto, 10);
    reveal_with_fuel(lamport_change_upto, 10);
    reveal_with_fuel(frozen_upto, 10);
    if account_frozen(ctx.owner_stoken_ata_data@) {
        assert(steps.len() == 9);
    } else {
        assert(steps.len() == 8);
    }
}

/// Receipts back deposits one to one, for a deposit: the receipts minted, the
/// lamports that enter the vault and the growth of the recorded balance are all
/// the deposited amount, and the receipt account is left frozen. (The owner
/// signs and the vault is a program address, so they are different accounts.)
pub proof fn lemma_deposit_accounting(ctx: Deposit, args: DepositArgs)
    requires
        deposit_result(ctx, args) is Ok,
        ctx.owner != ctx.vault_pda,
    ensures
        ({
            let (after, steps) = deposit_result(ctx, args).unwrap();
            &&& supply_change(steps, ctx.mint_stoken) == args.amount
            &&& lamport_change(steps, ctx.vault_pda) == args.amount
            &&& lamport_change(steps, ctx.owner) == -(args.amount as int)
            &&& after.vault_state.total_deposited == ctx.vault_state.total_deposited + args.amount
            &&& leaves_frozen(steps, ctx.owner_stoken_ata)
        }),
{
    let steps = deposit_result(ctx, args).unwrap().1;
    reveal_with_fuel(supply_change_upto, 6);
    reveal_with_fuel(lamport_change_upto, 6);
    reveal_with_fuel(frozen_upto, 2);
    if account_frozen(ctx.owner_stoken_ata_data@) {
        assert(steps.len() == 5);
    } else {
        assert(steps.len() == 4);
    }
}

/// Receipts back deposits one to one, for vault creation: the receipts minted,
/// the lamports that enter the vault and the recorded balance are all the
/// deposited amount, and the receipt account is left frozen.
pub proof fn lemma_initialize_accounting(ctx: InitializeVault, args: InitializeVaultArgs, rent: RentMinimums)
    requires
        initialize_result(ctx, args, rent) is Ok,
        ctx.owner != ctx.vault_pda,
    ensures
        ({
            let (after, steps) = initialize_result(ctx, args, rent).unwrap();
            &&& supply_change(steps, ctx.mint_stoken) == args.amount
            &&& lamport_change(steps, ctx.vault_pda) == args.amount
            &&& after.vault_state.total_deposited == args.amount
            &&& leaves_frozen(steps, ctx.owner_stoken_ata)
        }),
{
    let steps = initialize_result(ctx, args, rent).unwrap().1;
    reveal_with_fuel(supply_change_upto, 9);
    reveal_with_fuel(lamport_change_upto, 9);
    reveal_with_fuel(frozen_upto, 3);
    assert(steps.len() == 8);
}

// ---------------------------------------------------------------------------
// Invariants over every vault instruction
// ---------------------------------------------------------------------------

/// One call of an instruction that changes a vault.
pub enum VaultCall {
    Initialize(InitializeVault, InitializeVaultArgs, RentMinimums),
    Deposit(Deposit, DepositArgs),
    Unshield(Unshield, UnshieldArgs),
    ZkUnshield(ZkUnshield, ZkUnshieldArgs),
    Convert(ConvertToAirtoken, ConvertToAirtokenArgs, RentMinimums),
    Refresh(RefreshOts, RefreshOtsArgs),
}

/// The vault address a call works on.
pub open spec fn call_vault(call: VaultCall) -> [u8; 32] {
    match call {
        VaultCall::Initialize(c, _, _) => c.vault_pda,
        VaultCall::Deposit(c, _) => c.vault_pda,
        VaultCall::Unshield(c, _) => c.vault_pda,
        VaultCall::ZkUnshield(c, _) => c.vault_pda,
        VaultCall::Convert(c, _, _) => c.vault_pda,
        VaultCall::Refresh(c, _) => c.vault_pda,
    }
}

/// The receipt mint a call works on.
pub open spec fn call_mint(call: VaultCall) -> [u8; 32] {
    match call {
        VaultCall::Initialize(c, _, _) => c.mint_stoken,
        VaultCall::Deposit(c, _) => c.mint_stoken,
        VaultCall::Unshield(c, _) => c.mint_stoken,
        VaultCall::ZkUnshield(c, _) => c.mint_stoken,
        VaultCall::Convert(c, _, _) => c.mint_stoken,
        VaultCall::Refresh(c, _) => c.vault_state.mint_stoken,
    }
}

/// The vault data before a call.
pub open spec fn call_before(call: VaultCall) -> VaultState {
    match call {
        VaultCall::Initialize(c, _, _) => c.vault_state,
        VaultCall::Deposit(c, _) => c.vault_state,
        VaultCall::Unshield(c, _) => c.vault_state,
        VaultCall::ZkUnshield(c, _) => c.vault_state,
        VaultCall::Convert(c, _, _) => c.vault_state,
        VaultCall::Refresh(c, _) => c.vault_state,
    }
}

/// The vault data after a successful call and the call's effects, or `None`
/// when the call is refused.
pub open spec fn call_outcome(call: VaultCall) -> Option<(VaultState, Seq<Step>)> {
    match call {
        VaultCall::Initialize(c, a, r) => match initialize_result(c, a, r) {
            Ok((n, s)) => Some((n.vault_state, s)),
            Err(_) => None,
        },
        VaultCall::Deposit(c, a) => match deposit_result(c, a) {
            Ok((n, s)) => Some((n.vault_state, s)),
            Err(_) => None,
        },
        VaultCall::Unshield(c, a) => match unshield_result(c, a) {
            Ok((n, s)) => Some((n.vault_state, s)),
            Err(_) => None,
        },
        VaultCall::ZkUnshield(c, a) => match zk_unshield_result(c, a) {
            Ok((n, s)) => Some((n.vault_state, s)),
            Err(_) => None,
        },
        VaultCall::Convert(c, a, r) => match convert_result(c, a, r) {
            Ok((n, s)) => Some((n.vault_state, s)),
            Err(_) => None,
        },
        VaultCall::Refresh(c, a) => Some((refresh_result(c, a).vault_state, Seq::empty())),
    }
}

/// The rent reserve is never touched: if the vault holds at least `reserve`
/// lamports beyond its recorded deposits before a successful call, it still
/// does after the call's lamport moves. (For creation and deposits the owner
/// signs and the vault is a program address, so they are different accounts.)
pub proof fn lemma_rent_reserve_kept(call: VaultCall, lamports: int, reserve: int)
    requires
        call_outcome(call) is Some,
        lamports >= reserve + call_before(call).total_deposited,
        call matches VaultCall::Initialize(c, _, _) ==> c.owner != c.vault_pda,
        call matches VaultCall::Deposit(c, _) ==> c.owner != c.vault_pda,
    ensures
        ({
            let (after, steps) = call_outcome(call).unwrap();
            lamports + lamport_change(steps, call_vault(call)) >= reserve + after.total_deposited
        }),
{
    match call {
        VaultCall::Initialize(c, a, r) => lemma_initialize_accounting(c, a, r),
        VaultCall::Deposit(c, a) => lemma_deposit_accounting(c, a),
        VaultCall::Unshield(c, a) => lemma_unshield_accounting(c, a),
        VaultCall::ZkUnshield(c, a) => lemma_zk_unshield_accounting(c, a),
        VaultCall::Convert(c, a, r) => {
            let steps = convert_result(c, a, r).unwrap().1;
            reveal_with_fuel(lamport_change_upto, 10);
            if account_frozen(c.owner_stoken_ata_data@) {
                assert(steps.len() == 9);
            } else {
                assert(steps.len() == 8);
            }
        },
        VaultCall::Refresh(c, a) => {},
    }
}

/// Receipts are a one-to-one claim on deposits: a new vault's receipt supply
/// equals its recorded balance, and any successful call on a vault whose
/// receipt supply equals its recorded balance keeps them equal. (A conversion
/// mints its voucher tokens on a fresh mint, never the receipt mint.)
pub proof fn lemma_receipts_track_deposits(call: VaultCall, supply: int)
    requires
        call_outcome(call) is Some,
        call is Initialize ==> supply == 0,
        !(call is Initialize) ==> supply == call_before(call).total_deposited,
        call matches VaultCall::Convert(c, _, _) ==> c.mint_atoken != c.mint_stoken,
    ensures
        ({
            let (after, steps) = call_outcome(call).unwrap();
            supply + supply_change(steps, call_mint(call)) == after.total_deposited
        }),
{
    match call {
        VaultCall::Initialize(c, a, r) => {
            let steps = initialize_result(c, a, r).unwrap().1;
            reveal_with_fuel(supply_change_upto, 9);
            assert(steps.len() == 8);
        },
        VaultCall::Deposit(c, a) => {
            let steps = deposit_result(c, a).unwrap().1;
            reveal_with_fuel(supply_change_upto, 6);
            if account_frozen(c.owner_stoken_ata_data@) {
                assert(steps.len() == 5);
            } else {
                assert(steps.len() == 4);
            }
        },
        VaultCall::Unshield(c, a) => lemma_unshield_accounting(c, a),
        VaultCall::ZkUnshield(c, a) => lemma_zk_unshield_accounting(c, a),
        VaultCall::Convert(c, a, r) => lemma_convert_accounting(c, a, r),
        VaultCall::Refresh(c, a) => {},
    }
}

// ---------------------------------------------------------------------------
// Runs of chain-consuming calls
// ---------------------------------------------------------------------------

/// One call that consumes an OTS chain level, made on whatever the vault data
/// is at that point (its context's own vault data is not used).
pub enum OtsSpend {
    Unshield(Unshield, UnshieldArgs),
    ZkUnshield(ZkUnshield, ZkUnshieldArgs),
    Convert(ConvertToAirtoken, ConvertToAirtokenArgs, RentMinimums),
}

/// The preimage a chain-consuming call reveals.
pub open spec fn spend_preimage(spend: OtsSpend) -> [u8; 32] {
    match spend {
        OtsSpend::Unshield(_, a) => a.ots_preimage,
        OtsSpend::ZkUnshield(_, a) => a.ots_preimage,
        OtsSpend::Convert(_, a, _) => a.ots_preimage,
    }
}

/// The amount a chain-consuming call takes.
pub open spec fn spend_amount(spend: OtsSpend) -> u64 {
    match spend {
        OtsSpend::Unshield(_, a) => a.amount,
        OtsSpend::ZkUnshield(_, a) => a.amount,
        OtsSpend::Convert(_, a, _) => a.amount,
    }
}

/// The vault data after a chain-consuming call on vault data `vault`, or
/// `None` when the call is refused.
pub open spec fn spend_on(spend: OtsSpend, vault: VaultState) -> Option<VaultState> {
    match spend {
        OtsSpend::Unshield(c, a) => match unshield_result(Unshield { vault_state: vault, ..c }, a) {
            Ok((n, _)) => Some(n.vault_state),
            Err(_) => None,
        },
        OtsSpend::ZkUnshield(c, a) => match zk_unshield_result(ZkUnshield { vault_state: vault, ..c }, a) {
            Ok((n, _)) => Some(n.vault_state),
            Err(_) => None,
        },
        OtsSpend::Convert(c, a, r) => match convert_result(ConvertToAirtoken { vault_state: vault, ..c }, a, r) {
            Ok((n, _)) => Some(n.vault_state),
            Err(_) => None,
        },
    }
}

/// The vault data after a run of chain-consuming calls, or `None` when one of
/// them is refused.
pub open spec fn run_spends(vault: VaultState, spends: Seq<OtsSpend>) -> Option<VaultState>
    decreases spends.len(),
{
    if spends.len() == 0 {
        Some(vault)
    } else {
        match spend_on(spends[0], vault) {
            Some(next) => run_spends(next, spends.drop_first()),
            None => None,
        }
    }
}

/// What a run of chain-consuming calls reveals and takes.
pub open spec fn reveals_of(spends: Seq<OtsSpend>) -> Seq<([u8; 32], u64)> {
    spends.map_values(|s: OtsSpend| (spend_preimage(s), spend_amount(s)))
}

proof fn lemma_spend_is_withdrawal(spend: OtsSpend, vault: VaultState)
    ensures
        spend_on(spend, vault) is Some ==> withdrawal_outcome(
            vault,
            sha256_digest(spend_preimage(spend)@),
            spend_preimage(spend),
            spend_amount(spend),
        ) == Ok::<VaultState, SignitoError>(spend_on(spend, vault).unwrap()),
{
}

proof fn lemma_run_spends_is_run_withdrawals(vault: VaultState, spends: Seq<OtsSpend>)
    requires
        run_spends(vault, spends) is Some,
    ensures
        run_withdrawals(vault, reveals_of(spends)) == run_spends(vault, spends),
    decreases spends.len(),
{
    if spends.len() > 0 {
        lemma_spend_is_withdrawal(spends[0], vault);
        let next = spend_on(spends[0], vault).unwrap();
        lemma_run_spends_is_run_withdrawals(next, spends.drop_first());
        assert(reveals_of(spends).drop_first() =~= reveals_of(spends.drop_first()));
    }
}

/// The hash chain law over any mix of owner-signed withdrawals,
/// relayer-mediated withdrawals and conversions, with no refresh between them.
/// When they all succeed: the first revealed preimage hashes to the stored tip
/// and each later one to the preimage revealed before it; the last preimage is
/// the new tip; each call consumed one level, so there were at most
/// `chain_depth` of them; exactly their total left the deposited balance; and
/// once `chain_depth` of them have run, every further one is refused.
pub proof fn lemma_spend_chain(vault: VaultState, spends: Seq<OtsSpend>)
    requires
        run_spends(vault, spends) is Some,
    ensures
        ({
            let end = run_spends(vault, spends).unwrap();
            &&& spends.len() <= vault.chain_depth
            &&& end.chain_depth == vault.chain_depth - spends.len()
            &&& end.total_deposited == vault.total_deposited - total_withdrawn(reveals_of(spends))
            &&& spends.len() > 0 ==> end.current_ots_hash == spend_preimage(spends.last())
            &&& spends.len() > 0 ==> sha256_digest(spend_preimage(spends[0])@) == vault.current_ots_hash@
            &&& forall|i: int| 0 < i < spends.len() ==>
                #[trigger] sha256_digest(spend_preimage(spends[i])@) == spend_preimage(spends[i - 1])@
            &&& spends.len() == vault.chain_depth ==> forall|next: OtsSpend| #[trigger] spend_on(next, end) is None
        }),
{
    lemma_run_spends_is_run_withdrawals(vault, spends);
    let reveals = reveals_of(spends);
    lemma_withdrawal_chain(vault, reveals);
    let end = run_spends(vault, spends).unwrap();
    assert forall|i: int| 0 < i < spends.len() implies
        #[trigger] sha256_digest(spend_preimage(spends[i])@) == spend_preimage(spends[i - 1])@ by {
        assert(reveals[i].0 == spend_preimage(spends[i]));
        assert(reveals[i - 1].0 == spend_preimage(spends[i - 1]));
    }
    if spends.len() > 0 {
        assert(reveals.last().0 == spend_preimage(spends.last()));
        assert(reveals[0].0 == spend_preimage(spends[0]));
    }
    if spends.len() == vault.chain_depth {
        assert forall|next: OtsSpend| #[trigger] spend_on(next, end) is None by {
            lemma_spend_is_withdrawal(next, end);
        }
    }
}

// ---------------------------------------------------------------------------
// Round trips
// ---------------------------------------------------------------------------

/// A deposit followed by a withdrawal of the same amount leaves the recorded
/// balance, the vault's lamports and the receipt supply where they were, and
/// has consumed one chain level, whose preimage is now the tip. (The owner
/// signs and the vault is a program address, so they are different accounts.)
pub proof fn lemma_deposit_then_withdraw(d: Deposit, amount: u64, u: Unshield, preimage: [u8; 32])
    requires
        deposit_result(d, DepositArgs { amount }) is Ok,
        u.vault_state == deposit_result(d, DepositArgs { amount }).unwrap().0.vault_state,
        u.vault_pda == d.vault_pda,
        u.mint_stoken == d.mint_stoken,
        unshield_result(u, UnshieldArgs { ots_preimage: preimage, amount }) is Ok,
        d.owner != d.vault_pda,
        u.destination != u.vault_pda,
    ensures
        ({
            let (_, deposited) = deposit_result(d, DepositArgs { amount }).unwrap();
            let (after, withdrawn) = unshield_result(u, UnshieldArgs { ots_preimage: preimage, amount }).unwrap();
            &&& after.vault_state.total_deposited == d.vault_state.total_deposited
            &&& lamport_change(deposited, d.vault_pda) + lamport_change(withdrawn, d.vault_pda) == 0
            &&& supply_change(deposited, d.mint_stoken) + supply_change(withdrawn, d.mint_stoken) == 0
            &&& after.vault_state.current_ots_hash == preimage
            &&& after.vault_state.chain_depth == d.vault_state.chain_depth - 1
            &&& after.vault_state.owner == d.vault_state.owner
            &&& after.vault_state.mint_stoken == d.vault_state.mint_stoken
        }),
{
    lemma_deposit_accounting(d, DepositArgs { amount });
    lemma_unshield_accounting(u, UnshieldArgs { ots_preimage: preimage, amount });
}

/// Two deposits have the same effect on the vault as one deposit of their sum:
/// the same vault data, and the same growth of the vault's lamports and of the
/// receipt supply. (The owner signs and the vault is a program address.)
pub proof fn lemma_deposits_combine(d: Deposit, a: u64, b: u64)
    requires
        deposit_result(d, DepositArgs { amount: a }) is Ok,
        deposit_result(deposit_result(d, DepositArgs { amount: a }).unwrap().0, DepositArgs { amount: b }) is Ok,
        d.owner != d.vault_pda,
    ensures
        ({
            let (mid, first) = deposit_result(d, DepositArgs { amount: a }).unwrap();
            let (end, second) = deposit_result(mid, DepositArgs { amount: b }).unwrap();
            &&& a + b <= u64::MAX
            &&& deposit_result(d, DepositArgs { amount: (a + b) as u64 }) is Ok
            &&& ({
                let (once, single) = deposit_result(d, DepositArgs { amount: (a + b) as u64 }).unwrap();
                &&& once.vault_state == end.vault_state
                &&& lamport_change(first, d.vault_pda) + lamport_change(second, d.vault_pda) == lamport_change(single, d.vault_pda)
                &&& supply_change(first, d.mint_stoken) + supply_change(second, d.mint_stoken) == supply_change(single, d.mint_stoken)
            })
        }),
{
    let mid = deposit_result(d, DepositArgs { amount: a }).unwrap().0;
    lemma_deposit_accounting(d, DepositArgs { amount: a });
    lemma_deposit_accounting(mid, DepositArgs { amount: b });
    lemma_deposit_accounting(d, DepositArgs { amount: (a + b) as u64 });
}

/// Creation sets the vault up for relayer withdrawals: its effects approve the
/// vault as delegate of the receipt account for the whole supply, and once
/// that approval shows in the account, a relayer withdrawal revealing the
/// preimage of the chosen tip, for at most the deposit, succeeds and moves
/// the amount to the destination.
pub proof fn lemma_relayer_withdrawal_after_creation(
    i: InitializeVault,
    args: InitializeVaultArgs,
    rent: RentMinimums,
    z: ZkUnshield,
    preimage: [u8; 32],
    amount: u64,
)
    requires
        initialize_result(i, args, rent) is Ok,
        args.ots_tip@ == sha256_digest(preimage@),
        0 < amount <= args.amount,
        z.vault_state == initialize_result(i, args, rent).unwrap().0.vault_state,
        z.vault_pda == i.vault_pda,
        delegate_is(z.owner_stoken_ata_data@, z.vault_pda@),
    ensures
        initialize_result(i, args, rent).unwrap().1.contains(
            unsigned(Action::Approve {
                program: TokenProgram::Token2022,
                source: i.owner_stoken_ata,
                delegate: i.vault_pda,
                owner: i.owner,
                amount: u64::MAX,
            }),
        ),
        zk_unshield_result(z, ZkUnshieldArgs { ots_preimage: preimage, amount }) is Ok,
        zk_unshield_result(z, ZkUnshieldArgs { ots_preimage: preimage, amount }).unwrap().1.contains(
            unsigned(Action::MoveLamports { from: z.vault_pda, to: z.destination, amount }),
        ),
{
    let steps = initialize_result(i, args, rent).unwrap().1;
    assert(steps[5] == unsigned(Action::Approve {
        program: TokenProgram::Token2022,
        source: i.owner_stoken_ata,
        delegate: i.vault_pda,
        owner: i.owner,
        amount: u64::MAX,
    }));
    let zs = zk_unshield_result(z, ZkUnshieldArgs { ots_preimage: preimage, amount }).unwrap().1;
    assert(zs[zs.len() - 1] == unsigned(Action::MoveLamports { from: z.vault_pda, to: z.destination, amount }));
}

// ---------------------------------------------------------------------------
// Who acts in each instruction's effects
// ---------------------------------------------------------------------------

/// The claim pays exactly what the voucher says: its amount is the unsigned
/// 64-bit little-endian value of message bytes 0..8; the claim is refused as
/// `InvalidAmount` exactly when that value is 0; and an accepted claim reports
/// that amount and ends with the one transfer of it from the escrow to the
/// claimer's account, signed by the issuer's vault.
pub proof fn lemma_claim_pays_voucher_amount(
    ctx: ClaimVoucher,
    args: ClaimVoucherArgs,
    now: i64,
    first_ix: Option<LoadedInstruction>,
    rent: RentMinimums,
)
    ensures
        ({
            let m = args.voucher_msg@;
            let amount: int = m[0] + m[1] * 0x100 + m[2] * 0x1_0000 + m[3] * 0x100_0000
                + m[4] * 0x1_0000_0000 + m[5] * 0x100_0000_0000 + m[6] * 0x1_0000_0000_0000
                + m[7] * 0x100_0000_0000_0000;
            let r = claim_result(ctx, args, now, first_ix, rent);
            &&& (r == Err::<(ClaimVoucher, Seq<Step>, crate::instructions::claim_voucher::VoucherClaimed), SignitoError>(SignitoError::InvalidAmount)) <==> amount == 0
            &&& r matches Ok((_, steps, event)) ==> (
                event.amount == amount
                && steps.len() >= 1
                && steps.last() == (Step {
                    action: Action::Transfer {
                        program: TokenProgram::SplToken,
                        source: ctx.escrow_atoken_ata,
                        destination: ctx.claimer_atoken_ata,
                        authority: ctx.issuer_vault_pda,
                        amount: event.amount,
                    },
                    signer: Some(VaultSeeds { owner: ctx.issuer, bump: ctx.issuer_vault_bump }),
                })
                && forall|i: int| 0 <= i < steps.len() - 1 ==> !(#[trigger] steps[i].action is Transfer)
            )
        }),
{
}

/// Whether every freeze and thaw among `steps` is a Token-2022 freeze or thaw
/// of the receipt account `account` of `mint`, with the vault address as
/// authority and signed with the vault's seeds.
pub open spec fn freezes_by_vault(steps: Seq<Step>, account: [u8; 32], mint: [u8; 32], vault: [u8; 32], seeds: VaultSeeds) -> bool {
    forall|i: int| 0 <= i < steps.len() ==> {
        let st = #[trigger] steps[i];
        match st.action {
            Action::FreezeAccount { program, account: a, mint: m, authority } =>
                program == TokenProgram::Token2022 && a == account && m == mint && authority == vault && st.signer == Some(seeds),
            Action::ThawAccount { program, account: a, mint: m, authority } =>
                program == TokenProgram::Token2022 && a == account && m == mint && authority == vault && st.signer == Some(seeds),
            _ => true,
        }
    }
}

/// The receipt account a call works on.
pub open spec fn call_receipt_account(call: VaultCall) -> [u8; 32] {
    match call {
        VaultCall::Initialize(c, _, _) => c.owner_stoken_ata,
        VaultCall::Deposit(c, _) => c.owner_stoken_ata,
        VaultCall::Unshield(c, _) => c.owner_stoken_ata,
        VaultCall::ZkUnshield(c, _) => c.owner_stoken_ata,
        VaultCall::Convert(c, _, _) => c.owner_stoken_ata,
        VaultCall::Refresh(c, _) => c.vault_pda,
    }
}

/// The seeds `["vault", owner, [bump]]` of the vault a call works on.
pub open spec fn call_seeds(call: VaultCall) -> VaultSeeds {
    match call {
        VaultCall::Initialize(c, _, _) => VaultSeeds { owner: c.owner, bump: c.vault_bump },
        VaultCall::Deposit(c, _) => VaultSeeds { owner: c.owner, bump: c.vault_state.bump },
        VaultCall::Unshield(c, _) => VaultSeeds { owner: c.owner, bump: c.vault_state.bump },
        VaultCall::ZkUnshield(c, _) => VaultSeeds { owner: c.owner, bump: c.vault_state.bump },
        VaultCall::Convert(c, _, _) => VaultSeeds { owner: c.owner, bump: c.vault_state.bump },
        VaultCall::Refresh(c, _) => VaultSeeds { owner: c.owner, bump: c.vault_state.bump },
    }
}

/// Only the vault freezes and thaws receipts: in every instruction, each freeze
/// or thaw is of the receipt account, names the vault address (the freeze
/// authority that creation gives the receipt mint) as authority, and is signed
/// with the vault's seeds.
pub proof fn lemma_vault_is_freeze_authority(call: VaultCall)
    requires
        call_outcome(call) is Some,
    ensures
        freezes_by_vault(
            call_outcome(call).unwrap().1,
            call_receipt_account(call),
            call_mint(call),
            call_vault(call),
            call_seeds(call),
        ),
{
    let steps = call_outcome(call).unwrap().1;
    assert forall|i: int| 0 <= i < steps.len() implies {
        let st = #[trigger] steps[i];
        match st.action {
            Action::FreezeAccount { program, account: a, mint: m, authority } =>
                program == TokenProgram::Token2022 && a == call_receipt_account(call) && m == call_mint(call)
                    && authority == call_vault(call) && st.signer == Some(call_seeds(call)),
            Action::ThawAccount { program, account: a, mint: m, authority } =>
                program == TokenProgram::Token2022 && a == call_receipt_account(call) && m == call_mint(call)
                    && authority == call_vault(call) && st.signer == Some(call_seeds(call)),
            _ => true,
        }
    } by {
        match call {
            VaultCall::Initialize(c, a, r) => {
                assert(steps.len() == 8);
            },
            VaultCall::Deposit(c, a) => {
                if account_frozen(c.owner_stoken_ata_data@) { assert(steps.len() == 5); } else { assert(steps.len() == 4); }
            },
            VaultCall::Unshield(c, a) => {
                if account_frozen(c.owner_stoken_ata_data@) { assert(steps.len() == 4); } else { assert(steps.len() == 3); }
            },
            VaultCall::ZkUnshield(c, a) => {
                if account_frozen(c.owner_stoken_ata_data@) { assert(steps.len() == 4); } else { assert(steps.len() == 3); }
            },
            VaultCall::Convert(c, a, r) => {
                if account_frozen(c.owner_stoken_ata_data@) { assert(steps.len() == 9); } else { assert(steps.len() == 8); }
            },
            VaultCall::Refresh(c, a) => {},
        }
    }
}

/// Creation gives the receipt account to the vault owner: the receipt account
/// is initialised with the owner as its token owner, every initialisation of
/// it names the owner, and every approval on it is made by that same owner,
/// for the vault as delegate of the whole supply.
pub proof fn lemma_receipt_account_owned_by_owner(ctx: InitializeVault, args: InitializeVaultArgs, rent: RentMinimums)
    requires
        initialize_result(ctx, args, rent) is Ok,
    ensures
        ({
            let steps = initialize_result(ctx, args, rent).unwrap().1;
            &&& steps.contains(Step {
                action: Action::InitializeAccount3 {
                    program: TokenProgram::Token2022,
                    account: ctx.owner_stoken_ata,
                    mint: ctx.mint_stoken,
                    owner: ctx.owner,
                },
                signer: None,
            })
            &&& forall|i: int| 0 <= i < steps.len() ==> match #[trigger] steps[i].action {
                Action::InitializeAccount3 { account, owner, .. } => account == ctx.owner_stoken_ata ==> owner == ctx.owner,
                _ => true,
            }
            &&& forall|i: int| 0 <= i < steps.len() ==> match #[trigger] steps[i].action {
                Action::Approve { source, delegate, owner, amount, .. } =>
                    source == ctx.owner_stoken_ata ==> owner == ctx.owner && delegate == ctx.vault_pda && amount == u64::MAX,
                _ => true,
            }
        }),
{
    let steps = initialize_result(ctx, args, rent).unwrap().1;
    assert(steps.len() == 8);
    assert(steps[3] == Step {
        action: Action::InitializeAccount3 {
            program: TokenProgram::Token2022,
            account: ctx.owner_stoken_ata,
            mint: ctx.mint_stoken,
            owner: ctx.owner,
        },
        signer: None,
    });
}

/// A deposit re-approves the vault as delegate with the authority of the
/// receipt account's token owner, the vault owner (as creation set it up).
pub proof fn lemma_deposit_approval_by_owner(ctx: Deposit, args: DepositArgs)
    requires
        deposit_result(ctx, args) is Ok,
    ensures
        ({
            let steps = deposit_result(ctx, args).unwrap().1;
            forall|i: int| 0 <= i < steps.len() ==> match #[trigger] steps[i].action {
                Action::Approve { source, delegate, owner, amount, .. } =>
                    source == ctx.owner_stoken_ata && owner == ctx.owner && delegate == ctx.vault_pda
                        && amount == u64::MAX && steps[i].signer is None,
                _ => true,
            }
        }),
{
    let steps = deposit_result(ctx, args).unwrap().1;
    if account_frozen(ctx.owner_stoken_ata_data@) { assert(steps.len() == 5); } else { assert(steps.len() == 4); }
}

/// A conversion escrows the voucher tokens with the vault: the escrow account
/// is initialised on the voucher mint with the vault address as its token
/// owner, every initialisation of it names the vault, and the only voucher
/// tokens minted go to it, the converted amount, by the vault.
pub proof fn lemma_convert_escrow_owned_by_vault(ctx: ConvertToAirtoken, args: ConvertToAirtokenArgs, rent: RentMinimums)
    requires
        convert_result(ctx, args, rent) is Ok,
    ensures
        ({
            let steps = convert_result(ctx, args, rent).unwrap().1;
            &&& steps.contains(Step {
                action: Action::InitializeAccount3 {
                    program: TokenProgram::SplToken,
                    account: ctx.escrow_atoken_ata,
                    mint: ctx.mint_atoken,
                    owner: ctx.vault_pda,
                },
                signer: Some(VaultSeeds { owner: ctx.owner, bump: ctx.vault_state.bump }),
            })
            &&& forall|i: int| 0 <= i < steps.len() ==> match #[trigger] steps[i].action {
                Action::InitializeAccount3 { account, mint, owner, .. } =>
                    account == ctx.escrow_atoken_ata ==> owner == ctx.vault_pda && mint == ctx.mint_atoken,
                _ => true,
            }
            &&& forall|i: int| 0 <= i < steps.len() ==> match #[trigger] steps[i].action {
                Action::MintTo { mint, account, authority, amount, .. } =>
                    mint == ctx.mint_atoken ==> account == ctx.escrow_atoken_ata && authority == ctx.vault_pda && amount == args.amount,
                _ => true,
            }
        }),
{
    let steps = convert_result(ctx, args, rent).unwrap().1;
    let esc = Step {
        action: Action::InitializeAccount3 {
            program: TokenProgram::SplToken,
            account: ctx.escrow_atoken_ata,
            mint: ctx.mint_atoken,
            owner: ctx.vault_pda,
        },
        signer: Some(VaultSeeds { owner: ctx.owner, bump: ctx.vault_state.bump }),
    };
    if account_frozen(ctx.owner_stoken_ata_data@) {
        assert(steps.len() == 9);
        assert(steps[7] == esc);
    } else {
        assert(steps.len() == 8);
        assert(steps[6] == esc);
    }
}

/// A voucher claim draws on the escrow with the authority a conversion gave it:
/// when the claim's escrow, voucher mint and issuer vault are those of a
/// conversion, the claim's transfer out of the escrow is authorised by the same
/// address that the conversion made the escrow's token owner, and signed with
/// that vault's seeds.
pub proof fn lemma_claim_uses_escrow_owner(
    c: ConvertToAirtoken,
    cargs: ConvertToAirtokenArgs,
    crent: RentMinimums,
    k: ClaimVoucher,
    kargs: ClaimVoucherArgs,
    now: i64,
    first_ix: Option<LoadedInstruction>,
    krent: RentMinimums,
)
    requires
        convert_result(c, cargs, crent) is Ok,
        claim_result(k, kargs, now, first_ix, krent) is Ok,
        k.escrow_atoken_ata == c.escrow_atoken_ata,
        k.mint_atoken == c.mint_atoken,
        k.issuer == c.owner,
        k.issuer_vault_pda == c.vault_pda,
        k.issuer_vault_bump == c.vault_state.bump,
    ensures
        ({
            let csteps = convert_result(c, cargs, crent).unwrap().1;
            let ksteps = claim_result(k, kargs, now, first_ix, krent).unwrap().1;
            &&& ksteps.last().action matches Action::Transfer { source, authority, .. } && source == k.escrow_atoken_ata
                && csteps.contains(Step {
                    action: Action::InitializeAccount3 {
                        program: TokenProgram::SplToken,
                        account: source,
                        mint: k.mint_atoken,
                        owner: authority,
                    },
                    signer: ksteps.last().signer,
                })
        }),
{
    lemma_convert_escrow_owned_by_vault(c, cargs, crent);
    lemma_claim_pays_voucher_amount(k, kargs, now, first_ix, krent);
}

/// A refresh installs the new chain whatever state the old one is in: the tip
/// becomes the new tip and the depth the new depth, and owner, mint, deposits
/// and bump are kept.
pub proof fn lemma_refresh_installs_chain(ctx: RefreshOts, args: RefreshOtsArgs)
    ensures
        ({
            let v = refresh_result(ctx, args).vault_state;
            &&& v.current_ots_hash == args.new_ots_tip
            &&& v.chain_depth == args.new_chain_depth
            &&& v.owner == ctx.vault_state.owner
            &&& v.mint_stoken == ctx.vault_state.mint_stoken
            &&& v.total_deposited == ctx.vault_state.total_deposited
            &&& v.bump == ctx.vault_state.bump
        }),
{
}

/// After a refresh to a chain of depth at least one, revealing the preimage of
/// the new tip withdraws, at any depth the old chain had: the withdrawal
/// succeeds for any amount up to the deposits, the preimage becomes the tip and
/// one level of the new chain is consumed.
pub proof fn lemma_refresh_then_withdraw(r: RefreshOts, args: RefreshOtsArgs, u: Unshield, preimage: [u8; 32], amount: u64)
    requires
        sha256_digest(preimage@) == args.new_ots_tip@,
        args.new_chain_depth > 0,
        0 < amount <= r.vault_state.total_deposited,
        u.vault_state == refresh_result(r, args).vault_state,
    ensures
        unshield_result(u, UnshieldArgs { ots_preimage: preimage, amount }) is Ok,
        unshield_result(u, UnshieldArgs { ots_preimage: preimage, amount }).unwrap().0.vault_state.current_ots_hash == preimage,
        unshield_result(u, UnshieldArgs { ots_preimage: preimage, amount }).unwrap().0.vault_state.chain_depth == args.new_chain_depth - 1,
{
    lemma_refresh_installs_chain(r, args);
}

/// Creation sets the vault up from its arguments: it is refused as
/// `InvalidAmount` exactly when the amount is 0 or the depth is outside 1..=64;
/// otherwise the vault records the signer as owner, the given tip and depth,
/// the new receipt mint, the amount as deposits and the address's bump; and
/// the receipt mint (82 bytes) and receipt account (165 bytes) are created by
/// the owner with their rent minimums, the mint with the vault as mint and
/// freeze authority and 9 decimals.
pub proof fn lemma_initialize_sets_up_vault(ctx: InitializeVault, args: InitializeVaultArgs, rent: RentMinimums)
    ensures
        (initialize_result(ctx, args, rent) is Err) <==> (args.amount == 0 || args.chain_depth == 0 || args.chain_depth > 64),
        initialize_result(ctx, args, rent) matches Err(e) ==> e == SignitoError::InvalidAmount,
        initialize_result(ctx, args, rent) matches Ok((after, steps)) ==> (
            after.vault_state == (VaultState {
                owner: ctx.owner,
                current_ots_hash: args.ots_tip,
                chain_depth: args.chain_depth,
                mint_stoken: ctx.mint_stoken,
                total_deposited: args.amount,
                bump: ctx.vault_bump,
            })
            && steps.contains(Step {
                action: Action::CreateAccount {
                    payer: ctx.owner,
                    new_account: ctx.mint_stoken,
                    lamports: rent.mint_account,
                    space: 82,
                    program: TokenProgram::Token2022,
                },
                signer: None,
            })
            && steps.contains(Step {
                action: Action::CreateAccount {
                    payer: ctx.owner,
                    new_account: ctx.owner_stoken_ata,
                    lamports: rent.token_account,
                    space: 165,
                    program: TokenProgram::Token2022,
                },
                signer: None,
            })
            && steps.contains(Step {
                action: Action::InitializeMint2 {
                    program: TokenProgram::Token2022,
                    mint: ctx.mint_stoken,
                    mint_authority: ctx.vault_pda,
                    freeze_authority: Some(ctx.vault_pda),
                    decimals: 9,
                },
                signer: None,
            })
        ),
{
    if initialize_result(ctx, args, rent) is Ok {
        let steps = initialize_result(ctx, args, rent).unwrap().1;
        assert(steps[0].action == Action::CreateAccount {
            payer: ctx.owner,
            new_account: ctx.mint_stoken,
            lamports: rent.mint_account,
            space: 82,
            program: TokenProgram::Token2022,
        });
        assert(steps[1].signer is None);
        assert(steps[2].signer is None);
    }
}

/// A conversion creates the voucher mint as a classic SPL mint (82 bytes, paid
/// by the owner) whose mint authority is the vault, with no freeze authority
/// and 9 decimals, and the escrow (165 bytes, paid by the owner).
pub proof fn lemma_convert_voucher_mint(ctx: ConvertToAirtoken, args: ConvertToAirtokenArgs, rent: RentMinimums)
    requires
        convert_result(ctx, args, rent) is Ok,
    ensures
        ({
            let steps = convert_result(ctx, args, rent).unwrap().1;
            &&& steps.contains(Step {
                action: Action::CreateAccount {
                    payer: ctx.owner,
                    new_account: ctx.mint_atoken,
                    lamports: rent.mint_account,
                    space: 82,
                    program: TokenProgram::SplToken,
                },
                signer: None,
            })
            &&& steps.contains(Step {
                action: Action::InitializeMint {
                    program: TokenProgram::SplToken,
                    mint: ctx.mint_atoken,
                    mint_authority: ctx.vault_pda,
                    freeze_authority: None,
                    decimals: 9,
                },
                signer: Some(VaultSeeds { owner: ctx.owner, bump: ctx.vault_state.bump }),
            })
            &&& steps.contains(Step {
                action: Action::CreateAccount {
                    payer: ctx.owner,
                    new_account: ctx.escrow_atoken_ata,
                    lamports: rent.token_account,
                    space: 165,
                    program: TokenProgram::SplToken,
                },
                signer: None,
            })
        }),
{
    let steps = convert_result(ctx, args, rent).unwrap().1;
    let k: int = if account_frozen(ctx.owner_stoken_ata_data@) { 1 } else { 0 };
    assert(steps[k + 3].signer is None);
    assert(steps[k + 4].action matches Action::InitializeMint { .. });
    assert(steps[k + 5].signer is None);
}

/// An accepted claim stamps the nonce record with the claim time, reports who
/// claimed what from whom, and creates the claimer's voucher-token account
/// (165 bytes, paid by the claimer, owned by the claimer, on the voucher mint)
/// exactly when it is empty, before the transfer.
pub proof fn lemma_claim_records_and_creates(
    ctx: ClaimVoucher,
    args: ClaimVoucherArgs,
    now: i64,
    first_ix: Option<LoadedInstruction>,
    rent: RentMinimums,
)
    requires
        claim_result(ctx, args, now, first_ix, rent) is Ok,
    ensures
        ({
            let (after, steps, event) = claim_result(ctx, args, now, first_ix, rent).unwrap();
            &&& after.nonce_pda.claimed_at == now
            &&& event.claimer == ctx.claimer && event.issuer == ctx.issuer
            &&& event.mint_atoken == ctx.mint_atoken && event.claimed_at == now
            &&& ctx.claimer_atoken_ata_is_empty ==> steps.len() == 3
                && steps[0] == (Step {
                    action: Action::CreateAccount {
                        payer: ctx.claimer,
                        new_account: ctx.claimer_atoken_ata,
                        lamports: rent.token_account,
                        space: 165,
                        program: TokenProgram::SplToken,
                    },
                    signer: None,
                })
                && steps[1] == (Step {
                    action: Action::InitializeAccount3 {
                        program: TokenProgram::SplToken,
                        account: ctx.claimer_atoken_ata,
                        mint: ctx.mint_atoken,
                        owner: ctx.claimer,
                    },
                    signer: None,
                })
            &&& !ctx.claimer_atoken_ata_is_empty ==> steps.len() == 1
        }),
{
}

/// Who burns the receipts and where the lamports go: an owner-signed
/// withdrawal burns with the owner's authority and pays the destination; a
/// relayer-mediated withdrawal burns with the vault's delegated authority,
/// signed with the vault's seeds, and pays the destination; a conversion burns
/// with the owner's authority and pays the owner. Each burns exactly the amount
/// from the receipt account on the receipt mint, and pays it from the vault.
pub proof fn lemma_withdrawal_burn_and_payout(call: VaultCall)
    requires
        call_outcome(call) is Some,
    ensures
        ({
            let steps = call_outcome(call).unwrap().1;
            match call {
                VaultCall::Unshield(c, a) =>
                    steps.contains(Step {
                        action: Action::Burn { program: TokenProgram::Token2022, account: c.owner_stoken_ata, mint: c.mint_stoken, authority: c.owner, amount: a.amount },
                        signer: None,
                    })
                    && steps.contains(Step { action: Action::MoveLamports { from: c.vault_pda, to: c.destination, amount: a.amount }, signer: None })
                    && forall|i: int| 0 <= i < steps.len() ==> match #[trigger] steps[i].action {
                        Action::Burn { authority, .. } => authority == c.owner,
                        Action::MoveLamports { from, to, .. } => from == c.vault_pda && to == c.destination,
                        _ => true,
                    },
                VaultCall::ZkUnshield(c, a) =>
                    steps.contains(Step {
                        action: Action::Burn { program: TokenProgram::Token2022, account: c.owner_stoken_ata, mint: c.mint_stoken, authority: c.vault_pda, amount: a.amount },
                        signer: Some(VaultSeeds { owner: c.owner, bump: c.vault_state.bump }),
                    })
                    && steps.contains(Step { action: Action::MoveLamports { from: c.vault_pda, to: c.destination, amount: a.amount }, signer: None })
                    && forall|i: int| 0 <= i < steps.len() ==> match #[trigger] steps[i].action {
                        Action::Burn { authority, .. } => authority == c.vault_pda,
                        Action::MoveLamports { from, to, .. } => from == c.vault_pda && to == c.destination,
                        _ => true,
                    },
                VaultCall::Convert(c, a, _) =>
                    steps.contains(Step {
                        action: Action::Burn { program: TokenProgram::Token2022, account: c.owner_stoken_ata, mint: c.mint_stoken, authority: c.owner, amount: a.amount },
                        signer: None,
                    })
                    && steps.contains(Step { action: Action::MoveLamports { from: c.vault_pda, to: c.owner, amount: a.amount }, signer: None })
                    && forall|i: int| 0 <= i < steps.len() ==> match #[trigger] steps[i].action {
                        Action::Burn { authority, .. } => authority == c.owner,
                        Action::MoveLamports { from, to, .. } => from == c.vault_pda && to == c.owner,
                        _ => true,
                    },
                _ => true,
            }
        }),
{
    let steps = call_outcome(call).unwrap().1;
    match call {
        VaultCall::Unshield(c, a) => {
            let k: int = if account_frozen(c.owner_stoken_ata_data@) { 1 } else { 0 };
            assert(steps[k].signer is None);
            assert(steps[k + 2].signer is None);
        },
        VaultCall::ZkUnshield(c, a) => {
            let k: int = if account_frozen(c.owner_stoken_ata_data@) { 1 } else { 0 };
            assert(steps[k].action matches Action::Burn { .. });
            assert(steps[k + 2].signer is None);
        },
        VaultCall::Convert(c, a, _) => {
            let k: int = if account_frozen(c.owner_stoken_ata_data@) { 1 } else { 0 };
            assert(steps[k].signer is None);
            assert(steps[k + 2].signer is None);
        },
        _ => {},
    }
}

} // verus!
