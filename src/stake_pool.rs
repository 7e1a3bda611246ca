use borsh::BorshDeserialize;
use spl_stake_pool::instruction::StakePoolInstruction;
use vstd::prelude::*;

use crate::account::{AccountKey, AccountTable};
use crate::instruction::{
    payload_args, payload_kind, resolve_accounts, spec_decode_for, spec_resolve_accounts,
    AccountMeta, DecodedModel,
    InstructionKind, Program, RawInstruction,
};

verus! {

/// The identity of the stake-pool program.
pub open spec fn spl_stake_pool_id() -> Seq<u8> {
    seq![
        6u8, 129, 78, 212, 202, 246, 138, 23, 70, 114, 253, 172, 134, 3, 26, 99, 232, 78, 161,
        94, 250, 29, 68, 183, 34, 147, 246, 219, 219, 0, 22, 80,
    ]
}

/// A stake-pool payload as the program's own decoder reads it, reduced to
/// the kinds this library follows.
pub enum StakePoolCall {
    DepositStakeWithSlippage { minimum_pool_tokens_out: u64 },
    WithdrawStakeWithSlippage { pool_tokens_in: u64, minimum_lamports_out: u64 },
    DepositSol { amount: u64 },
    WithdrawSol { amount: u64 },
    /// Any other instruction of the program.
    Other,
}

impl StakePoolCall {
    pub open spec fn kind(self) -> Option<InstructionKind> {
        match self {
            StakePoolCall::DepositStakeWithSlippage { .. } => Some(
                InstructionKind::DepositStakeWithSlippage,
            ),
            StakePoolCall::WithdrawStakeWithSlippage { .. } => Some(
                InstructionKind::WithdrawStakeWithSlippage,
            ),
            StakePoolCall::DepositSol { .. } => Some(InstructionKind::DepositSol),
            StakePoolCall::WithdrawSol { .. } => Some(InstructionKind::WithdrawSol),
            StakePoolCall::Other => None,
        }
    }

    pub open spec fn args(self) -> Seq<u64> {
        match self {
            StakePoolCall::DepositStakeWithSlippage { minimum_pool_tokens_out } => seq![
                minimum_pool_tokens_out,
            ],
            StakePoolCall::WithdrawStakeWithSlippage { pool_tokens_in, minimum_lamports_out } =>
                seq![pool_tokens_in, minimum_lamports_out],
            StakePoolCall::DepositSol { amount } => seq![amount],
            StakePoolCall::WithdrawSol { amount } => seq![amount],
            StakePoolCall::Other => seq![],
        }
    }
}

/// What the program's own decoder may give for `data`: the exact call for a
/// payload of a followed kind, and otherwise an error or another call.
pub open spec fn stake_pool_payload_read(data: Seq<u8>, r: Option<StakePoolCall>) -> bool {
    match payload_kind(Program::SplStakePool, data) {
        Some(k) => r is Some && r->0.kind() == Some(k) && r->0.args() == payload_args(k, data),
        None => r is None || r == Some(StakePoolCall::Other),
    }
}

/// Relies on borsh's `BorshDeserialize::try_from_slice` for spl_stake_pool's
/// `StakePoolInstruction`: the first byte is the variant's position in the
/// enum, the fields follow in order as little-endian `u64`s, and every byte
/// must be consumed, else the result is an error.
#[verifier::external_body]
fn decode_stake_pool_payload(data: &Vec<u8>) -> (r: Option<StakePoolCall>)
    ensures
        stake_pool_payload_read(data@, r),
{
    match StakePoolInstruction::try_from_slice(data) {
        Ok(StakePoolInstruction::DepositStakeWithSlippage { minimum_pool_tokens_out }) => Some(
            StakePoolCall::DepositStakeWithSlippage { minimum_pool_tokens_out },
        ),
        Ok(StakePoolInstruction::WithdrawStakeWithSlippage { pool_tokens_in, minimum_lamports_out }) => Some(
            StakePoolCall::WithdrawStakeWithSlippage { pool_tokens_in, minimum_lamports_out },
        ),
        Ok(StakePoolInstruction::DepositSol(amount)) => Some(StakePoolCall::DepositSol { amount }),
        Ok(StakePoolInstruction::WithdrawSol(amount)) => Some(StakePoolCall::WithdrawSol { amount }),
        Ok(_) => Some(StakePoolCall::Other),
        Err(_) => None,
    }
}

/// A decoded instruction of the stake-pool program.
pub enum JitoStakePool {
    /// Deposits a stake account; `accounts[3]` is the pool's withdraw
    /// authority, `accounts[7]` receives the pool tokens and `accounts[10]`
    /// is the pool token mint.
    DepositStakeWithSlippage { accounts: Vec<AccountMeta>, minimum_pool_tokens_out: u64 },
    /// Withdraws stake for `pool_tokens_in` pool tokens.
    WithdrawStakeWithSlippage {
        accounts: Vec<AccountMeta>,
        pool_tokens_in: u64,
        minimum_lamports_out: u64,
    },
    /// Deposits `amount` lamports into the pool's reserve.
    DepositSol { accounts: Vec<AccountMeta>, amount: u64 },
    /// Withdraws lamports from the reserve for `amount` pool tokens.
    WithdrawSol { accounts: Vec<AccountMeta>, amount: u64 },
}

impl JitoStakePool {
    pub open spec fn model(&self) -> DecodedModel {
        match self {
            JitoStakePool::DepositStakeWithSlippage { accounts, minimum_pool_tokens_out } =>
                DecodedModel {
                kind: InstructionKind::DepositStakeWithSlippage,
                accounts: accounts@,
                args: seq![*minimum_pool_tokens_out],
            },
            JitoStakePool::WithdrawStakeWithSlippage {
                accounts,
                pool_tokens_in,
                minimum_lamports_out,
            } => DecodedModel {
                kind: InstructionKind::WithdrawStakeWithSlippage,
                accounts: accounts@,
                args: seq![*pool_tokens_in, *minimum_lamports_out],
            },
            JitoStakePool::DepositSol { accounts, amount } => DecodedModel {
                kind: InstructionKind::DepositSol,
                accounts: accounts@,
                args: seq![*amount],
            },
            JitoStakePool::WithdrawSol { accounts, amount } => DecodedModel {
                kind: InstructionKind::WithdrawSol,
                accounts: accounts@,
                args: seq![*amount],
            },
        }
    }

    /// Retrieves the identity of the stake-pool program.
    pub fn program_id() -> (r: AccountKey)
        ensures
            r@ == spl_stake_pool_id(),
    {
        let r: AccountKey = [
            6u8, 129, 78, 212, 202, 246, 138, 23, 70, 114, 253, 172, 134, 3, 26, 99, 232, 78, 161,
            94, 250, 29, 68, 183, 34, 147, 246, 219, 219, 0, 22, 80,
        ];
        assert(r@ =~= spl_stake_pool_id());
        r
    }

    /// Decodes an instruction addressed to the stake-pool program: one of
    /// the four followed kinds with an exact payload and enough resolvable
    /// accounts.
    pub fn parse_jito_stake_pool_ix(instruction: &RawInstruction, account_keys: &AccountTable) -> (r:
        Option<JitoStakePool>)
        ensures
            match r {
                Some(d) => spec_decode_for(Program::SplStakePool, *instruction, account_keys@)
                    == Some(d.model()),
                None => spec_decode_for(Program::SplStakePool, *instruction, account_keys@) is None,
            },
    {
        let call = match decode_stake_pool_payload(&instruction.data) {
            Some(c) => c,
            None => return None,
        };
        let ghost data = instruction.data@;
        let r = match call {
            StakePoolCall::DepositStakeWithSlippage { minimum_pool_tokens_out } => {
                Self::parse_deposit_stake_with_slippage_ix(
                    instruction,
                    account_keys,
                    minimum_pool_tokens_out,
                )
            },
            StakePoolCall::WithdrawStakeWithSlippage { pool_tokens_in, minimum_lamports_out } => {
                Self::parse_withdraw_stake_with_slippage_ix(
                    instruction,
                    account_keys,
                    pool_tokens_in,
                    minimum_lamports_out,
                )
            },
            StakePoolCall::DepositSol { amount } => {
                Self::parse_deposit_sol_ix(instruction, account_keys, amount)
            },
            StakePoolCall::WithdrawSol { amount } => {
                Self::parse_withdraw_sol_ix(instruction, account_keys, amount)
            },
            StakePoolCall::Other => None,
        };
        assert(call.kind() matches Some(k) ==> payload_args(k, data) =~= call.args());
        r
    }

    /// Deposit stake with slippage. Account roles:
    ///   0. `[w]` Stake pool
    ///   1. `[w]` Validator stake list storage account
    ///   2. `[]` Stake pool deposit authority (a signer when it is not the
    ///      default one)
    ///   3. `[]` Stake pool withdraw authority
    ///   4. `[w]` Stake account to join the pool
    ///   5. `[w]` Validator stake account to merge with
    ///   6. `[w]` Reserve stake account
    ///   7. `[w]` User account to receive pool tokens
    ///   8. `[w]` Account to receive pool fee tokens
    ///   9. `[w]` Account to receive referral fees
    ///   10. `[w]` Pool token mint account
    ///   11. `[]` Sysvar clock account
    ///   12. `[]` Sysvar stake history account
    ///   13. `[]` Pool token program id
    ///   14. `[]` Stake program id
    fn parse_deposit_stake_with_slippage_ix(
        instruction: &RawInstruction,
        account_keys: &AccountTable,
        minimum_pool_tokens_out: u64,
    ) -> (r: Option<JitoStakePool>)
        ensures
            resolved_as(
                r,
                InstructionKind::DepositStakeWithSlippage,
                *instruction,
                account_keys@,
                seq![minimum_pool_tokens_out],
            ),
    {
        let kind = InstructionKind::DepositStakeWithSlippage;
        match resolve_accounts(kind, &instruction.accounts, account_keys) {
            Some(accounts) => Some(
                JitoStakePool::DepositStakeWithSlippage { accounts, minimum_pool_tokens_out },
            ),
            None => None,
        }
    }

    /// Withdraw stake with slippage. Account roles:
    ///   0. `[w]` Stake pool
    ///   1. `[w]` Validator stake list storage account
    ///   2. `[]` Stake pool withdraw authority
    ///   3. `[w]` Validator or reserve stake account to split
    ///   4. `[w]` Uninitialized stake account to receive the withdrawal
    ///   5. `[]` User account to set as the new withdraw authority
    ///   6. `[s]` User transfer authority, for the pool token account
    ///   7. `[w]` User account with pool tokens to burn from
    ///   8. `[w]` Account to receive pool fee tokens
    ///   9. `[w]` Pool token mint account
    ///   10. `[]` Sysvar clock account
    ///   11. `[]` Pool token program id
    ///   12. `[]` Stake program id
    fn parse_withdraw_stake_with_slippage_ix(
        instruction: &RawInstruction,
        account_keys: &AccountTable,
        pool_tokens_in: u64,
        minimum_lamports_out: u64,
    ) -> (r: Option<JitoStakePool>)
        ensures
            resolved_as(
                r,
                InstructionKind::WithdrawStakeWithSlippage,
                *instruction,
                account_keys@,
                seq![pool_tokens_in, minimum_lamports_out],
            ),
    {
        let kind = InstructionKind::WithdrawStakeWithSlippage;
        match resolve_accounts(kind, &instruction.accounts, account_keys) {
            Some(accounts) => Some(
                JitoStakePool::WithdrawStakeWithSlippage {
                    accounts,
                    pool_tokens_in,
                    minimum_lamports_out,
                },
            ),
            None => None,
        }
    }

    /// Deposit SOL. Account roles:
    ///   0. `[w]` Stake pool
    ///   1. `[]` Stake pool withdraw authority
    ///   2. `[w]` Reserve stake account
    ///   3. `[s]` Account providing the lamports
    ///   4. `[w]` User account to receive pool tokens
    ///   5. `[w]` Account to receive fee tokens
    ///   6. `[w]` Account to receive referral fees
    ///   7. `[w]` Pool token mint account
    ///   8. `[]` System program account
    ///   9. `[]` Token program id
    ///   10. `[s]` (Optional) Stake pool SOL deposit authority
    fn parse_deposit_sol_ix(instruction: &RawInstruction, account_keys: &AccountTable, amount: u64) -> (r:
        Option<JitoStakePool>)
        ensures
            resolved_as(r, InstructionKind::DepositSol, *instruction, account_keys@, seq![amount]),
    {
        match resolve_accounts(InstructionKind::DepositSol, &instruction.accounts, account_keys) {
            Some(accounts) => Some(JitoStakePool::DepositSol { accounts, amount }),
            None => None,
        }
    }

    /// Withdraw SOL. Account roles:
    ///   0. `[w]` Stake pool
    ///   1. `[]` Stake pool withdraw authority
    ///   2. `[s]` User transfer authority, for the pool token account
    ///   3. `[w]` User account to burn pool tokens from
    ///   4. `[w]` Reserve stake account
    ///   5. `[w]` Account receiving the lamports
    ///   6. `[w]` Account to receive pool fee tokens
    ///   7. `[w]` Pool token mint account
    ///   8. `[]` Clock sysvar
    ///   9. `[]` Stake history sysvar
    ///   10. `[]` Stake program account
    ///   11. `[]` Token program id
    ///   12. `[s]` (Optional) Stake pool SOL withdraw authority
    fn parse_withdraw_sol_ix(instruction: &RawInstruction, account_keys: &AccountTable, amount: u64) -> (r:
        Option<JitoStakePool>)
        ensures
            resolved_as(r, InstructionKind::WithdrawSol, *instruction, account_keys@, seq![amount]),
    {
        match resolve_accounts(InstructionKind::WithdrawSol, &instruction.accounts, account_keys) {
            Some(accounts) => Some(JitoStakePool::WithdrawSol { accounts, amount }),
            None => None,
        }
    }
}

/// Whether `r` is the instruction of kind `kind` with arguments `args` and
/// the accounts of `ix` resolved for that kind, or nothing when they do not
/// resolve.
pub open spec fn resolved_as(
    r: Option<JitoStakePool>,
    kind: InstructionKind,
    ix: RawInstruction,
    keys: Seq<Option<AccountKey>>,
    args: Seq<u64>,
) -> bool {
    match spec_resolve_accounts(kind, ix.accounts@, keys) {
        Some(accounts) => r matches Some(d) && d.model() == DecodedModel { kind, accounts, args },
        None => r is None,
    }
}

} // verus!
