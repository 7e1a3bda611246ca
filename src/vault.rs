use vstd::prelude::*;

use crate::account::{AccountKey, AccountTable};
use crate::instruction::{
    payload_args, resolve_accounts, spec_decode_for, AccountMeta, DecodedModel, InstructionKind,
    Program, RawInstruction,
};
use crate::wire::read_le_u64;

verus! {

/// The identity of the vault program.
pub open spec fn jito_vault_id() -> Seq<u8> {
    seq![
        7u8, 82, 151, 3, 233, 209, 72, 36, 13, 237, 19, 215, 83, 88, 206, 101, 40, 120, 109, 65,
        221, 187, 195, 114, 118, 11, 178, 161, 116, 80, 255, 125,
    ]
}

/// A decoded instruction of the vault program.
pub enum JitoVaultProgram {
    /// Deposits `amount_in` supported tokens and mints at least
    /// `min_amount_out` vault receipt tokens.
    MintTo { accounts: Vec<AccountMeta>, amount_in: u64, min_amount_out: u64 },
    /// Queues a withdrawal of `amount` vault receipt tokens.
    EnqueueWithdrawal { accounts: Vec<AccountMeta>, amount: u64 },
}

impl JitoVaultProgram {
    pub open spec fn model(&self) -> DecodedModel {
        match self {
            JitoVaultProgram::MintTo { accounts, amount_in, min_amount_out } => DecodedModel {
                kind: InstructionKind::VaultMintTo,
                accounts: accounts@,
                args: seq![*amount_in, *min_amount_out],
            },
            JitoVaultProgram::EnqueueWithdrawal { accounts, amount } => DecodedModel {
                kind: InstructionKind::VaultEnqueueWithdrawal,
                accounts: accounts@,
                args: seq![*amount],
            },
        }
    }

    pub fn program_id() -> (r: AccountKey)
        ensures
            r@ == jito_vault_id(),
    {
        let r: AccountKey = [
            7u8, 82, 151, 3, 233, 209, 72, 36, 13, 237, 19, 215, 83, 88, 206, 101, 40, 120, 109,
            65, 221, 187, 195, 114, 118, 11, 178, 161, 116, 80, 255, 125,
        ];
        assert(r@ =~= jito_vault_id());
        r
    }

    /// Decodes an instruction addressed to the vault program: a mint or a
    /// queued withdrawal with an exact payload and enough resolvable
    /// accounts.
    pub fn parse_jito_vault_program(instruction: &RawInstruction, account_keys: &AccountTable) -> (r:
        Option<JitoVaultProgram>)
        ensures
            match r {
                Some(d) => spec_decode_for(Program::JitoVault, *instruction, account_keys@) == Some(
                    d.model(),
                ),
                None => spec_decode_for(Program::JitoVault, *instruction, account_keys@) is None,
            },
    {
        let data = &instruction.data;
        if data.len() == 17 && data[0] == 11 {
            let kind = InstructionKind::VaultMintTo;
            match resolve_accounts(kind, &instruction.accounts, account_keys) {
                Some(accounts) => {
                    let amount_in = read_le_u64(data, 1);
                    let min_amount_out = read_le_u64(data, 9);
                    let r = JitoVaultProgram::MintTo { accounts, amount_in, min_amount_out };
                    assert(r.model().args =~= payload_args(kind, data@));
                    Some(r)
                },
                None => None,
            }
        } else if data.len() == 9 && data[0] == 12 {
            let kind = InstructionKind::VaultEnqueueWithdrawal;
            match resolve_accounts(kind, &instruction.accounts, account_keys) {
                Some(accounts) => {
                    let amount = read_le_u64(data, 1);
                    let r = JitoVaultProgram::EnqueueWithdrawal { accounts, amount };
                    assert(r.model().args =~= payload_args(kind, data@));
                    Some(r)
                },
                None => None,
            }
        } else {
            None
        }
    }
}

} // verus!
