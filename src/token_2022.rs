use vstd::prelude::*;

use crate::account::{AccountKey, AccountTable};
use crate::instruction::{
    resolve_accounts, spec_decode_for, AccountMeta, DecodedModel, InstructionKind, Program,
    RawInstruction,
};
use crate::wire::read_le_u64;

verus! {

/// The identity of the token program with extensions.
pub open spec fn spl_token_2022_id() -> Seq<u8> {
    seq![
        6u8, 221, 246, 225, 238, 117, 143, 222, 24, 66, 93, 188, 228, 108, 205, 218, 182, 26,
        252, 77, 131, 185, 13, 39, 254, 189, 249, 40, 216, 161, 139, 252,
    ]
}

/// A decoded instruction of the token program.
pub enum SplToken2022Program {
    /// Mints `amount` tokens of `accounts[0]` (the mint) into `accounts[1]`
    /// (the destination), authorised by `accounts[2]`.
    MintTo { accounts: Vec<AccountMeta>, amount: u64 },
}

impl SplToken2022Program {
    pub open spec fn model(&self) -> DecodedModel {
        match self {
            SplToken2022Program::MintTo { accounts, amount } => DecodedModel {
                kind: InstructionKind::TokenMintTo,
                accounts: accounts@,
                args: seq![*amount],
            },
        }
    }

    pub fn program_id() -> (r: AccountKey)
        ensures
            r@ == spl_token_2022_id(),
    {
        let r: AccountKey = [
            6u8, 221, 246, 225, 238, 117, 143, 222, 24, 66, 93, 188, 228, 108, 205, 218, 182, 26,
            252, 77, 131, 185, 13, 39, 254, 189, 249, 40, 216, 161, 139, 252,
        ];
        assert(r@ =~= spl_token_2022_id());
        r
    }

    /// Decodes an instruction addressed to the token program. Only a mint-to
    /// with an exact payload and enough resolvable accounts decodes.
    pub fn parse_spl_token_2022_program(instruction: &RawInstruction, account_keys: &AccountTable)
        -> (r: Option<SplToken2022Program>)
        ensures
            match r {
                Some(d) => spec_decode_for(Program::SplToken2022, *instruction, account_keys@)
                    == Some(d.model()),
                None => spec_decode_for(Program::SplToken2022, *instruction, account_keys@) is None,
            },
    {
        let data = &instruction.data;
        if data.len() != 9 || data[0] != 7 {
            return None;
        }
        match resolve_accounts(InstructionKind::TokenMintTo, &instruction.accounts, account_keys) {
            Some(accounts) => {
                let amount = read_le_u64(data, 1);
                let r = SplToken2022Program::MintTo { accounts, amount };
                assert(r.model().args =~= crate::instruction::payload_args(
                    InstructionKind::TokenMintTo,
                    data@,
                ));
                Some(r)
            },
            None => None,
        }
    }
}

} // verus!
