use vstd::prelude::*;

use crate::account::{keys_equal, keys_of, AccountKey, AccountTable};
use crate::instruction::{spec_decode_for, DecodedModel, Program, RawInstruction};
use crate::stake_pool::{spl_stake_pool_id, JitoStakePool};
use crate::token_2022::{spl_token_2022_id, SplToken2022Program};
use crate::vault::{jito_vault_id, JitoVaultProgram};

verus! {

/// A decoded instruction of one of the understood programs.
pub enum JitoBellProgram {
    SplToken2022(SplToken2022Program),
    SplStakePool(JitoStakePool),
    JitoVault(JitoVaultProgram),
}

/// The name under which a program is configured.
pub open spec fn program_name(p: Program) -> Seq<char> {
    match p {
        Program::SplToken2022 => "spl-token-2022"@,
        Program::SplStakePool => "spl_stake_pool"@,
        Program::JitoVault => "jito_vault"@,
    }
}

impl JitoBellProgram {
    pub open spec fn model(&self) -> DecodedModel {
        match self {
            JitoBellProgram::SplToken2022(p) => p.model(),
            JitoBellProgram::SplStakePool(p) => p.model(),
            JitoBellProgram::JitoVault(p) => p.model(),
        }
    }

    pub open spec fn program(&self) -> Program {
        match self {
            JitoBellProgram::SplToken2022(_) => Program::SplToken2022,
            JitoBellProgram::SplStakePool(_) => Program::SplStakePool,
            JitoBellProgram::JitoVault(_) => Program::JitoVault,
        }
    }

    /// The name of the instruction's program.
    pub fn to_string(&self) -> (r: String)
        ensures
            r@ == program_name(self.program()),
    {
        let r = match self {
            JitoBellProgram::SplToken2022(_) => "spl-token-2022".to_owned(),
            JitoBellProgram::SplStakePool(_) => "spl_stake_pool".to_owned(),
            JitoBellProgram::JitoVault(_) => "jito_vault".to_owned(),
        };
        proof {
            reveal_strlit("spl-token-2022");
            reveal_strlit("spl_stake_pool");
            reveal_strlit("jito_vault");
        }
        r
    }
}

/// The understood program whose identity is `key`, if any.
pub open spec fn program_of(key: AccountKey) -> Option<Program> {
    if key@ == spl_token_2022_id() {
        Some(Program::SplToken2022)
    } else if key@ == spl_stake_pool_id() {
        Some(Program::SplStakePool)
    } else if key@ == jito_vault_id() {
        Some(Program::JitoVault)
    } else {
        None
    }
}

/// The understood program that table position `index` names, if any: none
/// when the position is past the table, holds a malformed blob, or holds
/// another identity.
pub open spec fn program_at(keys: Seq<Option<AccountKey>>, index: u32) -> Option<Program> {
    if (index as int) < keys.len() && keys[index as int] is Some {
        program_of(keys[index as int]->0)
    } else {
        None
    }
}

/// What an instruction decodes to: nothing when its program position names
/// no understood program, else what that program's decoder gives.
pub open spec fn spec_parse_instruction(ix: RawInstruction, keys: Seq<Option<AccountKey>>) -> Option<
    DecodedModel,
> {
    match program_at(keys, ix.program_id_index) {
        Some(p) => spec_decode_for(p, ix, keys),
        None => None,
    }
}

pub open spec fn opt_model(r: Option<JitoBellProgram>) -> Option<DecodedModel> {
    match r {
        Some(p) => Some(p.model()),
        None => None,
    }
}

pub open spec fn opt_to_seq<T>(o: Option<T>) -> Seq<T> {
    match o {
        Some(x) => seq![x],
        None => seq![],
    }
}

/// The decoded instructions of a list, in order, the undecodable ones left
/// out.
pub open spec fn decode_list(ixs: Seq<RawInstruction>, keys: Seq<Option<AccountKey>>) -> Seq<DecodedModel>
    decreases ixs.len(),
{
    if ixs.len() == 0 {
        seq![]
    } else {
        decode_list(ixs.drop_last(), keys) + opt_to_seq(
            spec_parse_instruction(ixs.last(), keys),
        )
    }
}

/// Inner instructions recorded for the top-level instruction at `index`.
pub struct InnerInstructions {
    pub index: u32,
    pub instructions: Vec<RawInstruction>,
}

/// The decoded instructions of every group, group after group.
pub open spec fn decode_groups(groups: Seq<InnerInstructions>, keys: Seq<Option<AccountKey>>) -> Seq<
    DecodedModel,
>
    decreases groups.len(),
{
    if groups.len() == 0 {
        seq![]
    } else {
        decode_groups(groups.drop_last(), keys) + decode_list(groups.last().instructions@, keys)
    }
}

pub open spec fn models(ps: Seq<JitoBellProgram>) -> Seq<DecodedModel> {
    ps.map_values(|p: JitoBellProgram| p.model())
}

/// Routes an instruction to the decoder of the program it names.
pub fn parse_instruction(instruction: &RawInstruction, account_keys: &AccountTable) -> (r: Option<
    JitoBellProgram,
>)
    ensures
        opt_model(r) == spec_parse_instruction(*instruction, account_keys@),
{
    let program_key = match account_keys.get(instruction.program_id_index as usize) {
        Some(k) => k,
        None => return None,
    };
    if keys_equal(&program_key, &SplToken2022Program::program_id()) {
        match SplToken2022Program::parse_spl_token_2022_program(instruction, account_keys) {
            Some(d) => Some(JitoBellProgram::SplToken2022(d)),
            None => None,
        }
    } else if keys_equal(&program_key, &JitoStakePool::program_id()) {
        match JitoStakePool::parse_jito_stake_pool_ix(instruction, account_keys) {
            Some(d) => Some(JitoBellProgram::SplStakePool(d)),
            None => None,
        }
    } else if keys_equal(&program_key, &JitoVaultProgram::program_id()) {
        match JitoVaultProgram::parse_jito_vault_program(instruction, account_keys) {
            Some(d) => Some(JitoBellProgram::JitoVault(d)),
            None => None,
        }
    } else {
        None
    }
}

/// Decodes a list of instructions in order and appends what decodes.
pub fn parse_instructions(
    instructions: &Vec<RawInstruction>,
    account_keys: &AccountTable,
    out: &mut Vec<JitoBellProgram>,
)
    ensures
        models(final(out)@) == models(old(out)@) + decode_list(instructions@, account_keys@),
{
    let ghost start = models(out@);
    let mut i: usize = 0;
    while i < instructions.len()
        invariant
            0 <= i <= instructions@.len(),
            models(out@) == start + decode_list(instructions@.take(i as int), account_keys@),
        decreases instructions@.len() - i,
    {
        let ghost before = out@;
        let r = parse_instruction(&instructions[i], account_keys);
        assert(instructions@.take(i + 1).drop_last() =~= instructions@.take(i as int));
        match r {
            Some(p) => {
                out.push(p);
                assert(models(out@) =~= models(before) + seq![p.model()]);
            },
            None => {},
        }
        assert(decode_list(instructions@.take(i + 1), account_keys@) =~= decode_list(
            instructions@.take(i as int),
            account_keys@,
        ) + opt_to_seq(spec_parse_instruction(instructions@[i as int], account_keys@)));
        assert(models(out@) =~= start + decode_list(instructions@.take(i + 1), account_keys@));
        i = i + 1;
    }
    assert(instructions@.take(instructions@.len() as int) =~= instructions@);
}

/// One transaction update: its signatures, whether it executed without
/// error, its account identity blobs, its top-level instructions and the
/// inner instructions recorded while it executed.
pub struct TransactionUpdate {
    pub signatures: Vec<Vec<u8>>,
    pub succeeded: bool,
    pub account_keys: Vec<Vec<u8>>,
    pub instructions: Vec<RawInstruction>,
    pub inner_instructions: Vec<InnerInstructions>,
}

/// Whether the envelope of a transaction can be read: it carries a first
/// signature of 64 bytes.
pub open spec fn envelope_ok(tx: TransactionUpdate) -> bool {
    tx.signatures@.len() > 0 && tx.signatures@[0]@.len() == 64
}

/// The decoded instructions of a readable transaction: its top-level ones
/// when it succeeded, then its inner ones in every case.
pub open spec fn spec_transaction_instructions(tx: TransactionUpdate) -> Seq<DecodedModel> {
    let keys = keys_of(tx.account_keys@);
    (if tx.succeeded {
        decode_list(tx.instructions@, keys)
    } else {
        seq![]
    }) + decode_groups(tx.inner_instructions@, keys)
}

/// The canonical text of a 64-byte signature.
pub uninterp spec fn signature_text(bytes: Seq<u8>) -> Seq<char>;

/// Relies on solana_signature's `Signature`: built from the 64 bytes, its
/// `Display` writes their canonical (base58) text.
#[verifier::external_body]
fn signature_string(bytes: &Vec<u8>) -> (r: String)
    requires
        bytes@.len() == 64,
    ensures
        r@ == signature_text(bytes@),
{
    let mut array = [0u8; 64];
    array.copy_from_slice(bytes);
    solana_signature::Signature::from(array).to_string()
}

/// One transaction, decoded.
pub struct JitoTransactionParser {
    /// Transaction signature
    pub transaction_signature: String,
    /// Whether the transaction executed without error
    pub succeeded: bool,
    /// The decoded instructions of the understood programs
    pub programs: Vec<JitoBellProgram>,
}

impl JitoTransactionParser {
    /// Decodes a transaction. One without a 64-byte first signature gives
    /// an empty signature and no instructions. A malformed identity blob
    /// only invalidates its own table position.
    pub fn new(transaction: TransactionUpdate) -> (r: Self)
        ensures
            r.succeeded == transaction.succeeded,
            envelope_ok(transaction) ==> r.transaction_signature@ == signature_text(
                transaction.signatures@[0]@,
            ) && models(r.programs@) == spec_transaction_instructions(transaction),
            !envelope_ok(transaction) ==> r.transaction_signature@ == Seq::<char>::empty()
                && r.programs@.len() == 0,
    {
        let mut programs: Vec<JitoBellProgram> = Vec::new();
        if transaction.signatures.len() == 0 || transaction.signatures[0].len() != 64 {
            return JitoTransactionParser {
                transaction_signature: String::new(),
                succeeded: transaction.succeeded,
                programs,
            };
        }
        let table = AccountTable::from_raw(&transaction.account_keys);
        let transaction_signature = signature_string(&transaction.signatures[0]);
        let ghost keys = table@;
        if transaction.succeeded {
            parse_instructions(&transaction.instructions, &table, &mut programs);
        }
        assert(models(programs@) =~= (if transaction.succeeded {
            decode_list(transaction.instructions@, keys)
        } else {
            seq![]
        }));
        let ghost top = models(programs@);
        let groups = &transaction.inner_instructions;
        let mut g: usize = 0;
        while g < groups.len()
            invariant
                0 <= g <= groups@.len(),
                table@ == keys,
                models(programs@) == top + decode_groups(groups@.take(g as int), keys),
            decreases groups@.len() - g,
        {
            parse_instructions(&groups[g].instructions, &table, &mut programs);
            assert(groups@.take(g + 1).drop_last() =~= groups@.take(g as int));
            assert(models(programs@) =~= top + decode_groups(groups@.take(g + 1), keys));
            g = g + 1;
        }
        assert(groups@.take(groups@.len() as int) =~= groups@);
        JitoTransactionParser { transaction_signature, succeeded: transaction.succeeded, programs }
    }
}

} // verus!
