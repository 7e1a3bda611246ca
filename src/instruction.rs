use vstd::prelude::*;

use crate::account::{AccountKey, AccountTable};

verus! {

/// The programs whose instructions are understood.
#[derive(Clone, Copy, Debug, PartialEq, Eq, Structural)]
pub enum Program {
    SplToken2022,
    SplStakePool,
    JitoVault,
}

/// The instruction kinds that are decoded, each of one program.
#[derive(Clone, Copy, Debug, PartialEq, Eq, Structural)]
pub enum InstructionKind {
    TokenMintTo,
    DepositStakeWithSlippage,
    WithdrawStakeWithSlippage,
    DepositSol,
    WithdrawSol,
    VaultMintTo,
    VaultEnqueueWithdrawal,
}

/// One instruction as a transaction carries it: the table position of its
/// program, the table positions of its accounts and its payload.
pub struct RawInstruction {
    pub program_id_index: u32,
    pub accounts: Vec<u8>,
    pub data: Vec<u8>,
}

/// An account of a decoded instruction: its identity and the role that its
/// position gives it.
#[derive(Clone, Copy, Debug)]
pub struct AccountMeta {
    pub pubkey: AccountKey,
    pub is_signer: bool,
    pub is_writable: bool,
}

/// What a decoded instruction holds, as plain values: its kind, its resolved
/// accounts in order and its numeric arguments in payload order.
pub struct DecodedModel {
    pub kind: InstructionKind,
    pub accounts: Seq<AccountMeta>,
    pub args: Seq<u64>,
}

impl InstructionKind {
    pub open spec fn program(self) -> Program {
        match self {
            InstructionKind::TokenMintTo => Program::SplToken2022,
            InstructionKind::VaultMintTo | InstructionKind::VaultEnqueueWithdrawal => Program::JitoVault,
            _ => Program::SplStakePool,
        }
    }

    /// The payload's leading tag byte.
    pub open spec fn tag(self) -> u8 {
        match self {
            InstructionKind::TokenMintTo => 7,
            InstructionKind::DepositStakeWithSlippage => 23,
            InstructionKind::WithdrawStakeWithSlippage => 24,
            InstructionKind::DepositSol => 14,
            InstructionKind::WithdrawSol => 16,
            InstructionKind::VaultMintTo => 11,
            InstructionKind::VaultEnqueueWithdrawal => 12,
        }
    }

    /// How many `u64` arguments follow the tag.
    pub open spec fn arg_count(self) -> nat {
        match self {
            InstructionKind::WithdrawStakeWithSlippage | InstructionKind::VaultMintTo => 2,
            _ => 1,
        }
    }

    /// How many accounts the instruction needs at least.
    pub open spec fn spec_required_accounts(self) -> nat {
        match self {
            InstructionKind::TokenMintTo => 3,
            InstructionKind::DepositStakeWithSlippage => 15,
            InstructionKind::WithdrawStakeWithSlippage => 13,
            InstructionKind::DepositSol => 10,
            InstructionKind::WithdrawSol => 12,
            InstructionKind::VaultMintTo => 9,
            InstructionKind::VaultEnqueueWithdrawal => 9,
        }
    }

    /// How many account positions carry a role, optional ones included.
    pub open spec fn spec_role_count(self) -> nat {
        match self {
            InstructionKind::TokenMintTo => 3,
            InstructionKind::DepositStakeWithSlippage => 15,
            InstructionKind::WithdrawStakeWithSlippage => 13,
            InstructionKind::DepositSol => 11,
            InstructionKind::WithdrawSol => 13,
            InstructionKind::VaultMintTo => 10,
            InstructionKind::VaultEnqueueWithdrawal => 10,
        }
    }

    /// Whether the account at position `pos` is written by the instruction.
    pub open spec fn spec_writable(self, pos: int) -> bool {
        match self {
            InstructionKind::TokenMintTo => pos == 0 || pos == 1,
            InstructionKind::DepositStakeWithSlippage => pos == 0 || pos == 1 || (4 <= pos <= 10),
            InstructionKind::WithdrawStakeWithSlippage => pos == 0 || pos == 1 || pos == 3 || pos
                == 4 || (7 <= pos <= 9),
            InstructionKind::DepositSol => pos == 0 || pos == 2 || (4 <= pos <= 7),
            InstructionKind::WithdrawSol => pos == 0 || (3 <= pos <= 7),
            InstructionKind::VaultMintTo => 1 <= pos <= 7,
            InstructionKind::VaultEnqueueWithdrawal => 1 <= pos <= 5,
        }
    }

    /// Whether the account at position `pos` signs the instruction.
    pub open spec fn spec_signer(self, pos: int) -> bool {
        match self {
            InstructionKind::TokenMintTo => pos == 2,
            InstructionKind::DepositStakeWithSlippage => false,
            InstructionKind::WithdrawStakeWithSlippage => pos == 6,
            InstructionKind::DepositSol => pos == 3 || pos == 10,
            InstructionKind::WithdrawSol => pos == 2 || pos == 12,
            InstructionKind::VaultMintTo => pos == 3 || pos == 9,
            InstructionKind::VaultEnqueueWithdrawal => pos == 4 || pos == 6 || pos == 9,
        }
    }

    pub fn required_accounts(&self) -> (r: usize)
        ensures
            r == self.spec_required_accounts(),
    {
        match self {
            InstructionKind::TokenMintTo => 3,
            InstructionKind::DepositStakeWithSlippage => 15,
            InstructionKind::WithdrawStakeWithSlippage => 13,
            InstructionKind::DepositSol => 10,
            InstructionKind::WithdrawSol => 12,
            InstructionKind::VaultMintTo => 9,
            InstructionKind::VaultEnqueueWithdrawal => 9,
        }
    }

    pub fn role_count(&self) -> (r: usize)
        ensures
            r == self.spec_role_count(),
    {
        match self {
            InstructionKind::TokenMintTo => 3,
            InstructionKind::DepositStakeWithSlippage => 15,
            InstructionKind::WithdrawStakeWithSlippage => 13,
            InstructionKind::DepositSol => 11,
            InstructionKind::WithdrawSol => 13,
            InstructionKind::VaultMintTo => 10,
            InstructionKind::VaultEnqueueWithdrawal => 10,
        }
    }

    pub fn is_writable(&self, pos: usize) -> (r: bool)
        ensures
            r == self.spec_writable(pos as int),
    {
        match self {
            InstructionKind::TokenMintTo => pos == 0 || pos == 1,
            InstructionKind::DepositStakeWithSlippage => pos == 0 || pos == 1 || (4 <= pos
                && pos <= 10),
            InstructionKind::WithdrawStakeWithSlippage => pos == 0 || pos == 1 || pos == 3 || pos
                == 4 || (7 <= pos && pos <= 9),
            InstructionKind::DepositSol => pos == 0 || pos == 2 || (4 <= pos && pos <= 7),
            InstructionKind::WithdrawSol => pos == 0 || (3 <= pos && pos <= 7),
            InstructionKind::VaultMintTo => 1 <= pos && pos <= 7,
            InstructionKind::VaultEnqueueWithdrawal => 1 <= pos && pos <= 5,
        }
    }

    pub fn is_signer(&self, pos: usize) -> (r: bool)
        ensures
            r == self.spec_signer(pos as int),
    {
        match self {
            InstructionKind::TokenMintTo => pos == 2,
            InstructionKind::DepositStakeWithSlippage => false,
            InstructionKind::WithdrawStakeWithSlippage => pos == 6,
            InstructionKind::DepositSol => pos == 3 || pos == 10,
            InstructionKind::WithdrawSol => pos == 2 || pos == 12,
            InstructionKind::VaultMintTo => pos == 3 || pos == 9,
            InstructionKind::VaultEnqueueWithdrawal => pos == 4 || pos == 6 || pos == 9,
        }
    }
}

/// Whether `data` is the exact payload of an instruction of kind `kind`: its
/// tag byte followed by the kind's `u64` arguments and nothing more.
pub open spec fn payload_is(kind: InstructionKind, data: Seq<u8>) -> bool {
    data.len() == 1 + 8 * kind.arg_count() && data[0] == kind.tag()
}

/// The arguments of a payload of kind `kind`, in order.
pub open spec fn payload_args(kind: InstructionKind, data: Seq<u8>) -> Seq<u64> {
    Seq::new(kind.arg_count(), |i: int| crate::wire::le_u64(data, 1 + 8 * i))
}

/// The kind of program `program` that `data` encodes, if any.
pub open spec fn payload_kind(program: Program, data: Seq<u8>) -> Option<InstructionKind> {
    match program {
        Program::SplToken2022 => if payload_is(InstructionKind::TokenMintTo, data) {
            Some(InstructionKind::TokenMintTo)
        } else {
            None
        },
        Program::SplStakePool => if payload_is(InstructionKind::DepositStakeWithSlippage, data) {
            Some(InstructionKind::DepositStakeWithSlippage)
        } else if payload_is(InstructionKind::WithdrawStakeWithSlippage, data) {
            Some(InstructionKind::WithdrawStakeWithSlippage)
        } else if payload_is(InstructionKind::DepositSol, data) {
            Some(InstructionKind::DepositSol)
        } else if payload_is(InstructionKind::WithdrawSol, data) {
            Some(InstructionKind::WithdrawSol)
        } else {
            None
        },
        Program::JitoVault => if payload_is(InstructionKind::VaultMintTo, data) {
            Some(InstructionKind::VaultMintTo)
        } else if payload_is(InstructionKind::VaultEnqueueWithdrawal, data) {
            Some(InstructionKind::VaultEnqueueWithdrawal)
        } else {
            None
        },
    }
}

/// How many leading account positions of an instruction get resolved.
pub open spec fn resolved_count(kind: InstructionKind, indices: Seq<u8>) -> nat {
    if indices.len() < kind.spec_role_count() {
        indices.len()
    } else {
        kind.spec_role_count()
    }
}

/// Whether account position `i` names a valid identity of the table: it is
/// inside the table and its blob was well formed.
pub open spec fn index_valid(keys: Seq<Option<AccountKey>>, i: u8) -> bool {
    (i as int) < keys.len() && keys[i as int] is Some
}

/// The accounts of an instruction of kind `kind`: for each position that
/// has a role, the identity its index names and the role's flags. Nothing
/// when the instruction lists fewer accounts than required, or when any of
/// its indices, with or without a role, names no valid identity.
pub open spec fn spec_resolve_accounts(
    kind: InstructionKind,
    indices: Seq<u8>,
    keys: Seq<Option<AccountKey>>,
) -> Option<Seq<AccountMeta>> {
    let n = resolved_count(kind, indices);
    if indices.len() < kind.spec_required_accounts() || exists|k: int|
        0 <= k < indices.len() && !index_valid(keys, #[trigger] indices[k]) {
        None
    } else {
        Some(
            Seq::new(
                n,
                |k: int|
                    AccountMeta {
                        pubkey: keys[indices[k] as int]->0,
                        is_signer: kind.spec_signer(k),
                        is_writable: kind.spec_writable(k),
                    },
            ),
        )
    }
}

/// What decoding an instruction of `program` gives.
pub open spec fn spec_decode_for(
    program: Program,
    ix: RawInstruction,
    keys: Seq<Option<AccountKey>>,
) -> Option<DecodedModel> {
    match payload_kind(program, ix.data@) {
        Some(kind) => match spec_resolve_accounts(kind, ix.accounts@, keys) {
            Some(accounts) => Some(
                DecodedModel { kind, accounts, args: payload_args(kind, ix.data@) },
            ),
            None => None,
        },
        None => None,
    }
}

pub open spec fn opt_seq<T>(v: Option<Vec<T>>) -> Option<Seq<T>> {
    match v {
        Some(v) => Some(v@),
        None => None,
    }
}

/// Resolves the accounts of an instruction of kind `kind` against the table.
pub fn resolve_accounts(kind: InstructionKind, indices: &Vec<u8>, table: &AccountTable) -> (r:
    Option<Vec<AccountMeta>>)
    ensures
        opt_seq(r) == spec_resolve_accounts(kind, indices@, table@),
{
    if indices.len() < kind.required_accounts() {
        return None;
    }
    let mut k: usize = 0;
    while k < indices.len()
        invariant
            0 <= k <= indices@.len(),
            forall|j: int| 0 <= j < k ==> index_valid(table@, #[trigger] indices@[j]),
        decreases indices@.len() - k,
    {
        if table.get(indices[k] as usize).is_none() {
            assert(!index_valid(table@, indices@[k as int]));
            return None;
        }
        k = k + 1;
    }
    let roles = kind.role_count();
    let n: usize = if indices.len() < roles {
        indices.len()
    } else {
        roles
    };
    assert(n == resolved_count(kind, indices@));
    let mut out: Vec<AccountMeta> = Vec::new();
    let mut k: usize = 0;
    while k < n
        invariant
            0 <= k <= n,
            n <= indices@.len(),
            forall|j: int| 0 <= j < indices@.len() ==> index_valid(table@, #[trigger] indices@[j]),
            out@.len() == k,
            forall|j: int|
                0 <= j < k ==> #[trigger] out@[j] == (AccountMeta {
                    pubkey: table@[indices@[j] as int]->0,
                    is_signer: kind.spec_signer(j),
                    is_writable: kind.spec_writable(j),
                }),
        decreases n - k,
    {
        let key = match table.get(indices[k] as usize) {
            Some(key) => key,
            None => {
                assert(index_valid(table@, indices@[k as int]));
                return None;
            },
        };
        out.push(
            AccountMeta { pubkey: key, is_signer: kind.is_signer(k), is_writable: kind.is_writable(k) },
        );
        k = k + 1;
    }
    let ghost expected = Seq::new(
        n as nat,
        |j: int|
            AccountMeta {
                pubkey: table@[indices@[j] as int]->0,
                is_signer: kind.spec_signer(j),
                is_writable: kind.spec_writable(j),
            },
    );
    assert(out@ =~= expected);
    Some(out)
}

} // verus!
