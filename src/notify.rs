use vstd::prelude::*;

use crate::account::keys_equal;
use crate::instruction::{AccountMeta, DecodedModel, InstructionKind, Program};
use crate::parser::{models, program_name, JitoBellProgram, JitoTransactionParser};
use crate::stake_pool::JitoStakePool;
use crate::token_2022::SplToken2022Program;

verus! {

/// The amount reported for a SOL deposit or withdrawal that met its
/// threshold: it signals the crossing, not the transferred value.
pub const THRESHOLD_MET_AMOUNT: u64 = 100;

/// The alert configured for one instruction kind of one program.
pub struct NotificationRule {
    /// Name of the program
    pub program: String,
    /// Name of the instruction kind
    pub instruction: String,
    /// Amount that a SOL deposit or withdrawal must reach
    pub threshold: u64,
    /// Where the alert goes
    pub destinations: Vec<String>,
    /// What the alert says
    pub description: String,
}

/// A recognised operation that an alert is due for.
pub struct NotableEvent {
    pub description: String,
    pub amount: u64,
    pub transaction_signature: String,
    pub destinations: Vec<String>,
}

/// The name under which an instruction kind is configured.
pub open spec fn instruction_name(k: InstructionKind) -> Seq<char> {
    match k {
        InstructionKind::TokenMintTo => "mint_to"@,
        InstructionKind::DepositStakeWithSlippage => "deposit_stake_with_slippage"@,
        InstructionKind::WithdrawStakeWithSlippage => "withdraw_stake_with_slippage"@,
        InstructionKind::DepositSol => "deposit_sol"@,
        InstructionKind::WithdrawSol => "withdraw_sol"@,
        InstructionKind::VaultMintTo => "mint_to"@,
        InstructionKind::VaultEnqueueWithdrawal => "enqueue_withdrawal"@,
    }
}

impl JitoStakePool {
    /// The name of the instruction's kind.
    pub fn to_string(&self) -> (r: String)
        ensures
            r@ == instruction_name(self.model().kind),
    {
        proof {
            reveal_strlit("deposit_stake_with_slippage");
            reveal_strlit("withdraw_stake_with_slippage");
            reveal_strlit("deposit_sol");
            reveal_strlit("withdraw_sol");
        }
        match self {
            JitoStakePool::DepositStakeWithSlippage { .. } => "deposit_stake_with_slippage".to_owned(),
            JitoStakePool::WithdrawStakeWithSlippage { .. } => "withdraw_stake_with_slippage".to_owned(),
            JitoStakePool::DepositSol { .. } => "deposit_sol".to_owned(),
            JitoStakePool::WithdrawSol { .. } => "withdraw_sol".to_owned(),
        }
    }
}

pub open spec fn rule_matches(rule: NotificationRule, program: Seq<char>, instruction: Seq<
    char,
>) -> bool {
    rule.program@ == program && rule.instruction@ == instruction
}

/// Whether `j` is the first rule for the program and instruction names.
pub open spec fn is_first_rule(
    rules: Seq<NotificationRule>,
    program: Seq<char>,
    instruction: Seq<char>,
    j: int,
) -> bool {
    &&& 0 <= j < rules.len()
    &&& rule_matches(rules[j], program, instruction)
    &&& forall|i: int| 0 <= i < j ==> !rule_matches(#[trigger] rules[i], program, instruction)
}

/// The position of the first rule for the program and instruction names.
pub open spec fn find_rule(rules: Seq<NotificationRule>, program: Seq<char>, instruction: Seq<
    char,
>) -> Option<int> {
    if exists|j: int| is_first_rule(rules, program, instruction, j) {
        Some(choose|j: int| is_first_rule(rules, program, instruction, j))
    } else {
        None
    }
}

/// Whether `m` mints pool tokens as the stake deposit with accounts
/// `deposit` does: the same mint, destination and minting authority.
pub open spec fn mint_correlates(m: DecodedModel, deposit: Seq<AccountMeta>) -> bool {
    &&& m.kind == InstructionKind::TokenMintTo
    &&& m.accounts.len() >= 3
    &&& deposit.len() >= 11
    &&& m.accounts[0].pubkey@ == deposit[10].pubkey@
    &&& m.accounts[1].pubkey@ == deposit[7].pubkey@
    &&& m.accounts[2].pubkey@ == deposit[3].pubkey@
}

pub open spec fn is_first_correlated(ms: Seq<DecodedModel>, deposit: Seq<AccountMeta>, k: int) -> bool {
    &&& 0 <= k < ms.len()
    &&& mint_correlates(ms[k], deposit)
    &&& forall|i: int| 0 <= i < k ==> !mint_correlates(#[trigger] ms[i], deposit)
}

/// The amount of the first mint-to among `ms` that correlates with the
/// deposit, if any.
pub open spec fn correlated_mint_amount(ms: Seq<DecodedModel>, deposit: Seq<AccountMeta>) -> Option<
    u64,
> {
    if exists|k: int| is_first_correlated(ms, deposit, k) {
        Some(ms[choose|k: int| is_first_correlated(ms, deposit, k)].args[0])
    } else {
        None
    }
}

/// The amount of the event that stake-pool instruction `d` gives among the
/// transaction's instructions `ms`, if it gives one.
pub open spec fn stake_pool_event_amount(ms: Seq<DecodedModel>, d: DecodedModel, threshold: u64) -> Option<
    u64,
> {
    match d.kind {
        InstructionKind::DepositStakeWithSlippage => correlated_mint_amount(ms, d.accounts),
        InstructionKind::WithdrawStakeWithSlippage => Some(d.args[1]),
        InstructionKind::DepositSol | InstructionKind::WithdrawSol => if d.args[0] >= threshold {
            Some(THRESHOLD_MET_AMOUNT)
        } else {
            None
        },
        _ => None,
    }
}

/// The event of the instruction at `i`: the position of its rule and its
/// amount. Only stake-pool instructions with a rule give one.
pub open spec fn event_for(ms: Seq<DecodedModel>, i: int, rules: Seq<NotificationRule>) -> Option<
    (int, u64),
> {
    let d = ms[i];
    if d.kind.program() == Program::SplStakePool {
        match find_rule(rules, program_name(Program::SplStakePool), instruction_name(d.kind)) {
            Some(j) => match stake_pool_event_amount(ms, d, rules[j].threshold) {
                Some(a) => Some((j, a)),
                None => None,
            },
            None => None,
        }
    } else {
        None
    }
}

/// The events of the first `n` instructions, in order.
pub open spec fn events_upto(ms: Seq<DecodedModel>, rules: Seq<NotificationRule>, n: int) -> Seq<
    (int, u64),
>
    decreases n,
{
    if n <= 0 {
        seq![]
    } else {
        events_upto(ms, rules, n - 1) + match event_for(ms, n - 1, rules) {
            Some(e) => seq![e],
            None => seq![],
        }
    }
}

/// The events of a transaction's decoded instructions, in order.
pub open spec fn spec_events(ms: Seq<DecodedModel>, rules: Seq<NotificationRule>) -> Seq<(int, u64)> {
    events_upto(ms, rules, ms.len() as int)
}

/// Whether `e` is the event of rule `ev.0` with amount `ev.1` for the
/// transaction with signature text `sig`.
pub open spec fn event_agrees(
    e: NotableEvent,
    ev: (int, u64),
    rules: Seq<NotificationRule>,
    sig: Seq<char>,
) -> bool {
    &&& 0 <= ev.0 < rules.len()
    &&& e.amount == ev.1
    &&& e.description@ == rules[ev.0].description@
    &&& e.destinations@ == rules[ev.0].destinations@
    &&& e.transaction_signature@ == sig
}

fn clone_strings(v: &Vec<String>) -> (r: Vec<String>)
    ensures
        r@ == v@,
{
    let mut r: Vec<String> = Vec::new();
    let mut i: usize = 0;
    while i < v.len()
        invariant
            0 <= i <= v@.len(),
            r@ == v@.take(i as int),
        decreases v@.len() - i,
    {
        r.push(v[i].clone());
        assert(v@.take(i + 1) =~= v@.take(i as int).push(v@[i as int]));
        i = i + 1;
    }
    assert(v@.take(v@.len() as int) =~= v@);
    r
}

/// Finds the first rule for the program and instruction names.
pub fn find_rule_index(rules: &Vec<NotificationRule>, program: &String, instruction: &String) -> (r:
    Option<usize>)
    ensures
        match r {
            Some(j) => find_rule(rules@, program@, instruction@) == Some(j as int),
            None => find_rule(rules@, program@, instruction@) is None,
        },
{
    let mut j: usize = 0;
    while j < rules.len()
        invariant
            0 <= j <= rules@.len(),
            forall|i: int| 0 <= i < j ==> !rule_matches(#[trigger] rules@[i], program@, instruction@),
        decreases rules@.len() - j,
    {
        if rules[j].program == *program && rules[j].instruction == *instruction {
            proof {
                assert(is_first_rule(rules@, program@, instruction@, j as int));
                let c = choose|c: int| is_first_rule(rules@, program@, instruction@, c);
                assert(c == j) by {
                    if c < j {
                        assert(!rule_matches(rules@[c], program@, instruction@));
                    } else if c > j {
                        assert(!rule_matches(rules@[j as int], program@, instruction@));
                    }
                }
            }
            return Some(j);
        }
        j = j + 1;
    }
    None
}

/// Whether decoded instruction `p` mints the pool tokens of the deposit
/// with accounts `deposit`, and how many.
fn correlated_amount_of(p: &JitoBellProgram, deposit: &Vec<AccountMeta>) -> (r: Option<u64>)
    ensures
        r is Some <==> mint_correlates(p.model(), deposit@),
        r matches Some(a) ==> a == p.model().args[0],
{
    match p {
        JitoBellProgram::SplToken2022(SplToken2022Program::MintTo { accounts, amount }) => {
            if accounts.len() >= 3 && deposit.len() >= 11 && keys_equal(
                &accounts[0].pubkey,
                &deposit[10].pubkey,
            ) && keys_equal(&accounts[1].pubkey, &deposit[7].pubkey) && keys_equal(
                &accounts[2].pubkey,
                &deposit[3].pubkey,
            ) {
                Some(*amount)
            } else {
                None
            }
        },
        _ => None,
    }
}

/// Scans the transaction's instructions, in order, for the first mint-to
/// that correlates with the deposit.
pub fn correlated_mint(programs: &Vec<JitoBellProgram>, deposit: &Vec<AccountMeta>) -> (r: Option<
    u64,
>)
    ensures
        r == correlated_mint_amount(models(programs@), deposit@),
{
    let ghost ms = models(programs@);
    let mut k: usize = 0;
    while k < programs.len()
        invariant
            0 <= k <= programs@.len(),
            ms == models(programs@),
            forall|i: int| 0 <= i < k ==> !mint_correlates(#[trigger] ms[i], deposit@),
        decreases programs@.len() - k,
    {
        match correlated_amount_of(&programs[k], deposit) {
            Some(a) => {
                proof {
                    assert(is_first_correlated(ms, deposit@, k as int));
                    let c = choose|c: int| is_first_correlated(ms, deposit@, c);
                    assert(c == k) by {
                        if c < k {
                            assert(!mint_correlates(ms[c], deposit@));
                        } else if c > k {
                            assert(!mint_correlates(ms[k as int], deposit@));
                        }
                    }
                }
                return Some(a);
            },
            None => {},
        }
        k = k + 1;
    }
    None
}

/// The amount of the event that a stake-pool instruction gives within its
/// transaction, if it gives one.
pub fn stake_pool_event(programs: &Vec<JitoBellProgram>, instruction: &JitoStakePool, threshold: u64)
    -> (r: Option<u64>)
    ensures
        r == stake_pool_event_amount(models(programs@), instruction.model(), threshold),
{
    match instruction {
        JitoStakePool::DepositStakeWithSlippage { accounts, .. } => correlated_mint(programs, accounts),
        JitoStakePool::WithdrawStakeWithSlippage { minimum_lamports_out, .. } => Some(
            *minimum_lamports_out,
        ),
        JitoStakePool::DepositSol { amount, .. } | JitoStakePool::WithdrawSol { amount, .. } => {
            if *amount >= threshold {
                Some(THRESHOLD_MET_AMOUNT)
            } else {
                None
            }
        },
    }
}

/// The events that a decoded transaction gives under the rules, in the
/// order of its instructions.
pub fn notable_events(parser: &JitoTransactionParser, rules: &Vec<NotificationRule>) -> (r: Vec<
    NotableEvent,
>)
    ensures
        r@.len() == spec_events(models(parser.programs@), rules@).len(),
        forall|j: int|
            0 <= j < r@.len() ==> event_agrees(
                #[trigger] r@[j],
                spec_events(models(parser.programs@), rules@)[j],
                rules@,
                parser.transaction_signature@,
            ),
{
    let programs = &parser.programs;
    let ghost ms = models(programs@);
    let mut events: Vec<NotableEvent> = Vec::new();
    let mut i: usize = 0;
    while i < programs.len()
        invariant
            0 <= i <= programs@.len(),
            ms == models(programs@),
            events@.len() == events_upto(ms, rules@, i as int).len(),
            forall|j: int|
                0 <= j < events@.len() ==> event_agrees(
                    #[trigger] events@[j],
                    events_upto(ms, rules@, i as int)[j],
                    rules@,
                    parser.transaction_signature@,
                ),
        decreases programs@.len() - i,
    {
        let ghost before = events@;
        let ghost prefix = events_upto(ms, rules@, i as int);
        if let JitoBellProgram::SplStakePool(sp) = &programs[i] {
            let program_key = programs[i].to_string();
            let instruction_key = sp.to_string();
            match find_rule_index(rules, &program_key, &instruction_key) {
                Some(j) => {
                    let rule = &rules[j];
                    match stake_pool_event(programs, sp, rule.threshold) {
                        Some(amount) => {
                            events.push(
                                NotableEvent {
                                    description: rule.description.clone(),
                                    amount,
                                    transaction_signature: parser.transaction_signature.clone(),
                                    destinations: clone_strings(&rule.destinations),
                                },
                            );
                            assert(events_upto(ms, rules@, i + 1) =~= prefix + seq![
                                (j as int, amount),
                            ]);
                        },
                        None => {
                            assert(events_upto(ms, rules@, i + 1) =~= prefix);
                        },
                    }
                },
                None => {
                    assert(events_upto(ms, rules@, i + 1) =~= prefix);
                },
            }
        } else {
            assert(events_upto(ms, rules@, i + 1) =~= prefix);
        }
        assert forall|j: int| 0 <= j < events@.len() implies event_agrees(
            #[trigger] events@[j],
            events_upto(ms, rules@, i + 1)[j],
            rules@,
            parser.transaction_signature@,
        ) by {
            if j < before.len() {
                assert(events@[j] == before[j]);
            }
        }
        i = i + 1;
    }
    events
}

} // verus!
