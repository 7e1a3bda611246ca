use vstd::prelude::*;

use crate::account::{keys_of, AccountKey};
use crate::instruction::{
    index_valid, payload_args, payload_kind, resolved_count, spec_decode_for,
    spec_resolve_accounts, DecodedModel, InstructionKind, Program, RawInstruction,
};
use crate::notify::{
    correlated_mint_amount, event_for, events_upto, find_rule, instruction_name, is_first_correlated,
    mint_correlates, spec_events, NotificationRule, THRESHOLD_MET_AMOUNT,
};
use crate::parser::{
    decode_groups, decode_list, envelope_ok, program_name, spec_parse_instruction,
    spec_transaction_instructions, InnerInstructions, TransactionUpdate,
};
use crate::wire::le_u64;

verus! {

/// The eight little-endian bytes of `x`.
pub open spec fn le_bytes(x: u64) -> Seq<u8> {
    seq![
        (x & 0xff) as u8,
        ((x >> 8u64) & 0xff) as u8,
        ((x >> 16u64) & 0xff) as u8,
        ((x >> 24u64) & 0xff) as u8,
        ((x >> 32u64) & 0xff) as u8,
        ((x >> 40u64) & 0xff) as u8,
        ((x >> 48u64) & 0xff) as u8,
        ((x >> 56u64) & 0xff) as u8,
    ]
}

/// The payload of an instruction of kind `kind` with arguments `args`: the
/// tag byte, then each argument's little-endian bytes.
pub open spec fn encode_payload(kind: InstructionKind, args: Seq<u64>) -> Seq<u8> {
    if kind.arg_count() == 2 {
        seq![kind.tag()] + le_bytes(args[0]) + le_bytes(args[1])
    } else {
        seq![kind.tag()] + le_bytes(args[0])
    }
}

proof fn lemma_le_bytes_read(x: u64, data: Seq<u8>, off: int)
    requires
        0 <= off,
        off + 8 <= data.len(),
        forall|k: int| 0 <= k < 8 ==> data[off + k] == #[trigger] le_bytes(x)[k],
    ensures
        le_u64(data, off) == x,
{
    let b = le_bytes(x);
    assert(data[off] == b[0] && data[off + 1] == b[1] && data[off + 2] == b[2] && data[off + 3]
        == b[3]);
    assert(data[off + 4] == b[4] && data[off + 5] == b[5] && data[off + 6] == b[6] && data[off
        + 7] == b[7]);
    assert(((x & 0xff) as u8 as u64) | ((((x >> 8u64) & 0xff) as u8 as u64) << 8u64) | ((((x
        >> 16u64) & 0xff) as u8 as u64) << 16u64) | ((((x >> 24u64) & 0xff) as u8 as u64)
        << 24u64) | ((((x >> 32u64) & 0xff) as u8 as u64) << 32u64) | ((((x >> 40u64) & 0xff)
        as u8 as u64) << 40u64) | ((((x >> 48u64) & 0xff) as u8 as u64) << 48u64) | ((((x
        >> 56u64) & 0xff) as u8 as u64) << 56u64) == x) by (bit_vector);
}

/// Encoding a payload and decoding it again gives back its kind and its
/// arguments; with resolvable accounts the whole instruction decodes to
/// them.
pub proof fn lemma_payload_round_trip(
    kind: InstructionKind,
    args: Seq<u64>,
    ix: RawInstruction,
    keys: Seq<Option<AccountKey>>,
)
    requires
        args.len() == kind.arg_count(),
        ix.data@ == encode_payload(kind, args),
    ensures
        payload_kind(kind.program(), ix.data@) == Some(kind),
        payload_args(kind, ix.data@) == args,
        spec_resolve_accounts(kind, ix.accounts@, keys) matches Some(accounts) ==> spec_decode_for(
            kind.program(),
            ix,
            keys,
        ) == Some(DecodedModel { kind, accounts, args }),
{
    let data = ix.data@;
    assert(data.len() == 1 + 8 * kind.arg_count());
    assert(data[0] == kind.tag());
    assert forall|k: int| 0 <= k < 8 implies data[1 + k] == #[trigger] le_bytes(args[0])[k] by {}
    lemma_le_bytes_read(args[0], data, 1);
    if kind.arg_count() == 2 {
        assert forall|k: int| 0 <= k < 8 implies data[9 + k] == #[trigger] le_bytes(args[1])[k] by {}
        lemma_le_bytes_read(args[1], data, 9);
    }
    assert(payload_args(kind, data) =~= args);
}

/// The decoded instructions of a concatenation are those of its parts.
pub proof fn lemma_decode_list_append(a: Seq<RawInstruction>, b: Seq<RawInstruction>, keys: Seq<Option<AccountKey>>)
    ensures
        decode_list(a + b, keys) == decode_list(a, keys) + decode_list(b, keys),
    decreases b.len(),
{
    if b.len() == 0 {
        assert(a + b =~= a);
        assert(decode_list(b, keys) =~= seq![]);
        assert(decode_list(a, keys) + decode_list(b, keys) =~= decode_list(a, keys));
    } else {
        lemma_decode_list_append(a, b.drop_last(), keys);
        assert((a + b).drop_last() =~= a + b.drop_last());
        assert((a + b).last() == b.last());
        assert(decode_list(a + b, keys) =~= decode_list(a, keys) + decode_list(b, keys));
    }
}

/// An instruction that does not decode, whether its program is unknown or
/// its payload is not understood, leaves no trace and does not stop the
/// decoding of the instructions around it.
pub proof fn lemma_undecodable_is_skipped(
    before: Seq<RawInstruction>,
    ix: RawInstruction,
    after: Seq<RawInstruction>,
    keys: Seq<Option<AccountKey>>,
)
    requires
        spec_parse_instruction(ix, keys) is None,
    ensures
        decode_list(before.push(ix) + after, keys) == decode_list(before, keys) + decode_list(
            after,
            keys,
        ),
{
    lemma_decode_list_append(before.push(ix), after, keys);
    assert(before.push(ix).drop_last() =~= before);
    assert(decode_list(before.push(ix), keys) =~= decode_list(before, keys));
}

/// An instruction that names a known program with a payload of no
/// understood kind decodes to nothing; so does one whose program position
/// is past the table, holds a malformed blob or names an unknown program.
pub proof fn lemma_unknown_instruction_not_decoded(ix: RawInstruction, keys: Seq<Option<AccountKey>>)
    requires
        match crate::parser::program_at(keys, ix.program_id_index) {
            Some(p) => payload_kind(p, ix.data@) is None,
            None => true,
        },
    ensures
        spec_parse_instruction(ix, keys) is None,
{
}

/// Inner-instruction groups whose lists decode alike decode alike.
proof fn lemma_decode_groups_pointwise(
    g1: Seq<InnerInstructions>,
    g2: Seq<InnerInstructions>,
    keys: Seq<Option<AccountKey>>,
)
    requires
        g1.len() == g2.len(),
        forall|i: int|
            0 <= i < g1.len() ==> decode_list(g1[i].instructions@, keys) == decode_list(
                #[trigger] g2[i].instructions@,
                keys,
            ),
    ensures
        decode_groups(g1, keys) == decode_groups(g2, keys),
    decreases g1.len(),
{
    if g1.len() > 0 {
        lemma_decode_groups_pointwise(g1.drop_last(), g2.drop_last(), keys);
        assert(decode_list(g1.last().instructions@, keys) == decode_list(
            g2[g2.len() - 1].instructions@,
            keys,
        ));
    }
}

/// An inner instruction that does not decode leaves no trace either: the
/// groups decode as if it were not there, siblings included.
pub proof fn lemma_undecodable_inner_is_skipped(
    with: Seq<InnerInstructions>,
    without: Seq<InnerInstructions>,
    g: int,
    before: Seq<RawInstruction>,
    ix: RawInstruction,
    after: Seq<RawInstruction>,
    keys: Seq<Option<AccountKey>>,
)
    requires
        with.len() == without.len(),
        0 <= g < with.len(),
        forall|i: int|
            0 <= i < with.len() && i != g ==> (#[trigger] with[i]).instructions@
                == without[i].instructions@,
        with[g].instructions@ == before.push(ix) + after,
        without[g].instructions@ == before + after,
        spec_parse_instruction(ix, keys) is None,
    ensures
        decode_groups(with, keys) == decode_groups(without, keys),
{
    lemma_undecodable_is_skipped(before, ix, after, keys);
    lemma_decode_list_append(before, after, keys);
    assert forall|i: int| 0 <= i < with.len() implies decode_list(with[i].instructions@, keys)
        == decode_list(#[trigger] without[i].instructions@, keys) by {
        if i != g {
            assert(with[i].instructions@ == without[i].instructions@);
        }
    }
    lemma_decode_groups_pointwise(with, without, keys);
}

/// Two transactions with the same envelope whose top-level lists and inner
/// groups decode alike decode to the same instructions and the same
/// signature. With the two lemmas above, a transaction with one more
/// top-level or inner instruction that does not decode decodes as the one
/// without it.
pub proof fn lemma_transaction_decodes_alike(with: TransactionUpdate, without: TransactionUpdate)
    requires
        with.signatures@ == without.signatures@,
        with.succeeded == without.succeeded,
        with.account_keys@ == without.account_keys@,
        decode_list(with.instructions@, keys_of(with.account_keys@)) == decode_list(
            without.instructions@,
            keys_of(with.account_keys@),
        ),
        decode_groups(with.inner_instructions@, keys_of(with.account_keys@)) == decode_groups(
            without.inner_instructions@,
            keys_of(with.account_keys@),
        ),
    ensures
        spec_transaction_instructions(with) == spec_transaction_instructions(without),
        envelope_ok(with) == envelope_ok(without),
{
}

/// When every account index of an instruction names a valid identity and it
/// lists the accounts its kind needs, its accounts resolve: one per role
/// position, each the identity its index names.
pub proof fn lemma_resolve_valid_indices(
    kind: InstructionKind,
    indices: Seq<u8>,
    keys: Seq<Option<AccountKey>>,
)
    requires
        indices.len() >= kind.spec_required_accounts(),
        forall|k: int| 0 <= k < indices.len() ==> index_valid(keys, #[trigger] indices[k]),
    ensures
        spec_resolve_accounts(kind, indices, keys) matches Some(a) && a.len() == resolved_count(
            kind,
            indices,
        ) && forall|k: int|
            0 <= k < a.len() ==> (#[trigger] a[k]).pubkey == keys[indices[k] as int]->0,
{
}

/// An account index past the end of the table rejects the instruction,
/// whatever its position.
pub proof fn lemma_out_of_range_index_rejects(
    kind: InstructionKind,
    indices: Seq<u8>,
    keys: Seq<Option<AccountKey>>,
    k: int,
)
    requires
        0 <= k < indices.len(),
        indices[k] >= keys.len(),
    ensures
        spec_resolve_accounts(kind, indices, keys) is None,
{
    assert(!index_valid(keys, indices[k]));
}

/// A transaction that failed keeps none of its top-level instructions but
/// all of its inner ones.
pub proof fn lemma_failed_transaction_keeps_inner(tx: TransactionUpdate)
    requires
        !tx.succeeded,
    ensures
        spec_transaction_instructions(tx) == decode_groups(
            tx.inner_instructions@,
            keys_of(tx.account_keys@),
        ),
{
    assert(spec_transaction_instructions(tx) =~= decode_groups(
        tx.inner_instructions@,
        keys_of(tx.account_keys@),
    ));
}

/// Whether `j` is the rule that applies to stake-pool instructions of kind
/// `kind`.
pub open spec fn stake_pool_rule(rules: Seq<NotificationRule>, kind: InstructionKind, j: int) -> bool {
    find_rule(rules, program_name(Program::SplStakePool), instruction_name(kind)) == Some(j)
}

/// A SOL withdrawal of amount `A` under threshold `T` gives an event when
/// `A >= T`, and none otherwise; the event reports the fixed amount that
/// signals a crossing, not `A`.
pub proof fn lemma_withdraw_sol_threshold(
    ms: Seq<DecodedModel>,
    i: int,
    rules: Seq<NotificationRule>,
    j: int,
)
    requires
        0 <= i < ms.len(),
        ms[i].kind == InstructionKind::WithdrawSol,
        stake_pool_rule(rules, InstructionKind::WithdrawSol, j),
    ensures
        event_for(ms, i, rules) == if ms[i].args[0] >= rules[j].threshold {
            Some((j, THRESHOLD_MET_AMOUNT))
        } else {
            None
        },
{
}

/// A stake withdrawal always gives one event, with its own minimum
/// lamports out, whatever else the transaction holds.
pub proof fn lemma_withdraw_stake_event(
    ms: Seq<DecodedModel>,
    i: int,
    rules: Seq<NotificationRule>,
    j: int,
)
    requires
        0 <= i < ms.len(),
        ms[i].kind == InstructionKind::WithdrawStakeWithSlippage,
        stake_pool_rule(rules, InstructionKind::WithdrawStakeWithSlippage, j),
    ensures
        event_for(ms, i, rules) == Some((j, ms[i].args[1])),
{
}

proof fn lemma_mint_gives_no_event(ms: Seq<DecodedModel>, i: int, rules: Seq<NotificationRule>)
    requires
        0 <= i < ms.len(),
        ms[i].kind == InstructionKind::TokenMintTo,
    ensures
        event_for(ms, i, rules) is None,
{
}

/// A stake deposit next to a mint-to of its pool tokens gives exactly one
/// event, with the minted amount.
pub proof fn lemma_deposit_with_mint(
    d: DecodedModel,
    m: DecodedModel,
    rules: Seq<NotificationRule>,
    j: int,
)
    requires
        d.kind == InstructionKind::DepositStakeWithSlippage,
        mint_correlates(m, d.accounts),
        stake_pool_rule(rules, InstructionKind::DepositStakeWithSlippage, j),
    ensures
        spec_events(seq![d, m], rules) == seq![(j, m.args[0])],
{
    let ms = seq![d, m];
    assert(is_first_correlated(ms, d.accounts, 1));
    let c = choose|c: int| is_first_correlated(ms, d.accounts, c);
    assert(c == 1);
    assert(correlated_mint_amount(ms, d.accounts) == Some(m.args[0]));
    lemma_mint_gives_no_event(ms, 1, rules);
    assert(ms[0] == d);
    assert(event_for(ms, 0, rules) == Some((j, m.args[0])));
    assert(events_upto(ms, rules, 0) =~= seq![]);
    assert(events_upto(ms, rules, 1) =~= seq![(j, m.args[0])]);
    assert(spec_events(ms, rules) =~= seq![(j, m.args[0])]);
}

/// A stake deposit without a mint-to of its pool tokens gives no event.
pub proof fn lemma_deposit_without_mint(d: DecodedModel, rules: Seq<NotificationRule>)
    requires
        d.kind == InstructionKind::DepositStakeWithSlippage,
    ensures
        spec_events(seq![d], rules) == Seq::<(int, u64)>::empty(),
{
    let ms = seq![d];
    assert(!mint_correlates(d, d.accounts));
    assert(!exists|k: int| is_first_correlated(ms, d.accounts, k));
    assert(events_upto(ms, rules, 0) =~= seq![]);
    assert(spec_events(ms, rules) =~= seq![]);
}

/// A stake deposit next to two mint-to instructions of its pool tokens
/// still gives exactly one event, with the first one's amount.
pub proof fn lemma_deposit_with_repeated_mint(
    d: DecodedModel,
    m: DecodedModel,
    rules: Seq<NotificationRule>,
    j: int,
)
    requires
        d.kind == InstructionKind::DepositStakeWithSlippage,
        mint_correlates(m, d.accounts),
        stake_pool_rule(rules, InstructionKind::DepositStakeWithSlippage, j),
    ensures
        spec_events(seq![d, m, m], rules) == seq![(j, m.args[0])],
{
    let ms = seq![d, m, m];
    assert(is_first_correlated(ms, d.accounts, 1));
    let c = choose|c: int| is_first_correlated(ms, d.accounts, c);
    assert(c == 1) by {
        if c == 2 {
            assert(mint_correlates(ms[1], d.accounts));
        }
    }
    assert(correlated_mint_amount(ms, d.accounts) == Some(m.args[0]));
    lemma_mint_gives_no_event(ms, 1, rules);
    lemma_mint_gives_no_event(ms, 2, rules);
    assert(ms[0] == d);
    assert(event_for(ms, 0, rules) == Some((j, m.args[0])));
    assert(events_upto(ms, rules, 0) =~= seq![]);
    assert(events_upto(ms, rules, 1) =~= seq![(j, m.args[0])]);
    assert(events_upto(ms, rules, 2) =~= seq![(j, m.args[0])]);
    assert(spec_events(ms, rules) =~= seq![(j, m.args[0])]);
}

} // verus!
