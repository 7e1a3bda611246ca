use std::str::FromStr;

use jito_bell::account::AccountTable;
use jito_bell::instruction::RawInstruction;
use jito_bell::parser::{parse_instruction, JitoBellProgram};
use jito_bell::stake_pool::JitoStakePool;
use jito_bell::token_2022::SplToken2022Program;
use jito_bell::vault::JitoVaultProgram;
use spl_stake_pool::instruction::StakePoolInstruction;

fn key(n: u8) -> [u8; 32] {
    [n; 32]
}

/// A table of 20 keys: position 0 the token program, 1 the stake-pool
/// program, 2 the vault program, the rest distinct user accounts.
fn table() -> AccountTable {
    let mut raw: Vec<Vec<u8>> = vec![
        SplToken2022Program::program_id().to_vec(),
        JitoStakePool::program_id().to_vec(),
        JitoVaultProgram::program_id().to_vec(),
    ];
    for n in 3u8..20 {
        raw.push(key(n).to_vec());
    }
    AccountTable::from_raw(&raw)
}

fn ix(program: u32, accounts: Vec<u8>, data: Vec<u8>) -> RawInstruction {
    RawInstruction { program_id_index: program, accounts, data }
}

fn encode(i: &StakePoolInstruction) -> Vec<u8> {
    borsh::to_vec(i).unwrap()
}

#[test]
fn program_ids_match_published_identities() {
    assert_eq!(JitoStakePool::program_id(), spl_stake_pool::id().to_bytes());
    let token = solana_pubkey::Pubkey::from_str("TokenzQdBNbLqP5VEhdkAS6EPFLC1PHnBqCXEpPxuEb").unwrap();
    assert_eq!(SplToken2022Program::program_id(), token.to_bytes());
    let vault = solana_pubkey::Pubkey::from_str("Vau1t6sLNxnzB7ZDsef8TLbPLfyZMYXH8WTNqUdm9g8").unwrap();
    assert_eq!(JitoVaultProgram::program_id(), vault.to_bytes());
}

#[test]
fn account_table_resolves_in_range_only() {
    let raw = vec![key(1).to_vec(), key(2).to_vec(), key(3).to_vec()];
    let t = AccountTable::from_raw(&raw);
    assert_eq!(t.len(), 3);
    assert_eq!(t.get(0), Some(key(1)));
    assert_eq!(t.get(2), Some(key(3)));
    assert_eq!(t.get(3), None);
    assert_eq!(t.get(usize::MAX), None);
}

#[test]
fn account_table_invalidates_only_wrong_length_blob() {
    let raw = vec![key(1).to_vec(), vec![1u8; 31], vec![1u8; 33], key(4).to_vec()];
    let t = AccountTable::from_raw(&raw);
    assert_eq!(t.len(), 4);
    assert_eq!(t.get(0), Some(key(1)));
    assert_eq!(t.get(1), None);
    assert_eq!(t.get(2), None);
    assert_eq!(t.get(3), Some(key(4)));
    assert_eq!(AccountTable::from_raw(&vec![]).len(), 0);
}

#[test]
fn malformed_blob_rejects_only_instructions_naming_it() {
    let mut raw: Vec<Vec<u8>> = vec![
        SplToken2022Program::program_id().to_vec(),
        JitoStakePool::program_id().to_vec(),
        JitoVaultProgram::program_id().to_vec(),
    ];
    for n in 3u8..20 {
        raw.push(key(n).to_vec());
    }
    raw[5] = vec![5u8; 12];
    let t = AccountTable::from_raw(&raw);
    assert!(parse_instruction(&ix(0, vec![5, 6, 7], mint_to_data(3)), &t).is_none());
    assert!(parse_instruction(&ix(0, vec![6, 7, 8], mint_to_data(3)), &t).is_some());
    // an extra account naming the malformed blob
    assert!(parse_instruction(&ix(0, vec![6, 7, 8, 5], mint_to_data(3)), &t).is_none());
}

#[test]
fn deposit_sol_round_trip() {
    let t = table();
    let data = encode(&StakePoolInstruction::DepositSol(1_234_567_890_123));
    let accounts: Vec<u8> = (3u8..13).collect();
    let d = JitoStakePool::parse_jito_stake_pool_ix(&ix(1, accounts, data), &t).unwrap();
    match d {
        JitoStakePool::DepositSol { accounts, amount } => {
            assert_eq!(amount, 1_234_567_890_123);
            assert_eq!(accounts.len(), 10);
            assert_eq!(accounts[0].pubkey, key(3));
            assert!(accounts[0].is_writable);
            assert!(!accounts[1].is_writable);
            assert!(accounts[3].is_signer);
            assert_eq!(accounts[9].pubkey, key(12));
        }
        _ => panic!("wrong kind"),
    }
}

#[test]
fn withdraw_sol_round_trip() {
    let t = table();
    let data = encode(&StakePoolInstruction::WithdrawSol(42));
    let accounts: Vec<u8> = (3u8..16).collect();
    match JitoStakePool::parse_jito_stake_pool_ix(&ix(1, accounts, data), &t) {
        Some(JitoStakePool::WithdrawSol { accounts, amount }) => {
            assert_eq!(amount, 42);
            assert_eq!(accounts.len(), 13);
            assert!(accounts[12].is_signer);
            assert_eq!(accounts[12].pubkey, key(15));
        }
        _ => panic!("wrong kind"),
    }
}

#[test]
fn deposit_stake_with_slippage_round_trip() {
    let t = table();
    let data = encode(&StakePoolInstruction::DepositStakeWithSlippage {
        minimum_pool_tokens_out: u64::MAX,
    });
    let accounts: Vec<u8> = (3u8..18).collect();
    match JitoStakePool::parse_jito_stake_pool_ix(&ix(1, accounts, data), &t) {
        Some(JitoStakePool::DepositStakeWithSlippage { accounts, minimum_pool_tokens_out }) => {
            assert_eq!(minimum_pool_tokens_out, u64::MAX);
            assert_eq!(accounts.len(), 15);
            assert_eq!(accounts[3].pubkey, key(6));
            assert_eq!(accounts[7].pubkey, key(10));
            assert_eq!(accounts[10].pubkey, key(13));
            assert!(accounts[10].is_writable);
            assert!(!accounts[3].is_writable);
        }
        _ => panic!("wrong kind"),
    }
}

#[test]
fn withdraw_stake_with_slippage_round_trip() {
    let t = table();
    let data = encode(&StakePoolInstruction::WithdrawStakeWithSlippage {
        pool_tokens_in: 7,
        minimum_lamports_out: 0x0102_0304_0506_0708,
    });
    let accounts: Vec<u8> = (3u8..16).collect();
    match JitoStakePool::parse_jito_stake_pool_ix(&ix(1, accounts, data), &t) {
        Some(JitoStakePool::WithdrawStakeWithSlippage {
            accounts,
            pool_tokens_in,
            minimum_lamports_out,
        }) => {
            assert_eq!(pool_tokens_in, 7);
            assert_eq!(minimum_lamports_out, 0x0102_0304_0506_0708);
            assert_eq!(accounts.len(), 13);
            assert!(accounts[6].is_signer);
        }
        _ => panic!("wrong kind"),
    }
}

#[test]
fn other_stake_pool_kinds_do_not_decode() {
    let t = table();
    let accounts: Vec<u8> = (3u8..18).collect();
    for i in [
        StakePoolInstruction::UpdateStakePoolBalance,
        StakePoolInstruction::WithdrawStake(5),
        StakePoolInstruction::DepositStake,
        StakePoolInstruction::DepositSolWithSlippage {
            lamports_in: 1,
            minimum_pool_tokens_out: 1,
        },
    ] {
        let r = JitoStakePool::parse_jito_stake_pool_ix(&ix(1, accounts.clone(), encode(&i)), &t);
        assert!(r.is_none());
    }
}

#[test]
fn malformed_stake_pool_payloads_do_not_decode() {
    let t = table();
    let accounts: Vec<u8> = (3u8..16).collect();
    let mut long = encode(&StakePoolInstruction::WithdrawSol(42));
    long.push(0);
    let short = encode(&StakePoolInstruction::WithdrawSol(42))[..5].to_vec();
    for data in [long, short, vec![], vec![200u8, 1, 2]] {
        assert!(JitoStakePool::parse_jito_stake_pool_ix(&ix(1, accounts.clone(), data), &t).is_none());
    }
}

#[test]
fn too_few_accounts_do_not_decode() {
    let t = table();
    let data = encode(&StakePoolInstruction::WithdrawSol(42));
    let accounts: Vec<u8> = (3u8..14).collect();
    assert!(JitoStakePool::parse_jito_stake_pool_ix(&ix(1, accounts, data.clone()), &t).is_none());
    let accounts: Vec<u8> = (3u8..15).collect();
    match JitoStakePool::parse_jito_stake_pool_ix(&ix(1, accounts, data), &t) {
        Some(JitoStakePool::WithdrawSol { accounts, .. }) => assert_eq!(accounts.len(), 12),
        _ => panic!("wrong kind"),
    }
}

#[test]
fn out_of_range_account_does_not_decode() {
    let t = table();
    let data = encode(&StakePoolInstruction::DepositSol(1));
    let mut accounts: Vec<u8> = (3u8..13).collect();
    accounts[4] = 20;
    assert!(JitoStakePool::parse_jito_stake_pool_ix(&ix(1, accounts, data), &t).is_none());
}

#[test]
fn extra_out_of_range_account_does_not_decode() {
    let t = table();
    let data = encode(&StakePoolInstruction::DepositSol(1));
    let mut accounts: Vec<u8> = (3u8..14).collect();
    accounts.push(250);
    assert!(JitoStakePool::parse_jito_stake_pool_ix(&ix(1, accounts, data), &t).is_none());
    let data = encode(&StakePoolInstruction::DepositSol(1));
    let mut accounts: Vec<u8> = (3u8..14).collect();
    accounts.push(20);
    assert!(JitoStakePool::parse_jito_stake_pool_ix(&ix(1, accounts, data), &t).is_none());
}

#[test]
fn extra_valid_accounts_are_not_resolved() {
    let t = table();
    let data = encode(&StakePoolInstruction::DepositSol(1));
    let mut accounts: Vec<u8> = (3u8..14).collect();
    accounts.push(19);
    match JitoStakePool::parse_jito_stake_pool_ix(&ix(1, accounts, data), &t) {
        Some(JitoStakePool::DepositSol { accounts, .. }) => assert_eq!(accounts.len(), 11),
        _ => panic!("wrong kind"),
    }
}

fn mint_to_data(amount: u64) -> Vec<u8> {
    let mut d = vec![7u8];
    d.extend_from_slice(&amount.to_le_bytes());
    d
}

#[test]
fn token_mint_to_round_trip() {
    let t = table();
    let r = SplToken2022Program::parse_spl_token_2022_program(
        &ix(0, vec![5, 6, 7, 8], mint_to_data(987_654_321)),
        &t,
    );
    match r {
        Some(SplToken2022Program::MintTo { accounts, amount }) => {
            assert_eq!(amount, 987_654_321);
            assert_eq!(accounts.len(), 3);
            assert_eq!(accounts[0].pubkey, key(5));
            assert_eq!(accounts[1].pubkey, key(6));
            assert_eq!(accounts[2].pubkey, key(7));
            assert!(accounts[2].is_signer);
        }
        None => panic!("no decode"),
    }
}

#[test]
fn token_other_payloads_do_not_decode() {
    let t = table();
    let mut transfer = mint_to_data(5);
    transfer[0] = 3;
    let mut long = mint_to_data(5);
    long.push(9);
    for data in [transfer, long, vec![7u8, 1, 2]] {
        assert!(SplToken2022Program::parse_spl_token_2022_program(&ix(0, vec![5, 6, 7], data), &t)
            .is_none());
    }
}

#[test]
fn vault_mint_to_round_trip() {
    let t = table();
    let mut data = vec![11u8];
    data.extend_from_slice(&1000u64.to_le_bytes());
    data.extend_from_slice(&990u64.to_le_bytes());
    let accounts: Vec<u8> = (3u8..12).collect();
    match JitoVaultProgram::parse_jito_vault_program(&ix(2, accounts, data), &t) {
        Some(JitoVaultProgram::MintTo { accounts, amount_in, min_amount_out }) => {
            assert_eq!(amount_in, 1000);
            assert_eq!(min_amount_out, 990);
            assert_eq!(accounts.len(), 9);
            assert!(accounts[3].is_signer && accounts[3].is_writable);
        }
        _ => panic!("wrong kind"),
    }
}

#[test]
fn vault_enqueue_withdrawal_round_trip() {
    let t = table();
    let mut data = vec![12u8];
    data.extend_from_slice(&77u64.to_le_bytes());
    let accounts: Vec<u8> = (3u8..13).collect();
    match JitoVaultProgram::parse_jito_vault_program(&ix(2, accounts, data), &t) {
        Some(JitoVaultProgram::EnqueueWithdrawal { accounts, amount }) => {
            assert_eq!(amount, 77);
            assert_eq!(accounts.len(), 10);
            assert!(accounts[9].is_signer);
        }
        _ => panic!("wrong kind"),
    }
}

#[test]
fn router_dispatches_by_program_identity() {
    let t = table();
    let r = parse_instruction(&ix(0, vec![5, 6, 7], mint_to_data(3)), &t);
    assert!(matches!(r, Some(JitoBellProgram::SplToken2022(_))));
    let data = encode(&StakePoolInstruction::DepositSol(1));
    let r = parse_instruction(&ix(1, (3u8..13).collect(), data.clone()), &t);
    assert!(matches!(r, Some(JitoBellProgram::SplStakePool(JitoStakePool::DepositSol { .. }))));
    // the same payload under a user account's identity
    assert!(parse_instruction(&ix(4, (3u8..13).collect(), data.clone()), &t).is_none());
    // a program position past the table
    assert!(parse_instruction(&ix(20, (3u8..13).collect(), data), &t).is_none());
    // a token payload under the stake-pool program
    assert!(parse_instruction(&ix(1, vec![5, 6, 7], mint_to_data(3)), &t).is_none());
}

#[test]
fn program_names() {
    let t = table();
    let r = parse_instruction(&ix(0, vec![5, 6, 7], mint_to_data(3)), &t).unwrap();
    assert_eq!(r.to_string(), "spl-token-2022");
    let data = encode(&StakePoolInstruction::DepositSol(1));
    let r = parse_instruction(&ix(1, (3u8..13).collect(), data), &t).unwrap();
    assert_eq!(r.to_string(), "spl_stake_pool");
    if let JitoBellProgram::SplStakePool(sp) = r {
        assert_eq!(sp.to_string(), "deposit_sol");
    } else {
        panic!("wrong program");
    }
    let mut data = vec![12u8];
    data.extend_from_slice(&77u64.to_le_bytes());
    let r = parse_instruction(&ix(2, (3u8..12).collect(), data), &t).unwrap();
    assert_eq!(r.to_string(), "jito_vault");
}
