use novi::address::Address;
use novi::bytes::{read_u16_le, read_u64_le, starts_with_selector};
use novi::config::ProtocolConfig;
use novi::deposit::Deposit;
use novi::deposit_account::DepositAccount;
use novi::error::NoviError;
use novi::finalize::Finalize;
use novi::index::IndexAccount;
use novi::index_profile::{IndexProfile, ProfileState};
use novi::swap::{InitializeSwap, SwapRelease};
use novi::transaction::{decode_finalize_amount, decode_route_args, Instruction, RouteArgs, TransactionContext};

const TARGET_A: u8 = 10;
const TARGET_B: u8 = 11;
const USER: u8 = 20;
const PRECISION_A: u8 = 6;

fn addr(k: u8) -> Address {
    Address::new([k; 32])
}

fn config() -> ProtocolConfig {
    ProtocolConfig {
        program_id: addr(1),
        admin: addr(2),
        wsol: addr(3),
        usdc: addr(4),
        usdt: addr(5),
        aggregator_program: addr(6),
        route_selector: [193, 32, 155, 51, 65, 214, 156, 129],
        route_step_payload_lens: vec![0, 1, 16],
        finalize_selector: [171, 61, 218, 56, 127, 115, 12, 217],
    }
}

fn index() -> IndexAccount {
    IndexAccount { title: "fund".to_string(), mint_list: vec![addr(TARGET_A), addr(TARGET_B)], bump: 1 }
}

fn route_data(in_amount: u64, quoted: u64, slippage: u16) -> Vec<u8> {
    let mut d = config().route_selector.to_vec();
    d.push(0);
    d.extend_from_slice(&2u32.to_le_bytes());
    d.extend_from_slice(&[0, 50, 0, 1]);
    d.extend_from_slice(&[1, 1, 50, 1, 2]);
    d.extend_from_slice(&in_amount.to_le_bytes());
    d.extend_from_slice(&quoted.to_le_bytes());
    d.extend_from_slice(&slippage.to_le_bytes());
    d.push(0);
    d
}

fn route_ix(in_amount: u64, quoted: u64, slippage: u16, from: Address, to: Address) -> Instruction {
    let mut accounts = vec![addr(30); 9];
    accounts[7] = from;
    accounts[8] = to;
    Instruction { program_id: config().aggregator_program, accounts, data: route_data(in_amount, quoted, slippage) }
}

fn finalize_ix(amount: u64, owner: Address, mint: Address) -> Instruction {
    let mut data = config().finalize_selector.to_vec();
    data.extend_from_slice(&amount.to_le_bytes());
    let mut accounts = vec![addr(31); 8];
    accounts[1] = owner;
    accounts[5] = mint;
    Instruction { program_id: config().program_id, accounts, data }
}

fn own_ix() -> Instruction {
    Instruction { program_id: config().program_id, accounts: Vec::new(), data: vec![0; 16] }
}

fn ctx(ixs: Vec<Instruction>) -> TransactionContext {
    let mut instructions = vec![own_ix()];
    instructions.extend(ixs);
    TransactionContext { current_index: 0, stack_height: 1, instructions }
}

fn good_ctx() -> TransactionContext {
    ctx(vec![
        route_ix(500, 200, 50, addr(3), addr(TARGET_A)),
        finalize_ix(200 * PRECISION_A as u64, addr(USER), addr(TARGET_A)),
    ])
}

fn escrow_after_deposit() -> DepositAccount {
    let c = config();
    let blank = DepositAccount { owner: addr(0), amount: 0, mint_list: Vec::new(), seed: 0, bump: 0 };
    let mut d = Deposit { user: addr(USER), mint: c.wsol, mint_decimals: 1, index: index(), deposit: blank };
    assert_eq!(d.deposit(&c, 7, 1000, 2), Ok(1000));
    d.deposit
}

fn swap_state() -> InitializeSwap {
    InitializeSwap {
        deposit: escrow_after_deposit(),
        index: index(),
        usdc: addr(3),
        mint: addr(TARGET_A),
        mint_decimals: PRECISION_A,
        deposit_token_amount: 1000,
    }
}

fn swap_err(t: TransactionContext, amount: u64) -> NoviError {
    let mut s = swap_state();
    let r = s.initialize_swap(&config(), &t, amount);
    assert_eq!(s.deposit.mint_list, vec![false, false]);
    r.unwrap_err()
}

#[test]
fn end_to_end_deposit_swap_finalize() {
    let c = config();
    let mut s = swap_state();
    assert_eq!(s.deposit.amount, 1000);
    assert_eq!(s.deposit.mint_list, vec![false, false]);
    let r = s.initialize_swap(&c, &good_ctx(), 500);
    assert_eq!(r, Ok(SwapRelease { amount: 500, close_deposit: false, quoted_out_amount: 1200 }));
    assert_eq!(s.deposit.mint_list, vec![true, false]);
    let mut f = Finalize { owner: addr(USER), index: index(), index_profile: ProfileState::NotFound, mint: addr(TARGET_A) };
    assert_eq!(f.finalize(1200, 4), Ok(()));
    match f.index_profile {
        ProfileState::Found(p) => {
            assert_eq!(p.mint_amount, vec![1200, 0]);
            assert_eq!(p.owner, addr(USER));
            assert_eq!(p.bump, 4);
        }
        ProfileState::NotFound => panic!("profile not created"),
    }
}

#[test]
fn end_to_end_wrong_slippage_fails() {
    let t = ctx(vec![
        route_ix(500, 200, 60, addr(3), addr(TARGET_A)),
        finalize_ix(1200, addr(USER), addr(TARGET_A)),
    ]);
    let mut s = swap_state();
    assert_eq!(s.initialize_swap(&config(), &t, 500), Err(NoviError::InvalidSlippage));
    assert_eq!(s.deposit.amount, 1000);
    assert_eq!(s.deposit.mint_list, vec![false, false]);
    assert_eq!(s.deposit_token_amount, 1000);
}

#[test]
fn second_swap_on_same_position_fails() {
    let c = config();
    let mut s = swap_state();
    assert!(s.initialize_swap(&c, &good_ctx(), 500).is_ok());
    assert_eq!(s.initialize_swap(&c, &good_ctx(), 500), Err(NoviError::AlreadySwapped));
    assert_eq!(s.deposit.mint_list, vec![true, false]);
}

#[test]
fn other_position_can_still_be_swapped() {
    let c = config();
    let mut s = swap_state();
    assert!(s.initialize_swap(&c, &good_ctx(), 500).is_ok());
    s.mint = addr(TARGET_B);
    s.deposit_token_amount = 500;
    let t = ctx(vec![
        route_ix(500, 7, 50, addr(3), addr(TARGET_B)),
        finalize_ix(42, addr(USER), addr(TARGET_B)),
    ]);
    assert_eq!(
        s.initialize_swap(&c, &t, 500),
        Ok(SwapRelease { amount: 500, close_deposit: true, quoted_out_amount: 42 })
    );
    assert_eq!(s.deposit.mint_list, vec![true, true]);
}

#[test]
fn missing_swap_instruction() {
    assert_eq!(swap_err(ctx(Vec::new()), 500), NoviError::MissingSwapIx);
}

#[test]
fn swap_instruction_wrong_program_or_selector() {
    let mut wrong_program = route_ix(500, 200, 50, addr(3), addr(TARGET_A));
    wrong_program.program_id = addr(7);
    let fin = finalize_ix(1200, addr(USER), addr(TARGET_A));
    assert_eq!(swap_err(ctx(vec![wrong_program, fin.clone()]), 500), NoviError::InvalidSwapIx);
    let mut wrong_selector = route_ix(500, 200, 50, addr(3), addr(TARGET_A));
    wrong_selector.data[0] ^= 1;
    assert_eq!(swap_err(ctx(vec![wrong_selector, fin.clone()]), 500), NoviError::InvalidSwapIx);
    let mut short = route_ix(500, 200, 50, addr(3), addr(TARGET_A));
    short.data.truncate(20);
    assert_eq!(swap_err(ctx(vec![short, fin]), 500), NoviError::InvalidSwapIx);
}

#[test]
fn swap_instruction_wrong_amount_or_mints() {
    let fin = finalize_ix(1200, addr(USER), addr(TARGET_A));
    let t = ctx(vec![route_ix(499, 200, 50, addr(3), addr(TARGET_A)), fin.clone()]);
    assert_eq!(swap_err(t, 500), NoviError::InvalidAmount);
    let t = ctx(vec![route_ix(500, 200, 50, addr(4), addr(TARGET_A)), fin.clone()]);
    assert_eq!(swap_err(t, 500), NoviError::InvalidFromMint);
    let t = ctx(vec![route_ix(500, 200, 50, addr(3), addr(TARGET_B)), fin.clone()]);
    assert_eq!(swap_err(t, 500), NoviError::InvalidToMint);
    let mut few = route_ix(500, 200, 50, addr(3), addr(TARGET_A));
    few.accounts.truncate(8);
    assert_eq!(swap_err(ctx(vec![few, fin]), 500), NoviError::InvalidToMint);
}

#[test]
fn quoted_output_overflow() {
    let t = ctx(vec![
        route_ix(500, u64::MAX / 2, 50, addr(3), addr(TARGET_A)),
        finalize_ix(1200, addr(USER), addr(TARGET_A)),
    ]);
    assert_eq!(swap_err(t, 500), NoviError::Overflow);
}

#[test]
fn finalize_instruction_checks() {
    let route = route_ix(500, 200, 50, addr(3), addr(TARGET_A));
    assert_eq!(swap_err(ctx(vec![route.clone()]), 500), NoviError::MissingFinalizeIx);
    let mut wrong_program = finalize_ix(1200, addr(USER), addr(TARGET_A));
    wrong_program.program_id = addr(6);
    assert_eq!(swap_err(ctx(vec![route.clone(), wrong_program]), 500), NoviError::InvalidFinalizeIx);
    let mut wrong_selector = finalize_ix(1200, addr(USER), addr(TARGET_A));
    wrong_selector.data[7] = 0;
    assert_eq!(swap_err(ctx(vec![route.clone(), wrong_selector]), 500), NoviError::InvalidFinalizeIx);
    let t = ctx(vec![route.clone(), finalize_ix(200, addr(USER), addr(TARGET_A))]);
    assert_eq!(swap_err(t, 500), NoviError::InvalidFinalizeAmount);
    let t = ctx(vec![route.clone(), finalize_ix(1200, addr(21), addr(TARGET_A))]);
    assert_eq!(swap_err(t, 500), NoviError::InvalidFinalizeOwner);
    let t = ctx(vec![route, finalize_ix(1200, addr(USER), addr(TARGET_B))]);
    assert_eq!(swap_err(t, 500), NoviError::InvalidFinalizeMint);
}

#[test]
fn swap_gate_checks_before_introspection() {
    let c = config();
    assert_eq!(swap_err(good_ctx(), 499), NoviError::AmountMismatch);
    let mut nested = good_ctx();
    nested.stack_height = 2;
    assert_eq!(swap_err(nested, 500), NoviError::CpiDisabled);
    let mut s = swap_state();
    s.mint = addr(12);
    assert_eq!(s.initialize_swap(&c, &good_ctx(), 500), Err(NoviError::InvalidMintAddress));
    let mut s = swap_state();
    s.deposit_token_amount = 499;
    assert_eq!(s.initialize_swap(&c, &good_ctx(), 500), Err(NoviError::Underflow));
    assert_eq!(s.deposit.mint_list, vec![false, false]);
}

#[test]
fn swap_reads_instructions_relative_to_current() {
    let mut t = good_ctx();
    t.instructions.insert(0, own_ix());
    t.current_index = 1;
    let mut s = swap_state();
    assert!(s.initialize_swap(&config(), &t, 500).is_ok());
    let mut t = good_ctx();
    t.current_index = 1;
    assert_eq!(swap_err(t, 500), NoviError::InvalidSwapIx);
}

fn profile_with(amounts: Vec<u64>) -> Finalize {
    Finalize {
        owner: addr(USER),
        index: index(),
        index_profile: ProfileState::Found(IndexProfile { owner: addr(USER), mint_amount: amounts, bump: 9 }),
        mint: addr(TARGET_B),
    }
}

fn ledger(f: &Finalize) -> Vec<u64> {
    match &f.index_profile {
        ProfileState::Found(p) => p.mint_amount.clone(),
        ProfileState::NotFound => Vec::new(),
    }
}

#[test]
fn finalize_accumulates_proceeds() {
    let mut f = Finalize { owner: addr(USER), index: index(), index_profile: ProfileState::NotFound, mint: addr(TARGET_B) };
    for a in [5u64, 7, 30] {
        assert_eq!(f.finalize(a, 3), Ok(()));
    }
    assert_eq!(ledger(&f), vec![0, 42]);
}

#[test]
fn finalize_overflow_keeps_state() {
    let mut f = profile_with(vec![1, u64::MAX - 10]);
    assert_eq!(f.finalize(10, 3), Ok(()));
    assert_eq!(ledger(&f), vec![1, u64::MAX]);
    assert_eq!(f.finalize(1, 3), Err(NoviError::Overflow));
    assert_eq!(ledger(&f), vec![1, u64::MAX]);
    match f.index_profile {
        ProfileState::Found(p) => assert_eq!(p.bump, 9),
        ProfileState::NotFound => panic!("profile lost"),
    }
}

#[test]
fn finalize_unknown_mint_fails() {
    let mut f = profile_with(vec![1, 2]);
    f.mint = addr(12);
    assert_eq!(f.finalize(10, 3), Err(NoviError::InvalidMintAddress));
    assert_eq!(ledger(&f), vec![1, 2]);
    assert_eq!(IndexProfile::space(2), Some(45 + 16));
}

#[test]
fn decoders_read_little_endian() {
    let d = route_data(0x0102030405060708, 77, 50);
    assert_eq!(
        decode_route_args(&d, &config().route_step_payload_lens),
        Some(RouteArgs { in_amount: 0x0102030405060708, quoted_out_amount: 77, slippage_bps: 50, platform_fee_bps: 0 })
    );
    assert_eq!(decode_route_args(&vec![0; 31], &config().route_step_payload_lens), None);
    let f = finalize_ix(0xdead_beef_0000_0001, addr(1), addr(2)).data;
    assert_eq!(decode_finalize_amount(&f), Some(0xdead_beef_0000_0001));
    assert_eq!(decode_finalize_amount(&vec![0; 17]), None);
    assert_eq!(read_u64_le(&vec![0, 1, 0, 0, 0, 0, 0, 0, 0], 1), 1);
    assert_eq!(read_u16_le(&vec![0x34, 0x12], 0), 0x1234);
    assert!(starts_with_selector(&f, &config().finalize_selector));
    assert!(!starts_with_selector(&vec![171, 61], &config().finalize_selector));
}

fn with_tail(mut d: Vec<u8>, in_amount: u64, quoted: u64, slippage: u16) -> Vec<u8> {
    d.extend_from_slice(&in_amount.to_le_bytes());
    d.extend_from_slice(&quoted.to_le_bytes());
    d.extend_from_slice(&slippage.to_le_bytes());
    d.push(0);
    d
}

fn route_head(count: u32) -> Vec<u8> {
    let mut d = config().route_selector.to_vec();
    d.push(3);
    d.extend_from_slice(&count.to_le_bytes());
    d
}

#[test]
fn route_decoding_walks_every_step() {
    let lens = config().route_step_payload_lens;
    let mut d = route_head(3);
    d.extend_from_slice(&[2; 17]);
    d.extend_from_slice(&[7, 8, 9]);
    d.extend_from_slice(&[0, 100, 0, 1]);
    d.extend_from_slice(&[1, 1, 100, 1, 2]);
    let d = with_tail(d, 500, 9, 50);
    assert_eq!(
        decode_route_args(&d, &lens),
        Some(RouteArgs { in_amount: 500, quoted_out_amount: 9, slippage_bps: 50, platform_fee_bps: 0 })
    );
    let empty_plan = with_tail(route_head(0), 1, 2, 3);
    assert_eq!(empty_plan.len(), 32);
    assert_eq!(
        decode_route_args(&empty_plan, &lens),
        Some(RouteArgs { in_amount: 1, quoted_out_amount: 2, slippage_bps: 3, platform_fee_bps: 0 })
    );
}

#[test]
fn route_with_trailing_bytes_is_refused() {
    let lens = config().route_step_payload_lens;
    let real = route_data(400, 200, 100);
    let forged = with_tail(real.clone(), 500, 200, 50);
    assert!(decode_route_args(&real, &lens).is_some());
    assert_eq!(decode_route_args(&forged, &lens), None);
    let mut ix = route_ix(500, 200, 50, addr(3), addr(TARGET_A));
    ix.data = forged;
    let fin = finalize_ix(1200, addr(USER), addr(TARGET_A));
    assert_eq!(swap_err(ctx(vec![ix, fin]), 500), NoviError::InvalidSwapIx);
}

#[test]
fn route_with_bad_plan_is_refused() {
    let lens = config().route_step_payload_lens;
    let mut unknown_tag = route_head(1);
    unknown_tag.extend_from_slice(&[3, 0, 0, 0]);
    assert_eq!(decode_route_args(&with_tail(unknown_tag, 1, 2, 50), &lens), None);
    let mut too_many = route_head(2);
    too_many.extend_from_slice(&[0, 100, 0, 1]);
    assert_eq!(decode_route_args(&with_tail(too_many, 1, 2, 50), &lens), None);
    let mut too_few = route_head(0);
    too_few.extend_from_slice(&[0, 100, 0, 1]);
    assert_eq!(decode_route_args(&with_tail(too_few, 1, 2, 50), &lens), None);
    let mut cut = route_head(1);
    cut.extend_from_slice(&[2, 1, 2]);
    assert_eq!(decode_route_args(&cut, &lens), None);
}

#[test]
fn route_assets_are_checked_before_quote_overflow() {
    let fin = finalize_ix(1200, addr(USER), addr(TARGET_A));
    let t = ctx(vec![route_ix(500, u64::MAX / 2, 50, addr(4), addr(TARGET_A)), fin.clone()]);
    assert_eq!(swap_err(t, 500), NoviError::InvalidFromMint);
    let t = ctx(vec![route_ix(500, u64::MAX / 2, 50, addr(3), addr(TARGET_B)), fin]);
    assert_eq!(swap_err(t, 500), NoviError::InvalidToMint);
}
