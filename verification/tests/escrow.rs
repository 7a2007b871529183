use escrow_anchor::context::{AcceptTrade, CancelTrade, InitializeAccounts, StartTrade};
use escrow_anchor::errors::TradeError;
use escrow_anchor::ledger::{TransferAuthority, TransferInstruction};
use escrow_anchor::state::{AccountId, Phase, Trade, TradeId};
use escrow_anchor::store::TradeStore;
use escrow_anchor::{accept_trade, cancel_trade, initialize_accounts, start_trade};

fn account(n: u64) -> AccountId {
    AccountId { w0: n, w1: 0, w2: 0, w3: 0 }
}

struct Setup {
    alice: AccountId,
    bob: AccountId,
    holding: AccountId,
    mint: AccountId,
    alice_token_a: AccountId,
    bob_token_a: AccountId,
    alice_token_b: AccountId,
    bob_token_b: AccountId,
}

fn setup() -> Setup {
    Setup {
        alice: account(1),
        bob: account(2),
        holding: account(3),
        mint: account(4),
        alice_token_a: account(5),
        bob_token_a: account(6),
        alice_token_b: account(7),
        bob_token_b: account(8),
    }
}

/// Initializes a fresh store with one trade: Alice offers 100 of token A and
/// requests 50 of token B.
fn initialized(s: &Setup) -> (TradeStore, TradeId) {
    let mut store = TradeStore::new();
    let ctx = InitializeAccounts {
        token_a_pda: s.holding,
        token_a_mint: s.mint,
        authority: s.alice,
    };
    let id = initialize_accounts(
        &ctx,
        &mut store,
        s.bob_token_a,
        s.alice_token_b,
        s.alice_token_a,
        100,
        50,
    )
    .expect("first initialize must succeed");
    (store, id)
}

fn start_context(s: &Setup, trade: Trade) -> StartTrade {
    StartTrade {
        token_a_src: s.alice_token_a,
        token_a_pda_dest: s.holding,
        authority: s.alice,
        trade,
    }
}

fn cancel_context(s: &Setup, trade: Trade) -> CancelTrade {
    CancelTrade {
        token_a_pda_src: s.holding,
        token_a_dest: s.alice_token_a,
        authority: s.alice,
        trade,
    }
}

fn accept_context(s: &Setup, trade: Trade) -> AcceptTrade {
    AcceptTrade {
        token_a_pda_src: s.holding,
        token_b_src: s.bob_token_b,
        token_a_dest: s.bob_token_a,
        token_b_dest: s.alice_token_b,
        authority: s.bob,
        trade,
    }
}

#[test]
fn initialize_records_created_trade() {
    let s = setup();
    let (store, id) = initialized(&s);
    assert_eq!(store.len(), 1);
    let trade = store.get(id).expect("record must exist");
    assert_eq!(trade.token_a_pda, s.holding);
    assert_eq!(trade.token_a_mint, s.mint);
    assert_eq!(trade.authority, s.alice);
    assert_eq!(trade.token_a_source, s.alice_token_a);
    assert_eq!(trade.token_a_destination, s.bob_token_a);
    assert_eq!(trade.token_b_destination, s.alice_token_b);
    assert_eq!(trade.token_a_to_send_amount, 100);
    assert_eq!(trade.token_b_request_amount, 50);
    assert_eq!(trade.phase, Phase::Created);
    assert_eq!(trade.id(), id);
}

#[test]
fn duplicate_initialize_fails_and_keeps_first_record() {
    let s = setup();
    let (mut store, id) = initialized(&s);
    let before = store.get(id).expect("record must exist");
    let ctx = InitializeAccounts {
        token_a_pda: s.holding,
        token_a_mint: s.mint,
        authority: s.alice,
    };
    // identical parameters derive the identical identity: create-once rejects
    let second = initialize_accounts(
        &ctx,
        &mut store,
        s.bob_token_a,
        s.alice_token_b,
        s.alice_token_a,
        100,
        50,
    );
    assert_eq!(second, Err(TradeError::DuplicateRecord));
    assert_eq!(store.len(), 1);
    assert_eq!(store.get(id), Some(before));
}

#[test]
fn distinct_parameters_create_distinct_records() {
    let s = setup();
    let (mut store, id) = initialized(&s);
    let ctx = InitializeAccounts {
        token_a_pda: s.holding,
        token_a_mint: s.mint,
        // a different authority derives a different identity
        authority: s.bob,
    };
    let second = initialize_accounts(
        &ctx,
        &mut store,
        s.bob_token_a,
        s.alice_token_b,
        s.alice_token_a,
        100,
        50,
    )
    .expect("a fresh identity must be accepted");
    assert_ne!(second, id);
    assert_eq!(store.len(), 2);
}

#[test]
fn start_issues_deposit_and_moves_to_started() {
    let s = setup();
    let (store, id) = initialized(&s);
    let trade = store.get(id).unwrap();
    let mut ctx = start_context(&s, trade);
    let instruction = start_trade(&mut ctx, 100).expect("matching amount must start the trade");
    assert_eq!(
        instruction,
        TransferInstruction {
            from: s.alice_token_a,
            to: s.holding,
            authority: TransferAuthority::Caller(s.alice),
            amount: 100,
        }
    );
    assert_eq!(ctx.trade.phase, Phase::Started);
}

#[test]
fn start_with_wrong_amount_fails_and_changes_nothing() {
    let s = setup();
    let (store, id) = initialized(&s);
    let trade = store.get(id).unwrap();
    let mut ctx = start_context(&s, trade);
    let r = start_trade(&mut ctx, 99);
    assert_eq!(
        r,
        Err(TradeError::AmountMismatch { expected: 100, actual: 99 })
    );
    assert_eq!(ctx.trade.phase, Phase::Created);
    assert_eq!(ctx.trade, trade);
}

#[test]
fn start_twice_fails_with_precondition_violation() {
    let s = setup();
    let (store, id) = initialized(&s);
    let trade = store.get(id).unwrap();
    let mut ctx = start_context(&s, trade);
    start_trade(&mut ctx, 100).expect("first start must succeed");
    let started = ctx.trade;
    let r = start_trade(&mut ctx, 100);
    assert_eq!(
        r,
        Err(TradeError::PreconditionViolation { phase: Phase::Started })
    );
    assert_eq!(ctx.trade, started);
}

#[test]
fn start_against_wrong_holding_fails_identity_check() {
    let s = setup();
    let (store, id) = initialized(&s);
    let trade = store.get(id).unwrap();
    let mut ctx = start_context(&s, trade);
    // an attacker-controlled holding account must be rejected
    ctx.token_a_pda_dest = account(99);
    let r = start_trade(&mut ctx, 100);
    assert_eq!(r, Err(TradeError::IdentityMismatch));
    assert_eq!(ctx.trade, trade);
}

#[test]
fn accept_issues_both_legs_and_completes() {
    let s = setup();
    let (store, id) = initialized(&s);
    let trade = store.get(id).unwrap();
    let mut start_ctx = start_context(&s, trade);
    start_trade(&mut start_ctx, 100).expect("start must succeed");

    let mut ctx = accept_context(&s, start_ctx.trade);
    let (token_a_leg, token_b_leg) =
        accept_trade(&mut ctx, 50).expect("matching amount must complete the trade");
    assert_eq!(
        token_a_leg,
        TransferInstruction {
            from: s.holding,
            to: s.bob_token_a,
            authority: TransferAuthority::Escrow(id),
            amount: 100,
        }
    );
    assert_eq!(
        token_b_leg,
        TransferInstruction {
            from: s.bob_token_b,
            to: s.alice_token_b,
            authority: TransferAuthority::Caller(s.bob),
            amount: 50,
        }
    );
    assert_eq!(ctx.trade.phase, Phase::Completed);
}

#[test]
fn accept_with_wrong_amount_fails_and_changes_nothing() {
    let s = setup();
    let (store, id) = initialized(&s);
    let trade = store.get(id).unwrap();
    let mut start_ctx = start_context(&s, trade);
    start_trade(&mut start_ctx, 100).expect("start must succeed");

    let mut ctx = accept_context(&s, start_ctx.trade);
    let r = accept_trade(&mut ctx, 49);
    assert_eq!(
        r,
        Err(TradeError::AmountMismatch { expected: 50, actual: 49 })
    );
    assert_eq!(ctx.trade.phase, Phase::Started);
}

#[test]
fn accept_before_start_fails_with_precondition_violation() {
    let s = setup();
    let (store, id) = initialized(&s);
    let trade = store.get(id).unwrap();
    let mut ctx = accept_context(&s, trade);
    let r = accept_trade(&mut ctx, 50);
    assert_eq!(
        r,
        Err(TradeError::PreconditionViolation { phase: Phase::Created })
    );
    assert_eq!(ctx.trade, trade);
}

#[test]
fn accept_with_wrong_destination_fails_identity_check() {
    let s = setup();
    let (store, id) = initialized(&s);
    let trade = store.get(id).unwrap();
    let mut start_ctx = start_context(&s, trade);
    start_trade(&mut start_ctx, 100).expect("start must succeed");

    let mut ctx = accept_context(&s, start_ctx.trade);
    // funds must not be redirected to an account other than the recorded one
    ctx.token_a_dest = account(99);
    let r = accept_trade(&mut ctx, 50);
    assert_eq!(r, Err(TradeError::IdentityMismatch));
    assert_eq!(ctx.trade.phase, Phase::Started);
}

#[test]
fn cancel_refunds_deposit_and_moves_to_cancelled() {
    let s = setup();
    let (store, id) = initialized(&s);
    let trade = store.get(id).unwrap();
    let mut start_ctx = start_context(&s, trade);
    start_trade(&mut start_ctx, 100).expect("start must succeed");

    let mut ctx = cancel_context(&s, start_ctx.trade);
    let instruction = cancel_trade(&mut ctx).expect("the authority may cancel a started trade");
    assert_eq!(
        instruction,
        TransferInstruction {
            from: s.holding,
            to: s.alice_token_a,
            authority: TransferAuthority::Escrow(id),
            amount: 100,
        }
    );
    assert_eq!(ctx.trade.phase, Phase::Cancelled);
}

#[test]
fn cancel_before_start_fails_nothing_in_custody() {
    let s = setup();
    let (store, id) = initialized(&s);
    let trade = store.get(id).unwrap();
    let mut ctx = cancel_context(&s, trade);
    let r = cancel_trade(&mut ctx);
    assert_eq!(
        r,
        Err(TradeError::PreconditionViolation { phase: Phase::Created })
    );
    assert_eq!(ctx.trade, trade);
}

#[test]
fn cancel_by_wrong_caller_fails_identity_check() {
    let s = setup();
    let (store, id) = initialized(&s);
    let trade = store.get(id).unwrap();
    let mut start_ctx = start_context(&s, trade);
    start_trade(&mut start_ctx, 100).expect("start must succeed");

    let mut ctx = cancel_context(&s, start_ctx.trade);
    // only the recorded authority may cancel
    ctx.authority = s.bob;
    let r = cancel_trade(&mut ctx);
    assert_eq!(r, Err(TradeError::IdentityMismatch));
    assert_eq!(ctx.trade.phase, Phase::Started);
}

#[test]
fn cancel_twice_fails_with_precondition_violation() {
    let s = setup();
    let (store, id) = initialized(&s);
    let trade = store.get(id).unwrap();
    let mut start_ctx = start_context(&s, trade);
    start_trade(&mut start_ctx, 100).expect("start must succeed");
    let mut ctx = cancel_context(&s, start_ctx.trade);
    cancel_trade(&mut ctx).expect("first cancel must succeed");
    let cancelled = ctx.trade;
    let r = cancel_trade(&mut ctx);
    assert_eq!(
        r,
        Err(TradeError::PreconditionViolation { phase: Phase::Cancelled })
    );
    assert_eq!(ctx.trade, cancelled);
}

#[test]
fn accept_after_cancel_fails_with_precondition_violation() {
    let s = setup();
    let (store, id) = initialized(&s);
    let trade = store.get(id).unwrap();
    let mut start_ctx = start_context(&s, trade);
    start_trade(&mut start_ctx, 100).expect("start must succeed");
    let mut cancel_ctx = cancel_context(&s, start_ctx.trade);
    cancel_trade(&mut cancel_ctx).expect("cancel must succeed");

    let mut ctx = accept_context(&s, cancel_ctx.trade);
    let r = accept_trade(&mut ctx, 50);
    assert_eq!(
        r,
        Err(TradeError::PreconditionViolation { phase: Phase::Cancelled })
    );
    assert_eq!(ctx.trade, cancel_ctx.trade);
}

#[test]
fn cancel_after_accept_fails_with_precondition_violation() {
    let s = setup();
    let (store, id) = initialized(&s);
    let trade = store.get(id).unwrap();
    let mut start_ctx = start_context(&s, trade);
    start_trade(&mut start_ctx, 100).expect("start must succeed");
    let mut accept_ctx = accept_context(&s, start_ctx.trade);
    accept_trade(&mut accept_ctx, 50).expect("accept must succeed");

    let mut ctx = cancel_context(&s, accept_ctx.trade);
    let r = cancel_trade(&mut ctx);
    assert_eq!(
        r,
        Err(TradeError::PreconditionViolation { phase: Phase::Completed })
    );
    assert_eq!(ctx.trade, accept_ctx.trade);
}

#[test]
fn full_trade_through_the_store() {
    let s = setup();
    let (mut store, id) = initialized(&s);

    // start against the stored record and commit the new phase
    let trade = store.get(id).unwrap();
    let mut start_ctx = start_context(&s, trade);
    start_trade(&mut start_ctx, 100).expect("start must succeed");
    assert!(store.set_phase(id, start_ctx.trade.phase));
    assert_eq!(store.get(id).unwrap().phase, Phase::Started);

    // accept against the stored record and commit the new phase
    let trade = store.get(id).unwrap();
    let mut accept_ctx = accept_context(&s, trade);
    accept_trade(&mut accept_ctx, 50).expect("accept must succeed");
    assert!(store.set_phase(id, accept_ctx.trade.phase));

    let done = store.get(id).unwrap();
    assert_eq!(done.phase, Phase::Completed);
    // the terms are exactly as recorded at creation
    assert_eq!(done.token_a_to_send_amount, 100);
    assert_eq!(done.token_b_request_amount, 50);
    assert_eq!(done.token_a_destination, s.bob_token_a);
    assert_eq!(done.token_b_destination, s.alice_token_b);
}
