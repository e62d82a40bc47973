use stream_core::ledger::StreamService;
use stream_core::types::{ActorId, CustodyOutcome, CustodyRequest, StreamError, StreamStatus};

const OK: CustodyOutcome = CustodyOutcome::Succeeded;

fn admin() -> ActorId {
    ActorId([9u8; 32])
}

fn alice() -> ActorId {
    ActorId([1u8; 32])
}

fn bob() -> ActorId {
    ActorId([2u8; 32])
}

fn carol() -> ActorId {
    ActorId([3u8; 32])
}

fn token() -> ActorId {
    ActorId([7u8; 32])
}

fn ledger() -> StreamService {
    StreamService::new(admin(), 3600)
}

/// A ledger with one stream from alice to bob created at `t = 0`.
fn ledger_with_stream(flow_rate: u128, deposit: u128) -> StreamService {
    let mut svc = StreamService::new(admin(), 0);
    assert_eq!(svc.create_stream(alice(), 0, bob(), token(), flow_rate, deposit, OK), Ok(1));
    svc
}

fn assert_counters_ordered(svc: &StreamService) {
    for id in 1..=svc.total_streams() {
        let s = svc.get_stream(id).unwrap();
        assert!(s.withdrawn <= s.streamed && s.streamed <= s.deposited);
    }
}

#[test]
fn create_accepts_deposit_equal_to_minimum_buffer() {
    let mut svc = ledger();
    assert_eq!(svc.create_stream(alice(), 0, bob(), token(), 10, 36_000, OK), Ok(1));
    let s = svc.get_stream(1).unwrap();
    assert_eq!(s.status, StreamStatus::Active);
    assert_eq!(s.deposited, 36_000);
    assert_eq!(s.flow_rate, 10);
}

#[test]
fn create_rejects_deposit_below_minimum_buffer() {
    let mut svc = ledger();
    assert_eq!(
        svc.create_stream(alice(), 0, bob(), token(), 10, 35_999, OK),
        Err(StreamError::InvalidArgument)
    );
    assert_eq!(svc.total_streams(), 0);
}

#[test]
fn create_rejects_zero_rate_and_self_stream() {
    let mut svc = ledger();
    assert_eq!(
        svc.create_stream(alice(), 0, bob(), token(), 0, 36_000, OK),
        Err(StreamError::InvalidArgument)
    );
    assert_eq!(
        svc.create_stream(alice(), 0, alice(), token(), 10, 36_000, OK),
        Err(StreamError::InvalidArgument)
    );
    assert_eq!(svc.total_streams(), 0);
    assert_eq!(svc.get_config().next_stream_id, 1);
}

#[test]
fn create_fails_atomically_when_custody_fails() {
    let mut svc = ledger();
    assert_eq!(
        svc.create_stream(alice(), 0, bob(), token(), 10, 36_000, CustodyOutcome::Failed),
        Err(StreamError::CustodyFailure)
    );
    assert_eq!(svc.total_streams(), 0);
    assert_eq!(svc.active_streams(), 0);
    assert_eq!(svc.get_config().next_stream_id, 1);
}

#[test]
fn create_assigns_sequential_ids_and_indexes_parties() {
    let mut svc = ledger();
    assert_eq!(svc.create_stream(alice(), 0, bob(), token(), 1, 3600, OK), Ok(1));
    assert_eq!(svc.create_stream(bob(), 5, carol(), token(), 1, 3600, OK), Ok(2));
    assert_eq!(svc.create_stream(alice(), 9, carol(), token(), 1, 3600, OK), Ok(3));
    assert_eq!(svc.total_streams(), 3);
    assert_eq!(svc.active_streams(), 3);
    assert_eq!(svc.get_sender_streams(alice()), vec![1, 3]);
    assert_eq!(svc.get_sender_streams(bob()), vec![2]);
    assert_eq!(svc.get_sender_streams(carol()), Vec::<u64>::new());
    assert_eq!(svc.get_receiver_streams(carol()), vec![2, 3]);
    assert_eq!(svc.get_receiver_streams(bob()), vec![1]);
    assert_eq!(svc.get_config().next_stream_id, 4);
    let s = svc.get_stream(2).unwrap();
    assert_eq!(s.start_time, 5);
    assert_eq!(s.last_update, 5);
}

#[test]
fn plan_create_names_the_allocation() {
    let svc = ledger();
    match svc.plan_create_stream(alice(), bob(), token(), 10, 36_000) {
        Ok(CustodyRequest::Allocate { owner, token: t, amount, stream_id }) => {
            assert_eq!(owner, alice());
            assert_eq!(t, token());
            assert_eq!(amount, 36_000);
            assert_eq!(stream_id, 1);
        }
        other => panic!("unexpected plan {:?}", other),
    }
    assert!(matches!(
        svc.plan_create_stream(alice(), bob(), token(), 10, 35_999),
        Err(StreamError::InvalidArgument)
    ));
}

#[test]
fn withdraw_pays_accrued_flow_then_nothing_more() {
    let mut svc = ledger_with_stream(5, 10_000);
    assert_eq!(svc.get_withdrawable_balance(1, 100), 500);
    assert_eq!(svc.withdraw(bob(), 100, 1, OK), Ok(500));
    assert_eq!(svc.withdraw(bob(), 100, 1, OK), Err(StreamError::NothingToWithdraw));
    let s = svc.get_stream(1).unwrap();
    assert_eq!(s.withdrawn, 500);
    assert_eq!(s.streamed, 500);
    assert_eq!(s.last_update, 100);
}

#[test]
fn plan_withdraw_names_the_transfer() {
    let svc = ledger_with_stream(5, 10_000);
    match svc.plan_withdraw(bob(), 100, 1) {
        Ok(CustodyRequest::TransferToReceiver { token: t, receiver, amount, stream_id }) => {
            assert_eq!(t, token());
            assert_eq!(receiver, bob());
            assert_eq!(amount, 500);
            assert_eq!(stream_id, 1);
        }
        other => panic!("unexpected plan {:?}", other),
    }
    assert!(matches!(svc.plan_withdraw(alice(), 100, 1), Err(StreamError::Unauthorized)));
    assert!(matches!(svc.plan_withdraw(bob(), 0, 1), Err(StreamError::NothingToWithdraw)));
    assert!(matches!(svc.plan_withdraw(bob(), 100, 2), Err(StreamError::NotFound)));
}

#[test]
fn withdraw_caps_at_deposit() {
    let mut svc = ledger_with_stream(5, 1000);
    assert_eq!(svc.get_withdrawable_balance(1, 250), 1000);
    assert_eq!(svc.withdraw(bob(), 250, 1, OK), Ok(1000));
    assert_eq!(svc.get_remaining_buffer(1, 250), 0);
    assert_counters_ordered(&svc);
}

#[test]
fn withdraw_by_non_receiver_is_unauthorized() {
    let mut svc = ledger_with_stream(5, 1000);
    assert_eq!(svc.withdraw(alice(), 100, 1, OK), Err(StreamError::Unauthorized));
    assert_eq!(svc.get_stream(1).unwrap().last_update, 0);
}

#[test]
fn withdraw_fails_atomically_when_custody_fails() {
    let mut svc = ledger_with_stream(5, 1000);
    assert_eq!(svc.withdraw(bob(), 100, 1, CustodyOutcome::Failed), Err(StreamError::CustodyFailure));
    let s = svc.get_stream(1).unwrap();
    assert_eq!(s.streamed, 0);
    assert_eq!(s.withdrawn, 0);
    assert_eq!(s.last_update, 0);
}

#[test]
fn withdraw_from_stopped_stream_pays_what_was_settled() {
    let mut svc = ledger_with_stream(5, 1000);
    assert_eq!(svc.stop_stream(alice(), 40, 1), Ok(()));
    assert_eq!(svc.withdraw(bob(), 500, 1, OK), Ok(200));
}

#[test]
fn unknown_stream_is_not_found() {
    let mut svc = ledger();
    assert_eq!(svc.update_stream(alice(), 0, 1, 5), Err(StreamError::NotFound));
    assert_eq!(svc.pause_stream(alice(), 0, 1), Err(StreamError::NotFound));
    assert_eq!(svc.resume_stream(alice(), 0, 1), Err(StreamError::NotFound));
    assert_eq!(svc.stop_stream(alice(), 0, 1), Err(StreamError::NotFound));
    assert_eq!(svc.deposit(alice(), 1, 5), Err(StreamError::NotFound));
    assert_eq!(svc.withdraw(bob(), 0, 1, OK), Err(StreamError::NotFound));
    assert_eq!(svc.liquidate(0, 1), Err(StreamError::NotFound));
    assert_eq!(svc.liquidate(0, 0), Err(StreamError::NotFound));
    assert!(svc.get_stream(1).is_none());
    assert_eq!(svc.get_withdrawable_balance(1, 10), 0);
    assert_eq!(svc.get_remaining_buffer(1, 10), 0);
}

#[test]
fn update_by_non_sender_is_unauthorized() {
    let mut svc = ledger_with_stream(5, 1000);
    assert_eq!(svc.update_stream(bob(), 10, 1, 7), Err(StreamError::Unauthorized));
    assert_eq!(svc.get_stream(1).unwrap().flow_rate, 5);
}

#[test]
fn update_of_stopped_stream_is_invalid_state() {
    let mut svc = ledger_with_stream(5, 1000);
    assert_eq!(svc.stop_stream(alice(), 10, 1), Ok(()));
    assert_eq!(svc.update_stream(alice(), 20, 1, 7), Err(StreamError::InvalidState));
}

#[test]
fn update_to_zero_rate_is_invalid_argument() {
    let mut svc = ledger_with_stream(5, 1000);
    assert_eq!(svc.update_stream(alice(), 10, 1, 0), Err(StreamError::InvalidArgument));
}

#[test]
fn update_settles_before_changing_rate() {
    let mut svc = ledger_with_stream(5, 10_000);
    assert_eq!(svc.update_stream(alice(), 10, 1, 20), Ok(()));
    let s = svc.get_stream(1).unwrap();
    assert_eq!(s.streamed, 50);
    assert_eq!(s.last_update, 10);
    assert_eq!(s.flow_rate, 20);
    assert_eq!(svc.get_withdrawable_balance(1, 15), 150);
}

#[test]
fn pause_then_resume_accrues_nothing_for_the_pause() {
    let mut svc = ledger_with_stream(5, 10_000);
    assert_eq!(svc.pause_stream(alice(), 100, 1), Ok(()));
    assert_eq!(svc.active_streams(), 0);
    let paused = svc.get_stream(1).unwrap();
    assert_eq!(paused.status, StreamStatus::Paused);
    assert_eq!(paused.streamed, 500);
    assert_eq!(svc.get_withdrawable_balance(1, 900), 500);
    assert_eq!(svc.resume_stream(alice(), 1000, 1), Ok(()));
    assert_eq!(svc.active_streams(), 1);
    let resumed = svc.get_stream(1).unwrap();
    assert_eq!(resumed.status, StreamStatus::Active);
    assert_eq!(resumed.streamed, 500);
    assert_eq!(resumed.deposited, paused.deposited);
    assert_eq!(resumed.withdrawn, paused.withdrawn);
    assert_eq!(resumed.last_update, 1000);
    assert_eq!(svc.get_withdrawable_balance(1, 1000), 500);
    assert_eq!(svc.get_withdrawable_balance(1, 1010), 550);
}

#[test]
fn pause_requires_active_and_resume_requires_paused() {
    let mut svc = ledger_with_stream(5, 10_000);
    assert_eq!(svc.resume_stream(alice(), 1, 1), Err(StreamError::InvalidState));
    assert_eq!(svc.pause_stream(bob(), 1, 1), Err(StreamError::Unauthorized));
    assert_eq!(svc.pause_stream(alice(), 1, 1), Ok(()));
    assert_eq!(svc.pause_stream(alice(), 2, 1), Err(StreamError::InvalidState));
    assert_eq!(svc.resume_stream(bob(), 3, 1), Err(StreamError::Unauthorized));
}

#[test]
fn stop_is_terminal() {
    let mut svc = ledger_with_stream(5, 10_000);
    assert_eq!(svc.stop_stream(bob(), 10, 1), Err(StreamError::Unauthorized));
    assert_eq!(svc.stop_stream(alice(), 10, 1), Ok(()));
    let s = svc.get_stream(1).unwrap();
    assert_eq!(s.status, StreamStatus::Stopped);
    assert_eq!(s.flow_rate, 0);
    assert_eq!(s.streamed, 50);
    assert_eq!(svc.active_streams(), 0);
    assert_eq!(svc.stop_stream(alice(), 20, 1), Err(StreamError::InvalidState));
    assert_eq!(svc.resume_stream(alice(), 20, 1), Err(StreamError::InvalidState));
    assert_eq!(svc.pause_stream(alice(), 20, 1), Err(StreamError::InvalidState));
    assert_eq!(svc.deposit(alice(), 1, 10), Err(StreamError::InvalidState));
    assert_eq!(svc.get_withdrawable_balance(1, 10_000), 50);
}

#[test]
fn stopping_a_paused_stream_keeps_the_active_count() {
    let mut svc = ledger_with_stream(5, 10_000);
    assert_eq!(svc.create_stream(alice(), 0, carol(), token(), 5, 10_000, OK), Ok(2));
    assert_eq!(svc.pause_stream(alice(), 10, 1), Ok(()));
    assert_eq!(svc.active_streams(), 1);
    assert_eq!(svc.stop_stream(alice(), 20, 1), Ok(()));
    assert_eq!(svc.active_streams(), 1);
    assert_eq!(svc.stop_stream(alice(), 20, 2), Ok(()));
    assert_eq!(svc.active_streams(), 0);
}

#[test]
fn deposit_adds_collateral() {
    let mut svc = ledger_with_stream(5, 1000);
    assert_eq!(svc.deposit(bob(), 1, 10), Err(StreamError::Unauthorized));
    assert_eq!(svc.deposit(alice(), 1, 0), Err(StreamError::InvalidArgument));
    assert_eq!(svc.deposit(alice(), 1, 500), Ok(()));
    assert_eq!(svc.get_stream(1).unwrap().deposited, 1500);
    assert_eq!(svc.get_withdrawable_balance(1, 300), 1500);
}

#[test]
fn deposit_saturates() {
    let mut svc = ledger_with_stream(1, u128::MAX - 5);
    assert_eq!(svc.deposit(alice(), 1, 100), Ok(()));
    assert_eq!(svc.get_stream(1).unwrap().deposited, u128::MAX);
}

#[test]
fn liquidate_pauses_an_underfunded_stream() {
    let mut svc = ledger();
    assert_eq!(svc.create_stream(alice(), 0, bob(), token(), 10, 36_000, OK), Ok(1));
    assert_eq!(svc.liquidate(0, 1), Err(StreamError::NotEligibleForLiquidation));
    assert_eq!(svc.get_remaining_buffer(1, 600), 30_000);
    assert_eq!(svc.liquidate(600, 1), Ok(()));
    let s = svc.get_stream(1).unwrap();
    assert_eq!(s.status, StreamStatus::Paused);
    assert_eq!(s.streamed, 6000);
    assert_eq!(s.last_update, 600);
    assert_eq!(svc.active_streams(), 0);
    assert_eq!(svc.liquidate(700, 1), Err(StreamError::NotEligibleForLiquidation));
}

#[test]
fn liquidate_refused_while_buffer_covers_minimum() {
    let mut svc = ledger();
    assert_eq!(svc.create_stream(alice(), 0, bob(), token(), 10, 100_000, OK), Ok(1));
    for t in [0u64, 1000, 5000, 6400] {
        assert!(svc.get_remaining_buffer(1, t) >= 10 * 3600);
        assert_eq!(svc.liquidate(t, 1), Err(StreamError::NotEligibleForLiquidation));
    }
    assert_eq!(svc.liquidate(6401, 1), Ok(()));
}

#[test]
fn liquidated_stream_can_be_resumed_by_sender() {
    let mut svc = ledger();
    assert_eq!(svc.create_stream(alice(), 0, bob(), token(), 10, 36_000, OK), Ok(1));
    assert_eq!(svc.liquidate(600, 1), Ok(()));
    assert_eq!(svc.resume_stream(alice(), 700, 1), Ok(()));
    assert_eq!(svc.active_streams(), 1);
    assert_eq!(svc.get_stream(1).unwrap().streamed, 6000);
}

#[test]
fn set_token_vault_is_admin_only() {
    let mut svc = ledger();
    assert_eq!(svc.get_config().token_vault, ActorId::zero());
    assert_eq!(svc.set_token_vault(alice(), carol()), Err(StreamError::Unauthorized));
    assert_eq!(svc.get_config().token_vault, ActorId::zero());
    assert_eq!(svc.set_token_vault(admin(), carol()), Ok(()));
    let cfg = svc.get_config();
    assert_eq!(cfg.token_vault, carol());
    assert_eq!(cfg.admin, admin());
    assert_eq!(cfg.min_buffer_seconds, 3600);
}

#[test]
fn counters_stay_ordered_and_grow_over_a_mixed_sequence() {
    let mut svc = StreamService::new(admin(), 10);
    assert_eq!(svc.create_stream(alice(), 0, bob(), token(), 3, 100, OK), Ok(1));
    assert_eq!(svc.create_stream(bob(), 0, carol(), token(), 2, 1000, OK), Ok(2));
    let mut last = vec![(0u128, 0u128, 0u128); 2];
    let steps: Vec<(u64, u8)> = vec![
        (5, 0), (10, 1), (12, 2), (20, 3), (25, 4), (30, 0), (40, 5), (41, 6), (60, 0), (90, 7), (120, 1),
        (130, 0), (200, 5),
    ];
    for (t, op) in steps {
        let _ = match op {
            0 => svc.withdraw(bob(), t, 1, OK).map(|_| ()),
            1 => svc.withdraw(carol(), t, 2, OK).map(|_| ()),
            2 => svc.pause_stream(alice(), t, 1),
            3 => svc.resume_stream(alice(), t, 1),
            4 => svc.update_stream(alice(), t, 1, 9),
            5 => svc.liquidate(t, 1),
            6 => svc.deposit(alice(), 1, 50),
            _ => svc.stop_stream(bob(), t, 2),
        };
        assert_counters_ordered(&svc);
        for id in 1..=2u64 {
            let s = svc.get_stream(id).unwrap();
            let prev = last[(id - 1) as usize];
            assert!(s.streamed >= prev.0 && s.withdrawn >= prev.1 && s.deposited >= prev.2);
            last[(id - 1) as usize] = (s.streamed, s.withdrawn, s.deposited);
        }
    }
}
