use sync_stream::burst::BurstFlags;
use sync_stream::config::{Channel, Direction, Format, StreamConfig};
use sync_stream::scheduler::{
    Action, Event, Phase, Scheduler, Step, StreamError, TransferRequest, RX_TIMEOUT_MS,
    TX_TIMEOUT_MS,
};
use sync_stream::transfer::{
    Completion, TransferFailure, TransferResult, TransferStatus, META_STATUS_OVERRUN,
};

const RATE: u32 = 1_000_000;
const MARGIN: u64 = 250_000;
const INTERVAL: u64 = 5_000_000;

fn rx_config(frame_count: u32, iteration_count: u64) -> StreamConfig {
    StreamConfig::new(
        Direction::Rx,
        vec![Channel::Rx1],
        RATE,
        frame_count,
        iteration_count,
        Format::MetadataFramed,
        false,
    )
    .unwrap()
}

fn tx_config(frame_count: u32, iteration_count: u64) -> StreamConfig {
    StreamConfig::new(
        Direction::Tx,
        vec![Channel::Tx1],
        RATE,
        frame_count,
        iteration_count,
        Format::MetadataFramed,
        true,
    )
    .unwrap()
}

fn success(frame_count: u32, timestamp: u64) -> Event {
    Event::Transferred(Completion {
        status_code: 0,
        status_flags: 0,
        actual_count: frame_count,
        timestamp,
    })
}

fn overrun(actual_count: u32, timestamp: u64) -> Event {
    Event::Transferred(Completion {
        status_code: 0,
        status_flags: META_STATUS_OVERRUN,
        actual_count,
        timestamp,
    })
}

fn failure(status_code: i32, timestamp: u64) -> Event {
    Event::Transferred(Completion { status_code, status_flags: 0, actual_count: 0, timestamp })
}

fn scheduled(step: &Step) -> u64 {
    match step.action {
        Action::Transfer(request) => request.timestamp(),
        other => panic!("no transfer requested: {:?}", other),
    }
}

/// Starts a session and returns the timestamp of its first transfer.
fn begin(scheduler: &mut Scheduler, initial_timestamp: u64) -> u64 {
    assert_eq!(scheduler.step(Event::Start).action, Action::Configure);
    assert_eq!(scheduler.phase(), Phase::Configuring);
    let step = scheduler.step(Event::Configured { initial_timestamp });
    scheduled(&step)
}

#[test]
fn a_new_session_is_idle() {
    let config = rx_config(2_048, 5);
    let scheduler = Scheduler::new(&config, INTERVAL, MARGIN, false);
    assert_eq!(scheduler.phase(), Phase::Idle);
    assert_eq!(scheduler.transfers_issued(), 0);
    assert_eq!(scheduler.transfers_completed(), 0);
    assert_eq!(scheduler.fault(), None);
    assert!(scheduler.clock().is_none());
    assert_eq!(scheduler.config().frame_count(), 2_048);
}

#[test]
fn five_iterations_all_succeeding() {
    let config = rx_config(2_048, 5);
    let mut scheduler = Scheduler::new(&config, INTERVAL, MARGIN, false);
    let initial = 10_000;
    let mut timestamp = begin(&mut scheduler, initial);
    assert_eq!(timestamp, initial + MARGIN);
    let mut calls = 1;
    let mut successes = 0;
    loop {
        let step = scheduler.step(success(2_048, timestamp));
        assert_eq!(
            step.result,
            Some(TransferResult {
                status: TransferStatus::Success,
                actual_count: 2_048,
                timestamp
            })
        );
        successes += 1;
        match step.action {
            Action::Transfer(request) => {
                assert_eq!(request.timestamp(), timestamp + MARGIN);
                timestamp = request.timestamp();
                calls += 1;
            }
            Action::Finish => break,
            other => panic!("unexpected action {:?}", other),
        }
    }
    assert_eq!(calls, 5);
    assert_eq!(successes, 5);
    assert_eq!(scheduler.phase(), Phase::Stopped);
    assert_eq!(scheduler.fault(), None);
    assert_eq!(scheduler.transfers_issued(), 5);
    assert_eq!(scheduler.transfers_completed(), 5);
    assert_eq!(scheduler.clock().unwrap().current_timestamp(), initial + 5 * MARGIN);
}

#[test]
fn a_bounded_session_issues_exactly_its_budget() {
    for budget in [1u64, 2, 3, 17] {
        let config = tx_config(64, budget);
        let mut scheduler = Scheduler::new(&config, INTERVAL, MARGIN, false);
        let mut timestamp = begin(&mut scheduler, 0);
        let mut calls = 1;
        loop {
            match scheduler.step(success(64, timestamp)).action {
                Action::Transfer(request) => {
                    timestamp = request.timestamp();
                    calls += 1;
                }
                Action::Finish => break,
                other => panic!("unexpected action {:?}", other),
            }
        }
        assert_eq!(calls, budget);
        assert_eq!(scheduler.transfers_issued(), budget);
        assert_eq!(scheduler.phase(), Phase::Stopped);
    }
}

#[test]
fn a_session_without_budget_stops_before_any_transfer() {
    let config = rx_config(2_048, 0);
    let mut scheduler = Scheduler::new(&config, INTERVAL, MARGIN, false);
    assert_eq!(scheduler.step(Event::Start).action, Action::Configure);
    let step = scheduler.step(Event::Configured { initial_timestamp: 42 });
    assert_eq!(step, Step { result: None, action: Action::Finish });
    assert_eq!(scheduler.phase(), Phase::Stopped);
    assert_eq!(scheduler.transfers_issued(), 0);
    assert_eq!(scheduler.clock().unwrap().current_timestamp(), 42);
}

#[test]
fn the_third_call_failing_ends_the_session_after_three_calls() {
    let config = rx_config(2_048, 5);
    let mut scheduler = Scheduler::new(&config, INTERVAL, MARGIN, false);
    let first = begin(&mut scheduler, 0);
    let second = scheduled(&scheduler.step(success(2_048, first)));
    let third = scheduled(&scheduler.step(success(2_048, second)));
    let step = scheduler.step(failure(-5, third));
    let error = StreamError::Transfer(TransferFailure::Status(-5));
    assert_eq!(step.action, Action::Abort(error));
    assert_eq!(
        step.result,
        Some(TransferResult { status: TransferStatus::Error, actual_count: 0, timestamp: third })
    );
    assert_eq!(scheduler.phase(), Phase::Faulted);
    assert_eq!(scheduler.fault(), Some(error));
    assert_eq!(scheduler.transfers_issued(), 3);
    assert_eq!(scheduler.transfers_completed(), 2);
}

#[test]
fn the_first_call_failing_ends_the_session_after_one_call() {
    let config = tx_config(64, 5);
    let mut scheduler = Scheduler::new(&config, INTERVAL, MARGIN, false);
    let first = begin(&mut scheduler, 0);
    let step = scheduler.step(failure(-1, first));
    assert_eq!(step.action, Action::Abort(StreamError::Transfer(TransferFailure::Status(-1))));
    assert_eq!(scheduler.phase(), Phase::Faulted);
    assert_eq!(scheduler.transfers_issued(), 1);
    assert_eq!(scheduler.transfers_completed(), 0);
}

#[test]
fn the_last_call_failing_faults_instead_of_stopping() {
    let config = rx_config(16, 2);
    let mut scheduler = Scheduler::new(&config, INTERVAL, MARGIN, false);
    let first = begin(&mut scheduler, 0);
    let second = scheduled(&scheduler.step(success(16, first)));
    let step = scheduler.step(failure(-7, second));
    assert_eq!(step.action, Action::Abort(StreamError::Transfer(TransferFailure::Status(-7))));
    assert_eq!(scheduler.phase(), Phase::Faulted);
    assert_eq!(scheduler.transfers_issued(), 2);
}

#[test]
fn a_timeout_is_a_fatal_transfer_failure() {
    let config = rx_config(2_048, 5);
    let mut scheduler = Scheduler::new(&config, INTERVAL, MARGIN, false);
    let first = begin(&mut scheduler, 0);
    let step = scheduler.step(failure(-6, first));
    assert_eq!(step.action, Action::Abort(StreamError::Transfer(TransferFailure::Timeout)));
    assert_eq!(scheduler.fault(), Some(StreamError::Transfer(TransferFailure::Timeout)));
    assert_eq!(scheduler.phase(), Phase::Faulted);
}

#[test]
fn a_failed_call_leaves_the_clock_alone() {
    let config = rx_config(2_048, 5);
    let mut scheduler = Scheduler::new(&config, INTERVAL, MARGIN, false);
    let first = begin(&mut scheduler, 1_000);
    scheduler.step(failure(-1, 999_999));
    let clock = scheduler.clock().unwrap();
    assert_eq!(clock.current_timestamp(), first);
    assert_eq!(clock.next_resync(), 1_000 + INTERVAL);
}

#[test]
fn an_overrun_advances_the_loop_as_a_success_does() {
    let config = rx_config(2_048, 5);
    let mut with_overrun = Scheduler::new(&config, INTERVAL, MARGIN, false);
    let mut without = Scheduler::new(&config, INTERVAL, MARGIN, false);
    let first = begin(&mut with_overrun, 500);
    assert_eq!(begin(&mut without, 500), first);

    let short = with_overrun.step(overrun(100, first));
    let full = without.step(success(2_048, first));
    assert_eq!(
        short.result,
        Some(TransferResult { status: TransferStatus::Overrun, actual_count: 100, timestamp: first })
    );
    assert_eq!(short.action, full.action);
    assert_eq!(scheduled(&short), first + MARGIN);
    assert_eq!(with_overrun.phase(), Phase::Streaming);
    assert_eq!(with_overrun.fault(), None);
    assert_eq!(with_overrun.transfers_issued(), without.transfers_issued());
    assert_eq!(with_overrun.transfers_completed(), without.transfers_completed());
    assert_eq!(
        with_overrun.clock().unwrap().current_timestamp(),
        without.clock().unwrap().current_timestamp()
    );
    assert_eq!(
        with_overrun.clock().unwrap().next_resync(),
        without.clock().unwrap().next_resync()
    );
}

#[test]
fn a_session_of_overruns_still_spends_its_whole_budget() {
    let config = rx_config(2_048, 4);
    let mut scheduler = Scheduler::new(&config, INTERVAL, MARGIN, false);
    let mut timestamp = begin(&mut scheduler, 0);
    let mut calls = 1;
    loop {
        let step = scheduler.step(overrun(10, timestamp));
        assert_eq!(step.result.unwrap().status, TransferStatus::Overrun);
        match step.action {
            Action::Transfer(request) => {
                timestamp = request.timestamp();
                calls += 1;
            }
            Action::Finish => break,
            other => panic!("unexpected action {:?}", other),
        }
    }
    assert_eq!(calls, 4);
    assert_eq!(scheduler.phase(), Phase::Stopped);
    assert_eq!(scheduler.transfers_completed(), 4);
}

#[test]
fn receive_requests_carry_frame_count_and_timeout() {
    let config = rx_config(2_048, 5);
    let mut scheduler = Scheduler::new(&config, INTERVAL, MARGIN, false);
    scheduler.step(Event::Start);
    let step = scheduler.step(Event::Configured { initial_timestamp: 7 });
    assert_eq!(
        step.action,
        Action::Transfer(TransferRequest::Receive {
            timestamp: 7 + MARGIN,
            frame_count: 2_048,
            timeout_ms: 10_000
        })
    );
    assert_eq!(RX_TIMEOUT_MS, 10_000);
    assert_eq!(step.result, None);
}

#[test]
fn transmit_requests_are_framed_as_whole_bursts() {
    let config = tx_config(200_000, 80);
    let mut scheduler = Scheduler::new(&config, INTERVAL, MARGIN, false);
    scheduler.step(Event::Start);
    let step = scheduler.step(Event::Configured { initial_timestamp: 7 });
    assert_eq!(
        step.action,
        Action::Transfer(TransferRequest::Transmit {
            timestamp: 7 + MARGIN,
            frame_count: 200_000,
            flags: BurstFlags { start: true, end: true },
            timeout_ms: 1_000
        })
    );
    assert_eq!(TX_TIMEOUT_MS, 1_000);
    let next = scheduler.step(success(200_000, 7 + MARGIN));
    match next.action {
        Action::Transfer(TransferRequest::Transmit { flags, .. }) => {
            assert!(flags.start && flags.end)
        }
        other => panic!("unexpected action {:?}", other),
    }
}

#[test]
fn the_schedule_snaps_to_the_resync_point_and_moves_it_on() {
    // interval 1_000_000, margin 250_000, rate 500_000: window 750_000
    let config = StreamConfig::new(
        Direction::Rx,
        vec![Channel::Rx1],
        500_000,
        16,
        10,
        Format::MetadataFramed,
        false,
    )
    .unwrap();
    let mut scheduler = Scheduler::new(&config, 1_000_000, 250_000, false);
    let first = begin(&mut scheduler, 0);
    assert_eq!(first, 250_000); // gap 1_000_000 > 750_000
    let second = scheduled(&scheduler.step(success(16, first)));
    assert_eq!(second, 1_000_000); // gap 750_000: due
    assert_eq!(scheduler.clock().unwrap().next_resync(), 1_000_000);
    let third = scheduled(&scheduler.step(success(16, second)));
    assert_eq!(scheduler.clock().unwrap().next_resync(), 2_000_000);
    assert_eq!(third, 1_250_000);
    let fourth = scheduled(&scheduler.step(success(16, third)));
    assert_eq!(fourth, 2_000_000);
}

#[test]
fn a_failed_setup_faults_the_session() {
    let config = rx_config(2_048, 5);
    let mut scheduler = Scheduler::new(&config, INTERVAL, MARGIN, false);
    scheduler.step(Event::Start);
    let step = scheduler.step(Event::ConfigurationFailed);
    assert_eq!(step, Step { result: None, action: Action::Abort(StreamError::Configuration) });
    assert_eq!(scheduler.phase(), Phase::Faulted);
    assert_eq!(scheduler.fault(), Some(StreamError::Configuration));
    assert_eq!(scheduler.transfers_issued(), 0);
}

#[test]
fn a_stop_request_ends_a_streaming_session() {
    let config = rx_config(2_048, 5);
    let mut scheduler = Scheduler::new(&config, INTERVAL, MARGIN, true);
    let first = begin(&mut scheduler, 0);
    scheduler.step(success(2_048, first));
    let step = scheduler.step(Event::StopRequested);
    assert_eq!(step, Step { result: None, action: Action::Finish });
    assert_eq!(scheduler.phase(), Phase::Stopped);
    assert_eq!(scheduler.fault(), None);
}

#[test]
fn an_unbounded_session_outlives_its_iteration_count() {
    let config = rx_config(2_048, 2);
    let mut scheduler = Scheduler::new(&config, INTERVAL, MARGIN, true);
    let mut timestamp = begin(&mut scheduler, 0);
    for _ in 0..50 {
        timestamp = scheduled(&scheduler.step(success(2_048, timestamp)));
    }
    assert_eq!(scheduler.phase(), Phase::Streaming);
    assert_eq!(scheduler.transfers_issued(), 51);
    assert_eq!(scheduler.transfers_completed(), 50);
    assert_eq!(
        scheduler.step(failure(-1, timestamp)).action,
        Action::Abort(StreamError::Transfer(TransferFailure::Status(-1)))
    );
    assert_eq!(scheduler.transfers_issued(), 51);
}

#[test]
fn events_out_of_place_are_ignored() {
    let config = rx_config(2_048, 5);
    let mut scheduler = Scheduler::new(&config, INTERVAL, MARGIN, false);
    let ignored = Step { result: None, action: Action::Ignore };
    assert_eq!(scheduler.step(success(2_048, 0)), ignored);
    assert_eq!(scheduler.step(Event::Configured { initial_timestamp: 0 }), ignored);
    assert_eq!(scheduler.step(Event::ConfigurationFailed), ignored);
    assert_eq!(scheduler.step(Event::StopRequested), ignored);
    assert_eq!(scheduler.phase(), Phase::Idle);

    scheduler.step(Event::Start);
    assert_eq!(scheduler.step(Event::Start), ignored);
    assert_eq!(scheduler.step(success(2_048, 0)), ignored);
    assert_eq!(scheduler.step(Event::StopRequested), ignored);
    assert_eq!(scheduler.phase(), Phase::Configuring);

    let first = scheduled(&scheduler.step(Event::Configured { initial_timestamp: 0 }));
    assert_eq!(scheduler.step(Event::Start), ignored);
    assert_eq!(scheduler.step(Event::Configured { initial_timestamp: 9 }), ignored);
    assert_eq!(scheduler.step(Event::ConfigurationFailed), ignored);
    assert_eq!(scheduler.phase(), Phase::Streaming);
    assert_eq!(scheduler.clock().unwrap().current_timestamp(), first);
    assert_eq!(scheduler.transfers_issued(), 1);
}

#[test]
fn an_ended_session_answers_nothing() {
    let config = rx_config(2_048, 1);
    let mut scheduler = Scheduler::new(&config, INTERVAL, MARGIN, false);
    let first = begin(&mut scheduler, 0);
    assert_eq!(scheduler.step(success(2_048, first)).action, Action::Finish);
    let ignored = Step { result: None, action: Action::Ignore };
    for event in [
        Event::Start,
        Event::Configured { initial_timestamp: 0 },
        Event::ConfigurationFailed,
        success(2_048, first),
        failure(-1, first),
        Event::StopRequested,
    ] {
        assert_eq!(scheduler.step(event), ignored);
        assert_eq!(scheduler.phase(), Phase::Stopped);
        assert_eq!(scheduler.transfers_issued(), 1);
    }

    let mut faulted = Scheduler::new(&config, INTERVAL, MARGIN, false);
    let first = begin(&mut faulted, 0);
    faulted.step(failure(-1, first));
    for event in [Event::Start, success(2_048, first), Event::StopRequested] {
        assert_eq!(faulted.step(event), ignored);
        assert_eq!(faulted.phase(), Phase::Faulted);
    }
}

#[test]
fn can_step_refuses_what_does_not_fit_the_counter() {
    let config = rx_config(2_048, 5);
    let mut scheduler = Scheduler::new(&config, 10, 1, false);
    scheduler.step(Event::Start);
    let late = Event::Configured { initial_timestamp: u64::MAX - 5 };
    assert!(!scheduler.can_step(&late));
    assert_eq!(scheduler.try_step(late), None);
    assert_eq!(scheduler.phase(), Phase::Configuring);

    let in_time = Event::Configured { initial_timestamp: u64::MAX - 10 };
    assert!(scheduler.can_step(&in_time));
    let step = scheduler.try_step(in_time).unwrap();
    assert_eq!(scheduled(&step), u64::MAX);
    // the resync point is the last timestamp there is: it cannot move on
    assert!(!scheduler.can_step(&success(2_048, u64::MAX)));
    assert_eq!(scheduler.try_step(success(2_048, u64::MAX)), None);
    assert_eq!(scheduler.phase(), Phase::Streaming);
    assert_eq!(scheduler.transfers_completed(), 0);
    // a failure needs no room
    assert!(scheduler.can_step(&failure(-1, u64::MAX)));
    // nor does a report that is off the resync point
    assert!(scheduler.can_step(&success(2_048, u64::MAX - 1)));
}

#[test]
fn try_step_answers_as_step_does() {
    let config = tx_config(64, 2);
    let mut stepped = Scheduler::new(&config, INTERVAL, MARGIN, false);
    let mut tried = Scheduler::new(&config, INTERVAL, MARGIN, false);
    let first = begin(&mut stepped, 100);
    assert_eq!(tried.try_step(Event::Start).unwrap().action, Action::Configure);
    let step = tried.try_step(Event::Configured { initial_timestamp: 100 }).unwrap();
    assert_eq!(scheduled(&step), first);
    assert_eq!(tried.try_step(success(64, first)), Some(stepped.step(success(64, first))));
    assert_eq!(tried.phase(), stepped.phase());
    assert_eq!(tried.transfers_issued(), 2);
}
