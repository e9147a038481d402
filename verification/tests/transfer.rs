use sync_stream::burst::{BurstFlags, META_FLAG_TX_BURST_END, META_FLAG_TX_BURST_START};
use sync_stream::config::Direction;
use sync_stream::transfer::{
    failure_of, interpret, overrun_flagged, Completion, TransferFailure, TransferResult,
    TransferStatus, ERR_TIMEOUT, META_STATUS_OVERRUN,
};

fn completion(status_code: i32, status_flags: u32, actual_count: u32, timestamp: u64) -> Completion {
    Completion { status_code, status_flags, actual_count, timestamp }
}

#[test]
fn interpret_reads_a_full_success() {
    let result = interpret(completion(0, 0, 2_048, 77), 2_048);
    assert_eq!(
        result,
        TransferResult { status: TransferStatus::Success, actual_count: 2_048, timestamp: 77 }
    );
}

#[test]
fn interpret_counts_the_whole_request_on_success() {
    // without the overrun flag the request is valid in full, whatever the count says
    let result = interpret(completion(0, 0, 5, 1), 2_048);
    assert_eq!(result.status, TransferStatus::Success);
    assert_eq!(result.actual_count, 2_048);
}

#[test]
fn interpret_reads_an_overrun_as_a_partial_fill() {
    let result = interpret(completion(0, META_STATUS_OVERRUN, 100, 9), 2_048);
    assert_eq!(
        result,
        TransferResult { status: TransferStatus::Overrun, actual_count: 100, timestamp: 9 }
    );
}

#[test]
fn interpret_caps_an_overrun_at_the_request() {
    let result = interpret(completion(0, 1, 5_000, 9), 2_048);
    assert_eq!(result.status, TransferStatus::Overrun);
    assert_eq!(result.actual_count, 2_048);
}

#[test]
fn interpret_looks_at_the_overrun_bit_only() {
    assert_eq!(interpret(completion(0, 2, 100, 0), 2_048).status, TransferStatus::Success);
    assert_eq!(interpret(completion(0, 3, 100, 0), 2_048).status, TransferStatus::Overrun);
    assert_eq!(interpret(completion(0, u32::MAX, 100, 0), 2_048).status, TransferStatus::Overrun);
    assert_eq!(interpret(completion(0, u32::MAX - 1, 100, 0), 2_048).status, TransferStatus::Success);
}

#[test]
fn interpret_reads_a_failed_call_as_an_error_without_samples() {
    let result = interpret(completion(-1, META_STATUS_OVERRUN, 2_048, 5), 2_048);
    assert_eq!(
        result,
        TransferResult { status: TransferStatus::Error, actual_count: 0, timestamp: 5 }
    );
    assert_eq!(interpret(completion(1, 0, 2_048, 5), 2_048).status, TransferStatus::Error);
}

#[test]
fn overrun_flagged_tests_the_lowest_bit() {
    assert!(!overrun_flagged(0));
    assert!(overrun_flagged(1));
    assert!(!overrun_flagged(2));
    assert!(overrun_flagged(0x8000_0001));
}

#[test]
fn failure_of_tells_a_timeout_from_other_failures() {
    assert_eq!(failure_of(completion(0, 0, 0, 0)), None);
    assert_eq!(failure_of(completion(ERR_TIMEOUT, 0, 0, 0)), Some(TransferFailure::Timeout));
    assert_eq!(failure_of(completion(-6, 0, 0, 0)), Some(TransferFailure::Timeout));
    assert_eq!(failure_of(completion(-5, 0, 0, 0)), Some(TransferFailure::Status(-5)));
    assert_eq!(failure_of(completion(6, 0, 0, 0)), Some(TransferFailure::Status(6)));
}

#[test]
fn every_transmit_transfer_is_a_whole_burst() {
    let flags = BurstFlags::frame(Direction::Tx).unwrap();
    assert!(flags.start);
    assert!(flags.end);
    assert_eq!(flags, BurstFlags::complete());
}

#[test]
fn receive_transfers_carry_no_burst_flags() {
    assert_eq!(BurstFlags::frame(Direction::Rx), None);
}

#[test]
fn burst_flags_encode_as_start_and_end_bits() {
    assert_eq!(BurstFlags::complete().bits(), 3);
    assert_eq!(BurstFlags::complete().bits(), META_FLAG_TX_BURST_START | META_FLAG_TX_BURST_END);
    assert_eq!(BurstFlags { start: true, end: false }.bits(), 1);
    assert_eq!(BurstFlags { start: false, end: true }.bits(), 2);
    assert_eq!(BurstFlags { start: false, end: false }.bits(), 0);
}

#[test]
fn only_a_full_receive_goes_to_the_power_estimator() {
    let full = interpret(completion(0, 0, 16, 0), 16);
    let short = interpret(completion(0, 1, 4, 0), 16);
    let failed = interpret(completion(-1, 0, 0, 0), 16);
    assert!(full.feeds_diagnostics(Direction::Rx));
    assert!(!full.feeds_diagnostics(Direction::Tx));
    assert!(!short.feeds_diagnostics(Direction::Rx));
    assert!(!short.feeds_diagnostics(Direction::Tx));
    assert!(!failed.feeds_diagnostics(Direction::Rx));
    assert!(!failed.feeds_diagnostics(Direction::Tx));
}
