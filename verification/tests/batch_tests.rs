use dump_core::batch::{batch_failed, summarize, BatchSummary, Orchestrator};
use dump_core::errors::TransferError;
use dump_core::job::JobOutcome;
use dump_core::limiter::Limiter;

fn ok_outcome(symbol: &str) -> JobOutcome {
    JobOutcome {
        symbol: symbol.to_string(),
        success: true,
        attempts_used: 1,
        last_error: None,
    }
}

fn failed_outcome(symbol: &str) -> JobOutcome {
    JobOutcome {
        symbol: symbol.to_string(),
        success: false,
        attempts_used: 3,
        last_error: Some(TransferError::RemoteStatus { code: 404 }),
    }
}

#[test]
fn empty_batch_sums_to_zero() {
    let s = summarize(&Vec::new());
    assert_eq!(s.ok_count, 0);
    assert_eq!(s.failed_count, 0);
    assert_eq!(s.ok_count + s.failed_count, 0);
    assert!(!batch_failed(&s));
}

#[test]
fn single_job_batch_sums_to_one() {
    let s = summarize(&vec![ok_outcome("a")]);
    assert_eq!((s.ok_count, s.failed_count), (1, 0));
    assert_eq!(s.ok_count + s.failed_count, 1);
    let s = summarize(&vec![failed_outcome("a")]);
    assert_eq!((s.ok_count, s.failed_count), (0, 1));
    assert_eq!(s.ok_count + s.failed_count, 1);
}

#[test]
fn three_jobs_with_middle_failure() {
    let outcomes = vec![ok_outcome("a"), failed_outcome("b"), ok_outcome("c")];
    let s = summarize(&outcomes);
    assert_eq!(s.ok_count, 2);
    assert_eq!(s.failed_count, 1);
    assert_eq!(s.ok_count + s.failed_count, outcomes.len());
    assert!(batch_failed(&s));
}

#[test]
fn counts_always_sum_to_batch_size() {
    for n in 0..8usize {
        let mut outcomes = Vec::new();
        for i in 0..n {
            if i % 2 == 0 {
                outcomes.push(ok_outcome("even"));
            } else {
                outcomes.push(failed_outcome("odd"));
            }
        }
        let s = summarize(&outcomes);
        assert_eq!(s.ok_count + s.failed_count, n);
    }
}

#[test]
fn batch_failed_exactly_when_a_job_failed() {
    assert!(!batch_failed(&BatchSummary { ok_count: 5, failed_count: 0 }));
    assert!(batch_failed(&BatchSummary { ok_count: 4, failed_count: 1 }));
}

#[test]
fn limiter_admits_up_to_its_bound() {
    let mut l = Limiter::new(2);
    assert_eq!(l.capacity(), 2);
    assert!(l.try_acquire());
    assert!(l.try_acquire());
    assert!(!l.try_acquire());
    assert_eq!(l.in_use(), 2);
    l.release();
    assert_eq!(l.in_use(), 1);
    assert!(l.try_acquire());
    assert!(!l.try_acquire());
}

#[test]
fn limiter_with_zero_bound_admits_nothing() {
    let mut l = Limiter::new(0);
    assert!(!l.try_acquire());
    assert_eq!(l.in_use(), 0);
}

#[test]
fn five_jobs_under_bound_two_never_exceed_it() {
    let mut o = Orchestrator::new(5, 2);
    let mut admitted = 0usize;
    let mut completed = 0usize;
    while completed < 5 {
        while o.try_admit() {
            admitted += 1;
            assert!(o.in_flight_now() <= 2);
        }
        assert!(o.in_flight_now() <= 2);
        o.complete(true);
        completed += 1;
        assert!(o.in_flight_now() <= 2);
    }
    assert_eq!(admitted, 5);
    assert!(o.all_done());
    let s = o.summary();
    assert_eq!(s.ok_count, 5);
    assert_eq!(s.failed_count, 0);
    assert_eq!(s.ok_count + s.failed_count, 5);
}

#[test]
fn orchestrator_counts_a_failure_without_aborting() {
    let mut o = Orchestrator::new(3, 2);
    assert!(o.try_admit());
    assert!(o.try_admit());
    o.complete(true);
    assert!(o.try_admit());
    o.complete(false);
    o.complete(true);
    assert!(o.all_done());
    let s = o.summary();
    assert_eq!(s.ok_count, 2);
    assert_eq!(s.failed_count, 1);
    assert_eq!(s.ok_count + s.failed_count, 3);
    assert!(batch_failed(&s));
}
