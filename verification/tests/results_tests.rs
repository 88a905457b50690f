use rocust::endpoint_results::EndPointResults;
use rocust::results::{Measurement, Results, SentResults};

#[test]
fn new_results_are_zero() {
    let r = Results::new();
    assert_eq!(r.total_requests, 0);
    assert_eq!(r.total_failed_requests, 0);
    assert_eq!(r.total_connection_errors, 0);
    assert_eq!(r.total_response_time, 0);
    assert_eq!(r.average_response_time, 0);
    assert_eq!(r.min_response_time, 0);
    assert_eq!(r.max_response_time, 0);
}

#[test]
fn response_times_update_totals_min_max_and_average() {
    let mut r = Results::new();
    r.add_response_time(100);
    r.add_response_time(40);
    r.add_response_time(70);
    assert_eq!(r.total_requests, 3);
    assert_eq!(r.total_response_time, 210);
    assert_eq!(r.average_response_time, 70);
    assert_eq!(r.min_response_time, 40);
    assert_eq!(r.max_response_time, 100);
    assert_eq!(r.median_response_time, 0);
}

#[test]
fn average_is_integer_mean_over_all_requests() {
    let mut r = Results::new();
    r.add_response_time(10);
    r.add_failed();
    r.add_response_time(11);
    // failures count as requests in the mean
    assert_eq!(r.total_requests, 3);
    assert_eq!(r.total_failed_requests, 1);
    assert_eq!(r.average_response_time, 7);
}

#[test]
fn zero_response_time_resets_min_then_next_time_takes_it() {
    let mut r = Results::new();
    r.add_response_time(5);
    r.add_response_time(0);
    assert_eq!(r.min_response_time, 0);
    r.add_response_time(9);
    assert_eq!(r.min_response_time, 9);
}

#[test]
fn connection_errors_do_not_count_as_requests() {
    let mut r = Results::new();
    r.add_connection_error();
    r.add_connection_error();
    assert_eq!(r.total_connection_errors, 2);
    assert_eq!(r.get_total_requests(), 0);
    assert_eq!(r.get_total_failed_requests(), 0);
}

#[test]
fn sent_results_copy_the_counters() {
    let mut r = Results::new();
    r.add_response_time(30);
    r.add_failed();
    r.add_connection_error();
    let s = r.create_sent_results();
    assert_eq!(
        s,
        SentResults {
            total_requests: 2,
            total_failed_requests: 1,
            total_connection_errors: 1,
            total_response_time: 30,
        }
    );
}

#[test]
fn combining_adds_counters_and_keeps_statistics() {
    let mut master = Results::new();
    master.add_response_time(50);
    let mut worker = Results::new();
    worker.add_response_time(10);
    worker.add_response_time(20);
    worker.add_failed();
    worker.add_connection_error();
    master.combine_sent_results(&worker.create_sent_results());
    assert_eq!(master.total_requests, 4);
    assert_eq!(master.total_failed_requests, 1);
    assert_eq!(master.total_connection_errors, 1);
    assert_eq!(master.total_response_time, 80);
    assert_eq!(master.average_response_time, 50);
    assert_eq!(master.min_response_time, 50);
    assert_eq!(master.max_response_time, 50);
}

#[test]
fn combining_nothing_changes_nothing() {
    let mut r = Results::new();
    r.add_response_time(12);
    let before = r;
    r.combine_sent_results(&SentResults {
        total_requests: 0,
        total_failed_requests: 0,
        total_connection_errors: 0,
        total_response_time: 0,
    });
    assert_eq!(r, before);
}

#[test]
fn record_dispatches_each_measurement() {
    let mut r = Results::new();
    r.record(Measurement::ResponseTime(8));
    r.record(Measurement::Failed);
    r.record(Measurement::ConnectionError);
    assert_eq!(r.total_requests, 2);
    assert_eq!(r.total_failed_requests, 1);
    assert_eq!(r.total_connection_errors, 1);
    assert_eq!(r.total_response_time, 8);
}

#[test]
fn fits_detects_overflow() {
    let mut r = Results::new();
    r.total_response_time = u32::MAX - 5;
    assert!(r.fits(Measurement::ResponseTime(5)));
    assert!(!r.fits(Measurement::ResponseTime(6)));
    r.total_requests = u32::MAX;
    assert!(!r.fits(Measurement::Failed));
    assert!(r.fits(Measurement::ConnectionError));
}

#[test]
fn endpoint_results_average() {
    let mut e = EndPointResults::new();
    e.add_response_time(3);
    e.add_response_time(4);
    assert_eq!(e.total_requests, 2);
    assert_eq!(e.total_response_time, 7);
    assert_eq!(e.average_response, 3);
    assert_eq!(
        e.summary(),
        "Total Requests [2] | Total Response Time [7] | Average Response [3]"
    );
}

#[test]
fn endpoint_results_start_empty() {
    let e = EndPointResults::new();
    assert_eq!(e.total_requests, 0);
    assert_eq!(e.total_response_time, 0);
    assert_eq!(e.average_response, 0);
}

#[test]
fn failed_requests_never_exceed_requests() {
    let mut r = Results::new();
    let steps = [
        Measurement::ConnectionError,
        Measurement::Failed,
        Measurement::ResponseTime(3),
        Measurement::Failed,
        Measurement::ConnectionError,
        Measurement::Failed,
    ];
    for m in steps {
        let before = r;
        r.record(m);
        assert!(r.total_failed_requests <= r.total_requests);
        if m == Measurement::ConnectionError {
            assert_eq!(r.total_requests, before.total_requests);
        }
    }
    assert_eq!(r.total_failed_requests, 3);
    assert_eq!(r.total_requests, 4);
}
