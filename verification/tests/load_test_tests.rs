use rocust::endpoint::{EndPoint, Method};
use rocust::results::{Measurement, Results};
use rocust::status::Status;
use rocust::test::{measurement_for, Test};
use std::collections::HashMap;
use std::time::Instant;

fn sample_test(user_count: u32) -> Test {
    Test::new(
        String::from("test1"),
        user_count,
        Some(10),
        (1, 10),
        String::from("https://example.com"),
        vec![
            EndPoint::new_get(
                String::from("/"),
                None,
                Some(vec![(String::from("id"), String::from("6"))]),
            ),
            EndPoint::new_post(String::from("/post"), None, Some(String::from("body"))),
            EndPoint::new_put(String::from("/put"), None, None),
            EndPoint::new_delete(String::from("/delete"), None),
        ],
        None,
        false,
    )
}

#[test]
fn new_test_is_created_and_empty() {
    let t = sample_test(3);
    assert!(matches!(t.get_status(), Status::Created));
    assert_eq!(t.get_user_count(), 3);
    assert_eq!(t.get_id(), "test1");
    assert_eq!(*t.get_run_time(), Some(10));
    assert!(t.get_users().is_empty());
    assert_eq!(t.get_endpoints().len(), 4);
    assert_eq!(t.clone_results(), Results::new());
    assert!(t.get_start_timestamp().is_none());
    assert!(t.get_end_timestamp().is_none());
    assert!(t.get_elapsed_time().is_none());
}

#[test]
fn endpoint_constructors() {
    let mut headers = HashMap::new();
    headers.insert(String::from("a"), String::from("b"));
    let g = EndPoint::new_get(String::from("/g"), Some(headers.clone()), None);
    assert_eq!(*g.get_method(), Method::GET);
    assert_eq!(g.get_url(), "/g");
    assert!(g.get_body().is_none());
    assert!(g.get_params().is_none());
    assert_eq!(g.headers.as_ref().unwrap().get("a").unwrap(), "b");
    let p = EndPoint::new_post(String::from("/p"), None, Some(String::from("x")));
    assert_eq!(*p.get_method(), Method::POST);
    assert_eq!(p.get_body().as_deref(), Some("x"));
    let u = EndPoint::new_put(String::from("/u"), None, None);
    assert_eq!(*u.get_method(), Method::PUT);
    let d = EndPoint::new_delete(String::from("/d"), None);
    assert_eq!(*d.get_method(), Method::DELETE);
    assert_eq!(*d.get_results(), Results::new());
}

#[test]
fn endpoint_records_its_results() {
    let mut e = EndPoint::new_delete(String::from("/d"), None);
    e.add_response_time(20);
    e.add_failed();
    e.add_connection_error();
    let r = e.clone_results();
    assert_eq!(r.total_requests, 2);
    assert_eq!(r.total_failed_requests, 1);
    assert_eq!(r.total_connection_errors, 1);
}

#[test]
fn users_are_numbered_from_zero() {
    let mut t = sample_test(3);
    t.create_users();
    let ids: Vec<&str> = t.get_users().iter().map(|u| u.get_id().as_str()).collect();
    assert_eq!(ids, vec!["0", "1", "2"]);
    for u in t.get_users() {
        assert!(matches!(u.get_status(), Status::Created));
        assert_eq!(u.sleep, (1, 10));
    }
    let i = t.create_user(String::from("extra"));
    assert_eq!(i, 3);
    assert_eq!(t.get_users()[3].get_id(), "extra");
}

#[test]
fn stopping_a_missing_user_fails() {
    let mut t = sample_test(2);
    t.create_users();
    assert_eq!(t.stop_a_user(5), Err(String::from("User not found")));
    assert_eq!(t.stop_a_user(1), Ok(()));
    assert!(matches!(t.get_users()[1].get_status(), Status::Stopped));
    assert!(matches!(t.get_users()[0].get_status(), Status::Created));
}

#[test]
fn stop_then_finish_keeps_users_stopped() {
    let mut t = sample_test(2);
    t.create_users();
    t.stop();
    assert!(matches!(t.get_status(), Status::Stopped));
    t.finish();
    assert!(matches!(t.get_status(), Status::Finished));
    for u in t.get_users() {
        assert!(matches!(u.get_status(), Status::Stopped));
    }
}

#[test]
fn finish_marks_running_users_finished() {
    let mut t = sample_test(2);
    t.create_users();
    t.stop_a_user(0).unwrap();
    t.finish();
    assert!(matches!(t.get_users()[0].get_status(), Status::Stopped));
    assert!(matches!(t.get_users()[1].get_status(), Status::Finished));
    t.finish();
    assert!(matches!(t.get_users()[1].get_status(), Status::Finished));
}

#[test]
fn request_plans_follow_the_method() {
    let t = sample_test(1);
    let get = t.plan_request(0);
    assert_eq!(get.url, "https://example.com/");
    assert_eq!(get.method, Method::GET);
    assert!(get.send_params && !get.send_body);
    let post = t.plan_request(1);
    assert_eq!(post.url, "https://example.com/post");
    assert!(!post.send_params && post.send_body);
    let put = t.plan_request(2);
    assert!(!put.send_params && put.send_body);
    let delete = t.plan_request(3);
    assert_eq!(delete.url, "https://example.com/delete");
    assert!(!delete.send_params && !delete.send_body);
}

#[test]
fn responses_are_classified_by_status() {
    assert_eq!(measurement_for(Some((200, 12))), Measurement::ResponseTime(12));
    assert_eq!(measurement_for(Some((399, 5))), Measurement::ResponseTime(5));
    assert_eq!(measurement_for(Some((199, 5))), Measurement::Failed);
    assert_eq!(measurement_for(Some((400, 5))), Measurement::Failed);
    assert_eq!(measurement_for(Some((503, 5))), Measurement::Failed);
    assert_eq!(measurement_for(None), Measurement::ConnectionError);
}

#[test]
fn recording_reaches_endpoint_user_and_test() {
    let mut t = sample_test(2);
    t.create_users();
    assert!(t.fits(0, 1, Measurement::ResponseTime(30)));
    t.record(0, 1, Measurement::ResponseTime(30));
    t.record(0, 1, Measurement::Failed);
    t.record(1, 0, Measurement::ConnectionError);
    t.record(0, 0, Measurement::ResponseTime(10));
    assert_eq!(t.get_results().total_requests, 3);
    assert_eq!(t.get_results().total_connection_errors, 1);
    assert_eq!(t.get_endpoints()[1].results.total_requests, 2);
    assert_eq!(t.get_endpoints()[1].results.total_failed_requests, 1);
    assert_eq!(t.get_endpoints()[0].results.total_connection_errors, 1);
    let u0 = &t.get_users()[0];
    assert_eq!(u0.results.total_requests, 3);
    let per_url = u0.get_endpoints();
    assert_eq!(per_url.len(), 2);
    assert_eq!(per_url[0].0, "/post");
    assert_eq!(per_url[0].1.total_requests, 2);
    assert_eq!(per_url[0].1.total_response_time, 30);
    assert_eq!(per_url[1].0, "/");
    assert_eq!(per_url[1].1.total_response_time, 10);
    let u1 = &t.get_users()[1];
    assert_eq!(u1.results.total_connection_errors, 1);
    assert_eq!(u1.get_endpoints().len(), 1);
    assert!(!t.fits(2, 0, Measurement::Failed));
    assert!(!t.fits(0, 9, Measurement::Failed));
}

#[test]
fn endpoints_with_the_same_url_share_one_entry_per_user() {
    let mut t = Test::new(
        String::from("t"),
        1,
        None,
        (0, 1),
        String::from("h"),
        vec![
            EndPoint::new_get(String::from("/x"), None, None),
            EndPoint::new_post(String::from("/x"), None, None),
        ],
        None,
        false,
    );
    t.create_users();
    t.record(0, 0, Measurement::ResponseTime(1));
    t.record(0, 1, Measurement::ResponseTime(2));
    let entries = t.get_users()[0].get_endpoints();
    assert_eq!(entries.len(), 1);
    assert_eq!(entries[0].1.total_requests, 2);
    // the report keeps the last endpoint for a url
    let sent = t.create_endpoints_sent_results();
    assert_eq!(sent.len(), 1);
    assert_eq!(sent[0].1.total_response_time, 2);
}

#[test]
fn run_messages() {
    let t = sample_test(1);
    assert_eq!(t.run_message(), "Test running for 10 seconds");
    let mut forever = sample_test(1);
    forever.set_run_time(None);
    assert_eq!(forever.run_message(), "Test running forever, press ctrl+c to stop");
}

#[test]
fn random_choices_stay_in_range() {
    let mut t = sample_test(1);
    t.create_users();
    let mut endpoints_seen = std::collections::HashSet::new();
    let mut sleeps_seen = std::collections::HashSet::new();
    for _ in 0..200 {
        let e = t.select_random_endpoint();
        assert!(e < 4);
        endpoints_seen.insert(e);
        let s = t.get_users()[0].select_random_sleep();
        assert!((1..10).contains(&s));
        sleeps_seen.insert(s);
    }
    // the draws vary
    assert!(endpoints_seen.len() > 1);
    assert!(sleeps_seen.len() > 1);
}

#[test]
fn elapsed_time_needs_a_start() {
    let mut t = sample_test(1);
    assert!(Test::calculate_elapsed_time(None, Some(Instant::now())).is_none());
    let start = Instant::now();
    t.set_start_timestamp(start);
    assert!(t.get_elapsed_time().is_some());
    let end = start + std::time::Duration::from_millis(1500);
    t.set_end_timestamp(end);
    assert_eq!(t.get_elapsed_time(), Some(std::time::Duration::from_millis(1500)));
    assert_eq!(
        Test::calculate_elapsed_time(Some(end), Some(start)),
        Some(std::time::Duration::ZERO)
    );
}

#[test]
fn setters_change_one_field() {
    let mut t = sample_test(4);
    t.set_user_count(2);
    assert_eq!(t.get_user_count(), 2);
    t.set_print_stats_to_console(true);
    assert!(t.print_stats_to_console);
    t.set_status(Status::Running);
    assert!(matches!(t.get_status(), Status::Running));
}

#[test]
fn every_measurement_is_counted_once_everywhere() {
    let mut t = sample_test(3);
    t.create_users();
    let plan = [
        (0, 0, Measurement::ResponseTime(10)),
        (1, 2, Measurement::Failed),
        (2, 3, Measurement::ConnectionError),
        (0, 1, Measurement::ResponseTime(25)),
        (1, 2, Measurement::ResponseTime(5)),
        (2, 0, Measurement::Failed),
    ];
    for (u, e, m) in plan {
        t.record(u, e, m);
    }
    let agg = *t.get_results();
    let users: Vec<Results> = t.get_users().iter().map(|u| u.results).collect();
    let endpoints: Vec<Results> = t.get_endpoints().iter().map(|e| e.results).collect();
    for list in [&users, &endpoints] {
        assert_eq!(list.iter().map(|r| r.total_requests).sum::<u32>(), agg.total_requests);
        assert_eq!(
            list.iter().map(|r| r.total_failed_requests).sum::<u32>(),
            agg.total_failed_requests
        );
        assert_eq!(
            list.iter().map(|r| r.total_connection_errors).sum::<u32>(),
            agg.total_connection_errors
        );
        assert_eq!(
            list.iter().map(|r| r.total_response_time).sum::<u32>(),
            agg.total_response_time
        );
    }
    for u in t.get_users() {
        let per_url: u32 = u.get_endpoints().iter().map(|(_, r)| r.total_requests).sum();
        assert_eq!(per_url, u.results.total_requests);
    }
    assert_eq!(agg.total_requests, 5);
    assert_eq!(agg.total_response_time, 40);
}

#[test]
fn request_plan_carries_global_then_endpoint_headers() {
    let mut global = HashMap::new();
    global.insert(String::from("g"), String::from("1"));
    let mut own = HashMap::new();
    own.insert(String::from("e"), String::from("2"));
    let t = Test::new(
        String::from("t"),
        1,
        None,
        (0, 1),
        String::from("h"),
        vec![
            EndPoint::new_get(String::from("/a"), Some(own), None),
            EndPoint::new_get(String::from("/b"), None, None),
        ],
        Some(global),
        false,
    );
    let p = t.plan_request(0);
    assert_eq!(p.header_maps.len(), 2);
    assert_eq!(p.header_maps[0].get("g").unwrap(), "1");
    assert_eq!(p.header_maps[1].get("e").unwrap(), "2");
    let p = t.plan_request(1);
    assert_eq!(p.header_maps.len(), 1);
    assert_eq!(p.header_maps[0].get("g").unwrap(), "1");
    let bare = sample_test(1);
    assert!(bare.plan_request(3).header_maps.is_empty());
}

#[test]
fn clone_copies_the_test() {
    let mut t = sample_test(2);
    t.create_users();
    t.record(1, 0, Measurement::ResponseTime(9));
    let c = t.clone();
    assert_eq!(c.get_id(), t.get_id());
    assert_eq!(c.get_user_count(), 2);
    assert_eq!(c.get_results(), t.get_results());
    assert_eq!(c.get_users().len(), 2);
    assert_eq!(c.get_users()[1].get_endpoints(), t.get_users()[1].get_endpoints());
    assert_eq!(c.get_endpoints()[0].get_params(), t.get_endpoints()[0].get_params());
    assert_eq!(c.get_endpoints()[1].get_body(), t.get_endpoints()[1].get_body());
}
