use locator_admin_rust::kafka::{next_consumer_action, split_hosts, ConsumerAction};
use locator_admin_rust::services::message_handler::{
    quote_responses_query, quote_responses_query_from_text, should_send_history, RestoreCursor,
    RESTORE_DATA_TAKE,
};
use locator_admin_rust::services::notification_service::chunk_ranges;
use locator_admin_rust::services::TimeService;
use locator_admin_rust::text::{decimal_text, distinct_strings, join};
use locator_admin_rust::timestamp::{is_iso8601_writable, is_representable, midnight_utc, Timestamp};

const SECOND: i128 = 1_000_000_000;
const HOUR: i128 = 3_600 * SECOND;

fn utc(seconds: i128) -> Timestamp {
    Timestamp { unix_nanos: seconds * SECOND, offset_seconds: 0 }
}

#[test]
fn previous_cleanup_later_in_the_day() {
    // 2023-10-07T14:09:06Z
    let service = TimeService::new(7 * HOUR);
    let now = utc(1_696_687_746);
    assert!(service.can_compute_previous_cleanup(now));
    let previous = service.get_previous_cleanup_time_in_utc(now);
    // 2023-10-07T07:00:00Z
    assert_eq!(previous, utc(1_696_662_000));
}

#[test]
fn previous_cleanup_earlier_in_the_day_is_yesterday() {
    // 2023-10-07T05:00:00Z
    let service = TimeService::new(7 * HOUR);
    let previous = service.get_previous_cleanup_time_in_utc(utc(1_696_654_800));
    // 2023-10-06T07:00:00Z
    assert_eq!(previous, utc(1_696_575_600));
}

#[test]
fn previous_cleanup_at_the_cleanup_instant_is_now() {
    let service = TimeService::new(7 * HOUR);
    let previous = service.get_previous_cleanup_time_in_utc(utc(1_696_662_000));
    assert_eq!(previous, utc(1_696_662_000));
}

#[test]
fn previous_cleanup_uses_local_date() {
    // 2023-10-07T23:30:00Z read at +02:00 is 2023-10-08 locally
    let service = TimeService::new(7 * HOUR);
    let now = Timestamp { unix_nanos: 1_696_721_400 * SECOND, offset_seconds: 7_200 };
    let previous = service.get_previous_cleanup_time_in_utc(now);
    // 2023-10-08T07:00:00Z lies after now: one day back
    assert_eq!(previous, utc(1_696_662_000));
}

#[test]
fn midnight_of_negative_instant() {
    // 1969-12-31T12:00:00Z
    let m = midnight_utc(utc(-43_200));
    assert_eq!(m, utc(-86_400));
}

#[test]
fn representable_bounds() {
    assert!(is_representable(utc(253_402_300_799)));
    assert!(!is_representable(utc(253_402_300_800)));
    assert!(is_representable(utc(-377_705_116_800)));
    assert!(!is_representable(utc(-377_705_116_801)));
    assert!(!is_representable(Timestamp { unix_nanos: 0, offset_seconds: 93_600 }));
    assert!(is_iso8601_writable(utc(0)));
    assert!(!is_iso8601_writable(utc(-62_167_219_201)));
    assert!(!is_iso8601_writable(Timestamp { unix_nanos: 0, offset_seconds: 30 }));
}

#[test]
fn quote_responses_query_writes_instants_and_numbers() {
    let q = quote_responses_query(utc(1_696_662_000), utc(1_696_687_746), RESTORE_DATA_TAKE, 4_000);
    let pairs: Vec<(&str, &str)> = q.iter().map(|(a, b)| (a.as_str(), b.as_str())).collect();
    assert_eq!(
        pairs,
        vec![
            ("from", "2023-10-07T07:00:00.000000000Z"),
            ("to", "2023-10-07T14:09:06.000000000Z"),
            ("take", "2000"),
            ("skip", "4000"),
        ]
    );
    let q = quote_responses_query_from_text("a".to_string(), "b".to_string(), -5, 0);
    assert_eq!(q[2].1, "-5");
    assert_eq!(q[3].1, "0");
}

#[test]
fn decimal_text_writes_like_display() {
    for n in [0i64, 7, 10, 2000, -1, -2000, i64::MAX, i64::MIN] {
        assert_eq!(decimal_text(n), n.to_string());
    }
}

#[test]
fn join_and_distinct() {
    let parts = vec!["FPMOCK".to_string(), "X".to_string(), "FPMOCK".to_string()];
    assert_eq!(join(&parts, ", "), "FPMOCK, X, FPMOCK");
    assert_eq!(join(&distinct_strings(&parts), ", "), "FPMOCK, X");
    assert_eq!(join(&vec![], ", "), "");
}

#[test]
fn split_hosts_like_str_split() {
    for s in ["kafka1:9092,kafka2:9092", "", "a,,b", ",", "one"] {
        let expected: Vec<String> = s.split(',').map(|x| x.to_string()).collect();
        assert_eq!(split_hosts(s), expected);
    }
}

#[test]
fn chunks_of_two_thousand() {
    assert_eq!(chunk_ranges(4_500, 2_000), vec![(0, 2_000), (2_000, 4_000), (4_000, 4_500)]);
    assert_eq!(chunk_ranges(2_000, 2_000), vec![(0, 2_000)]);
    assert_eq!(chunk_ranges(0, 2_000), vec![]);
}

#[test]
fn restore_cursor_pages() {
    let mut c = RestoreCursor::new();
    assert_eq!(c.skip, 0);
    c.advance();
    c.advance();
    assert_eq!(c.skip, 4_000);
    assert!(RestoreCursor::page_ends_restore(0));
    assert!(!RestoreCursor::page_ends_restore(1));
    assert!(should_send_history(false, 3));
    assert!(!should_send_history(true, 3));
    assert!(!should_send_history(false, 0));
}

#[test]
fn consumer_loop_steps() {
    assert_eq!(next_consumer_action(true, None), ConsumerAction::Stop);
    assert_eq!(next_consumer_action(false, None), ConsumerAction::Poll);
    assert_eq!(next_consumer_action(false, Some(0)), ConsumerAction::Poll);
    assert_eq!(next_consumer_action(true, Some(0)), ConsumerAction::Stop);
    assert_eq!(next_consumer_action(true, Some(2)), ConsumerAction::ProcessAndCommit);
}

#[test]
fn previous_cleanup_of_a_previous_cleanup_is_itself() {
    let service = TimeService::new(7 * HOUR);
    let first = service.get_previous_cleanup_time_in_utc(utc(1_696_654_800));
    assert!(service.can_compute_previous_cleanup(first));
    let second = service.get_previous_cleanup_time_in_utc(first);
    assert_eq!(second, first);
}
