use locator_admin_rust::models::{
    LocatorQuoteResponse, QuoteResponseStatusEnum, QuoteSourceInfo,
};
use locator_admin_rust::services::message_handler::{batch_to_send, handle, HandledResponses, MessageHandler};
use locator_admin_rust::services::{LocateRequestsCache, LocatesCache};
use locator_admin_rust::timestamp::Timestamp;

fn source(provider: &str, name: &str) -> QuoteSourceInfo {
    QuoteSourceInfo {
        provider: provider.to_string(),
        source: name.to_string(),
        price: 1.0f64.to_bits(),
        qty: 1000,
        user_price: 1000.0f64.to_bits(),
        discounted_price: 1000.0f64.to_bits(),
    }
}

fn response(id: &str, status: QuoteResponseStatusEnum, seconds: i128) -> LocatorQuoteResponse {
    LocatorQuoteResponse {
        id: id.to_string(),
        firm_id: "fake_provider".to_string(),
        account_id: "oleg".to_string(),
        symbol: "AAPL".to_string(),
        status,
        time: Timestamp { unix_nanos: seconds * 1_000_000_000, offset_seconds: 0 },
        error_message: None,
        req_qty: 1000,
        fill_qty: Some(1000),
        price: Some(1.0f64.to_bits()),
        tz_price: 1.0f64.to_bits(),
        source: "FPMOCK".to_string(),
        sources: vec![source("admin", "FPMOCK")],
    }
}

fn memorize_10(locates_cache: &mut LocatesCache) {
    for i in 1..=10 {
        locates_cache.memorize(response(&i.to_string(), QuoteResponseStatusEnum::AutoAccepted, 1_700_000_000));
    }
}

#[test]
fn send_email_sends_the_expected_request() {
    // Arrange
    let mut locates_cache = LocatesCache::new();

    // Act
    memorize_10(&mut locates_cache);
    memorize_10(&mut locates_cache);
    memorize_10(&mut locates_cache);

    // Assert
    let x = locates_cache.get_history_records();
    assert_eq!(x.len(), 30);
}

#[test]
fn locates_history_is_newest_first_and_stable() {
    let mut cache = LocatesCache::new();
    cache.memorize(response("a", QuoteResponseStatusEnum::Filled, 10));
    cache.memorize(response("b", QuoteResponseStatusEnum::Filled, 30));
    cache.memorize(response("c", QuoteResponseStatusEnum::Filled, 20));
    cache.memorize(response("d", QuoteResponseStatusEnum::Filled, 30));
    let history = cache.get_history_records();
    let ids: Vec<&str> = history.iter().map(|m| m.quote_id.as_str()).collect();
    assert_eq!(ids, vec!["b", "d", "c", "a"]);
    // the cache keeps the sorted order
    let again = cache.get_history_records();
    let ids_again: Vec<&str> = again.iter().map(|m| m.quote_id.as_str()).collect();
    assert_eq!(ids_again, vec!["b", "d", "c", "a"]);
}

#[test]
fn locate_of_response_has_zero_fill_and_price_when_absent() {
    let mut cache = LocatesCache::new();
    let mut r = response("q", QuoteResponseStatusEnum::Expired, 5);
    r.fill_qty = None;
    r.price = None;
    r.error_message = Some("late".to_string());
    let m = cache.memorize(r);
    assert_eq!(m.quote_id, "q");
    assert_eq!(m.qty_fill, 0);
    assert_eq!(m.user_price, 0.0f64.to_bits());
    assert_eq!(m.req_qty, 1000);
    assert_eq!(m.error_message, Some("late".to_string()));
    assert_eq!(m.source, "FPMOCK");
    assert_eq!(cache.len(), 1);
}

#[test]
fn locate_request_keeps_first_time_and_latest_fields() {
    let mut cache = LocateRequestsCache::new();
    let mut first = response("id-1", QuoteResponseStatusEnum::WaitingAcceptance, 100);
    first.sources = vec![source("p1", "A"), source("p2", "B"), source("p3", "A")];
    let m1 = cache.memorize(first);
    assert_eq!(m1.source, "A, B, A");
    assert_eq!(m1.time.unix_nanos, 100_000_000_000);
    assert_eq!(m1.qty_offer, 1000);

    let mut second = response("id-1", QuoteResponseStatusEnum::AutoAccepted, 200);
    second.fill_qty = None;
    second.price = None;
    second.sources = vec![];
    let m2 = cache.memorize(second);
    assert_eq!(m2.time.unix_nanos, 100_000_000_000);
    assert_eq!(m2.qty_offer, 0);
    assert_eq!(m2.price, 0);
    assert_eq!(m2.source, "");

    let history = cache.get_history_records();
    assert_eq!(history.len(), 1);
    assert_eq!(history[0].id, "id-1");
    assert_eq!(history[0].qty_offer, 0);
}

#[test]
fn locate_requests_history_lists_each_id_once_newest_first() {
    let mut cache = LocateRequestsCache::new();
    cache.memorize(response("x", QuoteResponseStatusEnum::WaitingAcceptance, 1));
    cache.memorize(response("y", QuoteResponseStatusEnum::WaitingAcceptance, 3));
    cache.memorize(response("z", QuoteResponseStatusEnum::WaitingAcceptance, 2));
    cache.memorize(response("x", QuoteResponseStatusEnum::AutoAccepted, 9));
    let history = cache.get_history_records();
    let ids: Vec<&str> = history.iter().map(|m| m.id.as_str()).collect();
    assert_eq!(ids, vec!["y", "z", "x"]);
}

#[test]
fn handle_files_by_status() {
    let cases = [
        (QuoteResponseStatusEnum::Cancelled, false, true),
        (QuoteResponseStatusEnum::Expired, false, true),
        (QuoteResponseStatusEnum::Failed, false, true),
        (QuoteResponseStatusEnum::RejectedBadRequest, true, true),
        (QuoteResponseStatusEnum::RejectedDuplicate, true, true),
        (QuoteResponseStatusEnum::WaitingAcceptance, true, false),
        (QuoteResponseStatusEnum::Partial, false, true),
        (QuoteResponseStatusEnum::Filled, false, true),
        (QuoteResponseStatusEnum::NoInventory, true, true),
        (QuoteResponseStatusEnum::AutoAccepted, true, false),
        (QuoteResponseStatusEnum::AutoRejected, true, true),
        (QuoteResponseStatusEnum::RequestAccepted, false, false),
        (QuoteResponseStatusEnum::RejectedProhibited, false, false),
    ];
    for (status, request, locate) in cases {
        let mut requests = LocateRequestsCache::new();
        let mut locates = LocatesCache::new();
        let (r, l) = handle(response("s", status, 1), &mut requests, &mut locates);
        assert_eq!(r.is_some(), request, "{:?}", status);
        assert_eq!(l.is_some(), locate, "{:?}", status);
        assert_eq!(requests.get_history_records().len(), if request { 1 } else { 0 });
        assert_eq!(locates.len(), if locate { 1 } else { 0 });
    }
}

#[test]
fn message_handler_files_live_responses() {
    let mut handler = MessageHandler::new();
    let (r, l) = handler.handler_quote_response(response("q1", QuoteResponseStatusEnum::NoInventory, 7));
    assert_eq!(r.unwrap().id, "q1");
    assert_eq!(l.unwrap().quote_id, "q1");
    assert_eq!(handler.get_locate_requests_history().len(), 1);
    assert_eq!(handler.get_locates_history().len(), 1);

    let mut batch = HandledResponses::new();
    batch.add(handler.handler_quote_response(response("q2", QuoteResponseStatusEnum::Filled, 8)));
    batch.add(handler.handler_quote_response(response("q3", QuoteResponseStatusEnum::RequestAccepted, 9)));
    assert_eq!(batch.locate_requests.len(), 0);
    assert_eq!(batch.locates.len(), 1);
    assert_eq!(batch.locates[0].quote_id, "q2");
}

#[test]
fn handle_responses_files_the_whole_page_and_returns_the_batch() {
    let mut handler = MessageHandler::new();
    let stop = tokio_util::sync::CancellationToken::new();
    let page = vec![
        response("p1", QuoteResponseStatusEnum::WaitingAcceptance, 10),
        response("p2", QuoteResponseStatusEnum::Filled, 11),
        response("p1", QuoteResponseStatusEnum::NoInventory, 12),
    ];
    let (count, batch) = handler.handle_responses(&stop, page);
    assert_eq!(count, 3);
    let batch = batch.unwrap();
    assert_eq!(batch.locate_requests.len(), 2);
    assert_eq!(batch.locate_requests[0].id, "p1");
    assert_eq!(batch.locate_requests[1].id, "p1");
    // the second request of p1 keeps the time p1 was first seen at
    assert_eq!(batch.locate_requests[1].time.unix_nanos, 10_000_000_000);
    assert_eq!(batch.locates.len(), 2);
    assert_eq!(batch.locates[0].quote_id, "p2");
    assert_eq!(batch.locates[1].quote_id, "p1");
    assert_eq!(handler.get_locate_requests_history().len(), 1);
    assert_eq!(handler.get_locates_history().len(), 2);
}

#[test]
fn handle_responses_files_nothing_once_stopped() {
    let mut handler = MessageHandler::new();
    let stop = tokio_util::sync::CancellationToken::new();
    stop.cancel();
    let page = vec![
        response("s1", QuoteResponseStatusEnum::WaitingAcceptance, 10),
        response("s2", QuoteResponseStatusEnum::Filled, 11),
    ];
    let (count, batch) = handler.handle_responses(&stop, page);
    assert_eq!(count, 0);
    assert!(batch.is_none());
    assert_eq!(handler.get_locate_requests_history().len(), 0);
    assert_eq!(handler.get_locates_history().len(), 0);
}

#[test]
fn memorize_adds_a_key_only_for_a_new_id() {
    let mut cache = LocateRequestsCache::new();
    cache.memorize(response("k1", QuoteResponseStatusEnum::WaitingAcceptance, 1));
    cache.memorize(response("k2", QuoteResponseStatusEnum::WaitingAcceptance, 2));
    assert_eq!(cache.get_history_records().len(), 2);
    cache.memorize(response("k1", QuoteResponseStatusEnum::AutoAccepted, 3));
    let history = cache.get_history_records();
    assert_eq!(history.len(), 2);
    for record in &history {
        assert!(record.id == "k1" || record.id == "k2");
    }
}

#[test]
fn file_unless_stopped_files_only_when_not_stopped() {
    let mut handler = MessageHandler::new();
    let mut batch = HandledResponses::new();
    let stopped = handler.file_unless_stopped(true, response("f1", QuoteResponseStatusEnum::NoInventory, 5), &mut batch);
    assert!(stopped);
    assert_eq!(batch.locate_requests.len(), 0);
    assert_eq!(batch.locates.len(), 0);
    assert_eq!(handler.get_locate_requests_history().len(), 0);

    let stopped = handler.file_unless_stopped(false, response("f1", QuoteResponseStatusEnum::NoInventory, 5), &mut batch);
    assert!(!stopped);
    assert_eq!(batch.locate_requests.len(), 1);
    assert_eq!(batch.locates.len(), 1);
    assert_eq!(batch.locate_requests[0].id, "f1");
    assert_eq!(batch.locates[0].quote_id, "f1");
    assert_eq!(handler.get_locate_requests_history().len(), 1);
    assert_eq!(handler.get_locates_history().len(), 1);
}

#[test]
fn batch_is_sent_only_when_not_stopped() {
    let mut batch = HandledResponses::new();
    batch.add((None, None));
    assert!(batch_to_send(true, batch).is_none());
    let batch = HandledResponses::new();
    let sent = batch_to_send(false, batch).unwrap();
    assert_eq!(sent.locate_requests.len(), 0);
    assert_eq!(sent.locates.len(), 0);
}

#[test]
fn request_history_holds_latest_request_per_id_at_first_time() {
    let mut cache = LocateRequestsCache::new();
    cache.memorize(response("a", QuoteResponseStatusEnum::WaitingAcceptance, 100));
    cache.memorize(response("b", QuoteResponseStatusEnum::WaitingAcceptance, 200));
    cache.memorize(response("a", QuoteResponseStatusEnum::AutoAccepted, 300));
    let history = cache.get_history_records();
    assert_eq!(history.len(), 2);
    assert_eq!(history[0].id, "b");
    assert_eq!(history[1].id, "a");
    assert_eq!(history[1].time.unix_nanos, 100_000_000_000);
}
