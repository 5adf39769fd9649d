use locator_admin_rust::external_services_client::{ServicesEnum, ServicesSettings};
use locator_admin_rust::kafka::provider_offer;
use locator_admin_rust::models::provider::UNKNOWN_DISCOUNTED_PRICE;
use locator_admin_rust::models::quote::tz_price_divisor;
use locator_admin_rust::models::{
    AssetType, CreatingType, GroupedNotification, GroupedNotificationKafka, InternalInventoryItem,
    InternalInventoryItemKafka, InternalInventoryItemState, LocatorQuoteResponse,
    NotificationType, ProviderSettingExtended, ProviderSymbolLocatesInfo, QuoteResponse,
    QuoteResponseStatusEnum, QuoteSourceInfoKafka,
};
use locator_admin_rust::models::notification::notifications_of;
use locator_admin_rust::routes::application::clean_data::{
    clean_all_services_outcome, error_chain_fmt, AppError,
};
use locator_admin_rust::routes::application::{clean_admin_ui_data, get_running_env};
use locator_admin_rust::routes::auth::current_user_roles;
use locator_admin_rust::routes::firm_settings::{
    firm_provider_settings_path, firm_setting_path, replace_firm_provider_settings_path,
};
use locator_admin_rust::routes::internal_inventory::internal_inventory_history_query;
use locator_admin_rust::routes::symbol_query;
use locator_admin_rust::services::{NotificationsService, ProviderSettingCache};
use locator_admin_rust::startup::{report_exit, ReportLevel, TaskOutcome};
use locator_admin_rust::timestamp::Timestamp;

fn settings() -> ServicesSettings {
    ServicesSettings {
        locator: "http://locator".to_string(),
        fake_provider: "http://fake".to_string(),
        internal_inventory: "http://ii".to_string(),
        reporting: "http://reporting".to_string(),
        order_book: "http://orderbook".to_string(),
    }
}

#[test]
fn service_urls() {
    let s = settings();
    assert_eq!(s.get_service_base_url(ServicesEnum::FakeProvider), "http://fake");
    assert_eq!(s.service_url(ServicesEnum::Reporting, "/api/x"), "http://reporting/api/x");
    assert_eq!(s.service_url(ServicesEnum::OrderBook, ""), "http://orderbook");
    assert_eq!(s.service_url(ServicesEnum::Locator, "/a"), "http://locator/a");
    assert_eq!(s.service_url(ServicesEnum::InternalInventory, "/b"), "http://ii/b");
}

#[test]
fn firm_paths() {
    assert_eq!(firm_setting_path("acme"), "/api/settings/firm/acme");
    assert_eq!(firm_provider_settings_path("acme"), "/api/settings/firm/acme/provider");
    assert_eq!(
        replace_firm_provider_settings_path("Acme Co/β~x"),
        "/api/settings/firm/Acme%20Co%2F%CE%B2~x/provider"
    );
    assert_eq!(replace_firm_provider_settings_path("a-b_c.d"), "/api/settings/firm/a-b_c.d/provider");
}

#[test]
fn queries() {
    let q = symbol_query(&"AAPL".to_string());
    assert_eq!(q, vec![("symbol".to_string(), "AAPL".to_string())]);
    let q = internal_inventory_history_query(
        &"MSFT".to_string(),
        Timestamp { unix_nanos: 1_696_662_000_000_000_000, offset_seconds: 0 },
    );
    assert_eq!(
        q,
        vec![
            ("take".to_string(), "10".to_string()),
            ("symbol".to_string(), "MSFT".to_string()),
            ("beforeCreatedAt".to_string(), "2023-10-07T07:00:00.000000000Z".to_string()),
        ]
    );
}

#[test]
fn error_chain_text() {
    let causes = vec!["connection refused".to_string(), "os error 111".to_string()];
    assert_eq!(
        error_chain_fmt("Failed to call Locator", &causes),
        "Failed to call Locator\n\nCaused by:\n\tconnection refused\nCaused by:\n\tos error 111\n"
    );
    assert_eq!(error_chain_fmt("alone", &vec![]), "alone\n\n");
}

#[test]
fn clean_all_services_reports_first_failure() {
    let ok: Result<(), Vec<String>> = Ok(());
    assert!(clean_all_services_outcome(ok.clone(), ok.clone(), ok.clone()).is_ok());

    let e = clean_all_services_outcome(ok.clone(), Err(vec!["boom".to_string()]), Err(vec!["bang".to_string()]))
        .unwrap_err();
    let AppError::UnexpectedError(chain) = &e;
    assert_eq!(chain, &vec!["Failed to call Internal Inventory".to_string(), "boom".to_string()]);
    assert_eq!(e.status_code(), 500);
    assert_eq!(e.message(), "Failed to call Internal Inventory");
    assert_eq!(e.debug_text(), "Failed to call Internal Inventory\n\nCaused by:\n\tboom\n");

    let e = clean_all_services_outcome(Err(vec![]), Err(vec!["x".to_string()]), ok.clone()).unwrap_err();
    assert_eq!(e.message(), "Failed to call Locator");

    let e = clean_all_services_outcome(ok.clone(), ok.clone(), Err(vec!["y".to_string()])).unwrap_err();
    assert_eq!(e.message(), "Failed to call Orderbook");
    clean_admin_ui_data();
}

#[test]
fn exit_reports() {
    let r = report_exit("API", TaskOutcome::Completed);
    assert_eq!(r.level, ReportLevel::Info);
    assert_eq!(r.text, "API has exited");
    assert!(r.error_message.is_none());
    let r = report_exit(
        "API",
        TaskOutcome::Failed { message: "m".to_string(), details: "d".to_string() },
    );
    assert_eq!(r.level, ReportLevel::Error);
    assert_eq!(r.text, "API failed");
    assert_eq!(r.error_message, Some("m".to_string()));
    assert_eq!(r.error_cause_chain, Some("d".to_string()));
    let r = report_exit(
        "API",
        TaskOutcome::NotJoined { message: "m".to_string(), details: "d".to_string() },
    );
    assert_eq!(r.text, "API' task failed to complete");
}

#[test]
fn roles_and_env() {
    let r = current_user_roles();
    assert!(r.is_admin && !r.is_viewer && !r.is_provider && r.provider_id.is_none());
    assert_eq!(get_running_env(), "Local");
}

fn kafka_source(name: &str) -> QuoteSourceInfoKafka {
    QuoteSourceInfoKafka {
        provider: "p".to_string(),
        source: name.to_string(),
        price: 0.1f64.to_bits(),
        qty: 500,
        user_price: 0.1f64.to_bits(),
        discounted_price: 0.1f64.to_bits(),
    }
}

fn quote_response(sources: Option<Vec<QuoteSourceInfoKafka>>) -> QuoteResponse {
    QuoteResponse {
        id: "5107ff202220_1231007140903774000".to_string(),
        firm_id: "admin".to_string(),
        account_id: "osulima".to_string(),
        symbol: "AAPL".to_string(),
        status: QuoteResponseStatusEnum::Filled,
        error_message: None,
        req_qty: 1000,
        fill_qty: Some(1000),
        price: Some(0.1f64.to_bits()),
        sources,
        time: Timestamp { unix_nanos: 1_696_687_746_173_000_000, offset_seconds: 0 },
        details_json: "{}".to_string(),
    }
}

#[test]
fn quote_response_names_each_source_once() {
    let r = LocatorQuoteResponse::from_quote_response(
        quote_response(Some(vec![kafka_source("FPMOCK"), kafka_source("X"), kafka_source("FPMOCK")])),
        0.1f64.to_bits(),
    );
    assert_eq!(r.source, "FPMOCK, X");
    assert_eq!(r.sources.len(), 3);
    assert_eq!(r.sources[1].source, "X");
    assert_eq!(r.sources[1].qty, 500);
    assert_eq!(r.tz_price, 0.1f64.to_bits());
    assert_eq!(r.id, "5107ff202220_1231007140903774000");

    let r = LocatorQuoteResponse::from_quote_response(quote_response(None), 0);
    assert_eq!(r.source, "");
    assert!(r.sources.is_empty());
}

#[test]
fn tz_price_divides_by_positive_fill() {
    assert_eq!(tz_price_divisor(Some(1000)), Some(1000));
    assert_eq!(tz_price_divisor(Some(0)), None);
    assert_eq!(tz_price_divisor(Some(-3)), None);
    assert_eq!(tz_price_divisor(None), None);
}

fn extended(id: &str, active: bool, discount: f64) -> ProviderSettingExtended {
    ProviderSettingExtended {
        provider_id: id.to_string(),
        name: format!("{} name", id),
        multiplier: 1.0f64.to_bits(),
        vig: 0.0f64.to_bits(),
        discount: discount.to_bits(),
        dynamic_price_multiplier: None,
        active,
        quote_request_topic: Some("req".to_string()),
        quote_response_topic: None,
        buy_request_topic: None,
        buy_response_topic: None,
        auto_disabled: None,
    }
}

#[test]
fn provider_settings_cache() {
    let cache = ProviderSettingCache::from_fresh_settings(vec![
        extended("II", true, 0.0),
        extended("FP", true, 0.1),
        extended("ORBK", true, 0.0),
        extended("OFF", false, 0.0),
        extended("FP", true, 0.2),
    ]);
    let all = cache.get_all();
    assert_eq!(all.len(), 4);
    let fp = cache.get_provider_setting("FP".to_string()).unwrap();
    assert_eq!(f64::from_bits(fp.discount), 0.2);
    assert_eq!(fp.quote_request_topic, Some("req".to_string()));
    assert!(cache.get_provider_setting("NOPE".to_string()).is_none());
    let active = cache.get_active_external_query();
    assert_eq!(active.len(), 1);
    assert_eq!(active[0].provider_id, "FP");
}

#[test]
fn provider_offer_carries_discount() {
    let cache = ProviderSettingCache::from_fresh_settings(vec![extended("FP", true, 0.25)]);
    let message = |id: &str| ProviderSymbolLocatesInfo {
        symbol: "AAPL".to_string(),
        quantity: 100,
        price: 2.0f64.to_bits(),
        provider_id: id.to_string(),
        provider_name: "Fake".to_string(),
        asset_type: AssetType::PreBorrow,
        date_time: Timestamp { unix_nanos: 0, offset_seconds: 0 },
    };
    let (offer, discount) = provider_offer(&cache, message("FP"));
    assert_eq!(offer.discounted_price, UNKNOWN_DISCOUNTED_PRICE);
    assert_eq!(f64::from_bits(UNKNOWN_DISCOUNTED_PRICE), -1.0);
    assert_eq!(offer.quantity, 100);
    assert_eq!(discount.map(f64::from_bits), Some(0.25));
    let (_, discount) = provider_offer(&cache, message("other"));
    assert!(discount.is_none());
}

#[test]
fn notification_groups() {
    let mut service: NotificationsService<&str> = NotificationsService::new();
    assert!(service.get_senders("Locator.Admin").is_empty());
    service.add_user_to_provider_group(1, "one");
    service.add_user_to_provider_group(2, "two");
    let mut ids = service.get_senders("Locator.Admin");
    ids.sort();
    assert_eq!(ids, vec![1, 2]);
    assert_eq!(service.sender("Locator.Admin", 2), Some(&"two"));
    assert!(service.get_senders("Locator.View").is_empty());
    service.add_user_to_provider_group(2, "again");
    assert_eq!(service.sender("Locator.Admin", 2), Some(&"again"));
    service.delete_user_from_provider_group(1);
    assert_eq!(service.get_senders("Locator.Admin"), vec![2]);
    assert_eq!(service.sender("Locator.Admin", 1), None);
    service.delete_user_from_provider_group(7);
    assert_eq!(service.get_senders("Locator.Admin"), vec![2]);
}

#[test]
fn model_conversions() {
    let t = Timestamp { unix_nanos: 5, offset_seconds: 3_600 };
    let n = GroupedNotification::from(GroupedNotificationKafka {
        notification_type: NotificationType::Critical,
        kind: "k".to_string(),
        group_parameters: "g".to_string(),
        last_message: "m".to_string(),
        first_time: t,
        last_time: t,
        count: 3,
    });
    assert_eq!(n.notification_type, NotificationType::Critical);
    assert_eq!(n.count, 3);
    let list = notifications_of(vec![
        GroupedNotificationKafka {
            notification_type: NotificationType::Warning,
            kind: "a".to_string(),
            group_parameters: String::new(),
            last_message: String::new(),
            first_time: t,
            last_time: t,
            count: 1,
        },
        GroupedNotificationKafka {
            notification_type: NotificationType::Error,
            kind: "b".to_string(),
            group_parameters: String::new(),
            last_message: String::new(),
            first_time: t,
            last_time: t,
            count: 2,
        },
    ]);
    assert_eq!(list.len(), 2);
    assert_eq!(list[1].kind, "b");

    let item = InternalInventoryItem::from(InternalInventoryItemKafka {
        id: "i".to_string(),
        version: 2,
        symbol: "AAPL".to_string(),
        quantity: 10,
        sold_quantity: 1,
        price: 3.5f64.to_bits(),
        source: "s".to_string(),
        asset_type: AssetType::Locate,
        creating_type: CreatingType::Buy,
        tag: None,
        covered_inv_item_id: Some("c".to_string()),
        status: InternalInventoryItemState::Active,
        created_at: t,
    });
    assert_eq!(item.tag, "");
    assert_eq!(item.covered_inv_item_id, "c");
    assert_eq!(item.version, 2);
}
