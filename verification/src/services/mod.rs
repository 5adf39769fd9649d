pub mod history;
pub mod locate_requests_cache;
pub mod locates_cache;
pub mod message_handler;
pub mod notification_service;
pub mod provider_setting_cache;
pub mod time_service;

pub use time_service::TimeService;
pub use locates_cache::LocatesCache;
pub use locate_requests_cache::LocateRequestsCache;
pub use message_handler::MessageHandler;
pub use notification_service::NotificationsService;
pub use provider_setting_cache::ProviderSettingCache;
