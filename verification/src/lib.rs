//! Verified core of the locator administration service: the caches of locate
//! requests and locates, the routing of quote responses, the client groups of the
//! server-sent-event hub, the provider settings cache, and the request building
//! for the services this one talks to.

pub mod constants;
pub mod external_services_client;
pub mod kafka;
pub mod routes;
pub mod text;
pub mod timestamp;
pub mod models;
pub mod services;
pub mod startup;
