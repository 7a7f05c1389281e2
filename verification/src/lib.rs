//! Interaction core of the cc-switch terminal interface.

pub mod action;
pub mod app;
pub mod app_data;
pub mod app_data_worker;
pub mod app_type;
pub mod base;
pub mod cache;
pub mod chars;
pub mod checks;
pub mod data;
pub mod desk_laws;
pub mod dispatch;
pub mod dispatch_laws;
pub mod edit_laws;
pub mod event_loop;
pub mod frame;
pub mod help;
pub mod help_laws;
pub mod help_words;
pub mod input;
pub mod key;
pub mod local_env;
pub mod loop_laws;
pub mod managed_auth;
pub mod messages;
pub mod offset;
pub mod outbox;
pub mod proxy;
pub mod queues;
pub mod quota;
pub mod quota_laws;
pub mod quota_requests;
pub mod report_laws;
pub mod request;
pub mod route;
pub mod screen_laws;
pub mod service_laws;
pub mod session_jobs;
pub mod session_laws;
pub mod session_manifests;
pub mod session_messages;
pub mod session_ops;
pub mod session_report_laws;
pub mod session_request_laws;
pub mod session_requests;
pub mod session_rows;
pub mod session_workers;
pub mod sessions;
pub mod settings;
pub mod settings_laws;
pub mod skill_laws;
pub mod skills;
pub mod startup;
pub mod sync_laws;
pub mod table;
pub mod text;
pub mod text_edit;
pub mod time;
pub mod update;
pub mod usage;
pub mod usage_laws;
pub mod usage_loads;
pub mod usage_worker_laws;
pub mod usage_workers;
pub mod webdav;
pub mod worker_laws;
