//! Verified core of a small self-hosted CI server: message catalog lookup,
//! log tailing, build bookkeeping, password checks and page decisions.

pub mod text;
pub mod i18n;
pub mod handlers;
pub mod models;
pub mod templates;
pub mod db;
