//! The resident tray program: a tray icon with a context menu, a local
//! HTTP configuration server and a background worker.

pub mod action;
pub mod app;
pub mod log_format;
pub mod config;
pub mod server;
pub mod icon;
pub mod worker;
