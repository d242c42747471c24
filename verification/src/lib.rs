//! A gateway between the messages of a modem and the topics of a Telegram group:
//! its tables, its rules and its flows.
pub mod actions;
pub mod app;
pub mod call_forward;
pub mod clock;
pub mod collate;
pub mod config;
pub mod db;
pub mod decimal;
pub mod google;
pub mod http;
pub mod laws;
pub mod modem;
pub mod modem_mm;
pub mod normalize;
pub mod route;
pub mod rows;
pub mod status;
pub mod tables;
pub mod telegram;
pub mod text;
