//! Verified core of the Boldtrace market-intelligence services.
#![allow(unused_imports)]

pub mod backoff;
pub mod text;
pub mod lexical;
pub mod config;
pub mod discovery;
pub mod streams;
pub mod messages;
pub mod order_book;
pub mod locales;
pub mod i18n;
pub mod clock;
pub mod rate_limit;
pub mod market;
pub mod market_state;
pub mod backtest;
pub mod crypto;
pub mod auth;
pub mod email;
pub mod product;
pub mod bot;
pub mod alarms;
pub mod subscriber;
