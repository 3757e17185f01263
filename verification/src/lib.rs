//! The core of a service that keeps a user's drivers, vehicles and
//! organisation details and prints waybills ("путевые листы") for them
//! through Typst, with sign-in through Yandex.
//!
//! - `typst`: escaping text for Typst string literals.
//! - `waybill`: the Typst source of one waybill and of its task table.
//! - `print`: printing a batch of waybills, step by step.
//! - `records`: the stored records and the answers to changes of them.
//! - `session`: session ids, their lifetime, and the session cookie.
//! - `auth`: signing in with Yandex, step by step, and finding the user of
//!   a request.
//! - `config`: addresses and settings of the service.

pub mod auth;
pub mod config;
pub mod print;
pub mod records;
pub mod session;
pub mod typst;
pub mod waybill;
