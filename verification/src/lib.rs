//! Order lifecycle and payment reconciliation for a food-ordering service.
//!
//! The crate holds the rules of the service as verified code: how an order is
//! priced from the catalog, which status changes are legal, when a payment
//! session is created or polled, and who may complete or cancel an order.
//! Database access, HTTP and notification delivery are left to the caller,
//! which hands in plain values and acts on the plain values it gets back.
//!
//! - [`status`], [`order`]: an order, its status and the changes it allows.
//! - [`catalog`]: the items on offer and how requested lines are resolved.
//! - [`store`], [`controller`], [`listing`]: the table of orders and what
//!   users and restaurants do with it.
//! - [`payment`], [`signature`]: requests to the payment provider and what its
//!   answers mean.
//! - [`auth`], [`accounts`], [`notification`], [`stats`], [`config`]: who is
//!   asking, accounts, notices, figures and settings.
//! - [`laws`]: what holds of every order and every table.

pub mod accounts;
pub mod auth;
pub mod catalog;
pub mod config;
pub mod controller;
pub mod error;
pub mod laws;
pub mod listing;
pub mod notification;
pub mod order;
pub mod payment;
pub mod signature;
pub mod stats;
pub mod status;
pub mod store;
pub mod text;
