//! Verified core of the Zaps social-payments platform: the on-chain governance
//! and subscription state machines, the social-payment comment rules, and the
//! pure parts of the backend (status codes, request parsing, query building).

pub mod account;
pub mod governance;
pub mod subscription;
pub mod governance_laws;
pub mod subscription_laws;
pub mod text;
pub mod models;
pub mod social_payment;
pub mod auth;
pub mod api;
pub mod profile;
pub mod webhooks;
