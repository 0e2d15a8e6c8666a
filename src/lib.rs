//! A forward HTTP proxy core: domain classification, gateway rewriting,
//! request routing, error responses and the CONNECT tunnel state machine.

pub mod classify;
pub mod config;
pub mod dispatch;
pub mod error;
pub mod rewrite;
pub mod tunnel;
