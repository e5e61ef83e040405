//! Authentication gateway core: a credential and session store, a
//! timing-safe login verifier, an atomic registration flow, and the
//! forward-or-deny decision of a reverse proxy that guards an upstream
//! HTTP service.

pub mod config;
pub mod exceptions;
pub mod gateway;
pub mod gateway_service;
pub mod hashing;
pub mod headers;
pub mod login;
pub mod register;
pub mod storage;
