//! A request-interception layer for RPC services: a decorator that wraps an
//! inner handler while preserving its readiness/invocation contract, plus the
//! uniform error-dispatch rules used by the concrete user operations.

pub mod middleware;
pub mod status;
pub mod user;
