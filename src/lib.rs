//! Core of an OAuth2 authorization server for a smart-home service: the
//! client registry, single-use authorization codes, bearer and refresh token
//! bookkeeping, consent decisions, the flows that compose them, the owner's
//! session, and the fulfillment adapter's dispatch of device commands.

pub mod authorizer;
pub mod consent;
pub mod flow;
pub mod fulfillment;
pub mod grant;
pub mod issuer;
pub mod registry;
pub mod session;
pub mod token;
