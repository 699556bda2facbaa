//! A tiny JSON web API: request routing, the handlers' payloads and the
//! JSON text of each response, with contracts checked by Verus.
pub mod json;
pub mod payload;
pub mod response;
pub mod routing;
