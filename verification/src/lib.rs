//! Client library for the Teeskins asset-catalog service.
//!
//! The library owns everything that can be checked: the data model, the
//! category wire names, the request-URL builders, and the decoding of the
//! service's JSON response bodies into typed records.  Performing the HTTP
//! GET itself is left to the caller, who hands the raw reply back to the
//! accessors of [`api::TeeskinsApi`].

pub mod api;
pub mod data;
pub mod json;
