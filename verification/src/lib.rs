//! Upload authorization for an object store: percent-encoding, canonical
//! request construction, credential scope, delegated signing and signed URL
//! assembly, with the surrounding domain types.

pub mod auth;
pub mod canonical;
pub mod client;
pub mod config;
pub mod digest;
pub mod encoding;
pub mod error;
pub mod firestore;
pub mod ids;
pub mod models;
pub mod params;
pub mod scope;
pub mod search;
pub mod signed_url;
pub mod signer;
pub mod spot_use_cases;
pub mod spots;
pub mod storage;
pub mod text;
pub mod upload;
pub mod use_cases;
