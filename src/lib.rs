//! A client of a directory service's trust-framework key sets, authenticated
//! with an OAuth2 client-credentials grant.
//!
//! The library decides and the caller does the input and output: the
//! credential manager says whether its cached bearer token serves or which
//! token request to send, and takes in the answer; the key-set client builds
//! each call (method, URL, headers, JSON body) and maps each answer to its
//! body or to a typed error.

pub mod credentials;
pub mod error;
pub mod json;
pub mod models;
pub mod number;
pub mod policy_keys;
