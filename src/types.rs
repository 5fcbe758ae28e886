//! The identity that the client presents when it connects.

use vstd::prelude::*;

verus! {

/// Identifies the calling application to the server: each field becomes a
/// query parameter of the connection address.
#[derive(Clone, Debug, PartialEq)]
pub struct AppIdentifiers {
    pub protocol_version: &'static str,
    pub manufacturer: &'static str,
    pub device: &'static str,
    pub app: &'static str,
    pub app_version: &'static str,
}

} // verus!
