//! Process-wide configuration, read once at start-up and never changed.

use vstd::prelude::*;

verus! {

/// Settings and secrets of the service.
pub struct Config {
    pub port: String,
    pub _database_url: String,
    pub jwt_secret: String,
    pub ip_info_token: String,
    pub flutterwave_secret_key: String,
    pub hmac_key: String,
}

} // verus!
