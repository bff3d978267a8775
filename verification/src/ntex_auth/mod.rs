//! Static OAuth login and the bearer-token filter in front of the APIs.
pub mod auth_api;
pub mod auth_filter;

use vstd::prelude::*;

verus! {

/// The one account allowed to log in: its user id, the MD5 of its
/// password, and the bcrypt hash of that MD5 text.
#[derive(Debug, Clone)]
pub struct StaticOauth {
    pub auth_uid: String,
    pub pwd_md5: String,
    pub pwd_bcrypt_hash: String,
}

} // verus!
