//! The login decision of `POST /auth/token`.
use vstd::prelude::*;

use crate::common::biz_code::BizCode;
use crate::common::biz_resp::RespData;
use crate::libs_common::hash_utils::{bcrypt_verify, bcrypt_verify_result};
use crate::ntex_auth::StaticOauth;

verus! {

/// A login request: the user id and the MD5 text of the password.
#[derive(Debug, Clone)]
pub struct LoginUser {
    pub uid: String,
    pub pwd_md5: String,
}

/// The answer to a login request: refused with a response, or granted, in
/// which case a token is issued for the user.
pub enum LoginOutcome {
    Denied(RespData<()>),
    Granted,
}

/// The business code a login is refused with, or `None` when it is
/// granted: no configured account, another user id, or a password whose
/// MD5 text the stored bcrypt hash does not accept (or cannot be checked
/// against).
pub open spec fn login_refusal(oauth: Option<StaticOauth>, user: LoginUser) -> Option<BizCode> {
    match oauth {
        None => Some(BizCode::STATIC_OAUTH_NOT_CONFIG),
        Some(o) => if user.uid@ != o.auth_uid@ {
            Some(BizCode::LOGIN_UID_ERR)
        } else if bcrypt_verify_result(user.pwd_md5@, o.pwd_bcrypt_hash@) == Some(true) {
            None
        } else {
            Some(BizCode::LOGIN_PWD_ERR)
        },
    }
}

/// Decides a login request against the configured account.
pub fn login(oauth: Option<&StaticOauth>, login_user: &LoginUser) -> (r: LoginOutcome)
    ensures
        match login_refusal(
            match oauth {
                Some(o) => Some(*o),
                None => None,
            },
            *login_user,
        ) {
            Some(c) => r matches LoginOutcome::Denied(resp) && resp.code@ == c.code_text()
                && resp.msg@ == c.reason_text() && resp.data is None,
            None => r is Granted,
        },
{
    let oauth = match oauth {
        Some(val) => val,
        None => {
            return LoginOutcome::Denied(RespData::with_biz_code(BizCode::STATIC_OAUTH_NOT_CONFIG));
        },
    };
    if login_user.uid != oauth.auth_uid {
        return LoginOutcome::Denied(RespData::with_biz_code(BizCode::LOGIN_UID_ERR));
    }
    let verify_result = bcrypt_verify(login_user.pwd_md5.as_str(), oauth.pwd_bcrypt_hash.as_str());
    match verify_result {
        Ok(val) => {
            if val {
                LoginOutcome::Granted
            } else {
                LoginOutcome::Denied(RespData::with_biz_code(BizCode::LOGIN_PWD_ERR))
            }
        },
        Err(_) => LoginOutcome::Denied(RespData::with_biz_code(BizCode::LOGIN_PWD_ERR)),
    }
}

/// A request with the configured user id and a password the stored hash
/// accepts is granted; every other request is refused with a response
/// naming why.
pub proof fn law_login_granted_exactly_for_the_account(oauth: StaticOauth, user: LoginUser)
    ensures
        login_refusal(Some(oauth), user) is None <==> (user.uid@ == oauth.auth_uid@
            && bcrypt_verify_result(user.pwd_md5@, oauth.pwd_bcrypt_hash@) == Some(true)),
        login_refusal(None, user) == Some(BizCode::STATIC_OAUTH_NOT_CONFIG),
{
}

} // verus!
