use trace_stream_rs::common::biz_code::{canonical_reason, BizCode};
use trace_stream_rs::common::biz_error::BizError;
use trace_stream_rs::common::biz_resp::RespData;

#[test]
fn biz_code_text_and_reason() {
    assert_eq!(BizCode::SUCCESS.code(), "000000");
    assert_eq!(BizCode::SUCCESS.reason(), Some("Success"));
    assert_eq!(BizCode::LOGIN_PWD_ERR.code(), "AU0009");
    assert_eq!(BizCode::LOGIN_PWD_ERR.reason(), Some("Login password incorrect"));
    assert_eq!(BizCode::REQWEST_ERROR.code_reason(), "NET001: Send log to server error");
    assert_eq!(BizCode::DIESEL_ERROR.code_reason(), "ORM001: Diesel error");
}

#[test]
fn every_code_has_a_reason() {
    let all = [
        BizCode::SUCCESS,
        BizCode::SYSTEM_ERROR,
        BizCode::STATIC_OAUTH_NOT_CONFIG,
        BizCode::BCRYPT_ERROR,
        BizCode::WRONG_CREDENTIALS,
        BizCode::JWT_INVALID,
        BizCode::JWT_CREATION_ERR,
        BizCode::LOGIN_TIMEOUT,
        BizCode::INVALID_AUTH_HEADER,
        BizCode::NO_PERMISSION,
        BizCode::LOGOUT_SUCCESS,
        BizCode::LOGIN_UID_ERR,
        BizCode::LOGIN_PWD_ERR,
        BizCode::DATABASE_ERROR,
        BizCode::DIESEL_ERROR,
        BizCode::USER_NOT_FOUND,
        BizCode::LOG_TO_JSON_STRING_ERROR,
        BizCode::REQWEST_ERROR,
    ];
    for (i, a) in all.iter().enumerate() {
        assert!(a.reason().is_some());
        assert_eq!(canonical_reason(a.code()), a.reason());
        for b in all.iter().skip(i + 1) {
            assert_ne!(a.code(), b.code());
        }
    }
}

#[test]
fn canonical_reason_lookup() {
    assert_eq!(canonical_reason("AU0001"), Some("wrong credentials"));
    assert_eq!(canonical_reason("LG0001"), Some("LogBody to json string error"));
    assert_eq!(canonical_reason("XX0000"), None);
    assert_eq!(canonical_reason(""), None);
    assert_eq!(canonical_reason("au0001"), None);
}

#[test]
fn biz_error_texts() {
    let e = BizError::new(BizCode::LOGIN_TIMEOUT);
    assert_eq!(e.biz_code, BizCode::LOGIN_TIMEOUT);
    assert_eq!(e.to_string(), "Login timeout: ");
    assert_eq!(e.code_reason(), "AU0004: Login timeout");
    assert_eq!(e.to_debug_string(), "AU0004: Login timeout: ");
    let e = BizError::with_err(BizCode::BCRYPT_ERROR, "bad hash".to_string());
    assert_eq!(e.to_string(), "Bcrypt error: bad hash");
    assert_eq!(e.to_debug_string(), "BE0001: Bcrypt error: bad hash");
}

#[test]
fn resp_data_builders() {
    let r = RespData::with_success(42u32);
    assert_eq!(r.code, "000000");
    assert_eq!(r.msg, "Success");
    assert_eq!(r.data, Some(42));
    let r = RespData::success();
    assert_eq!((r.code.as_str(), r.msg.as_str(), r.data), ("000000", "Success", None));
    let r = RespData::with_biz_code(BizCode::NO_PERMISSION);
    assert_eq!((r.code.as_str(), r.msg.as_str(), r.data), ("AU0006", "no permission", None));
    let r = RespData::with_biz_code_err(BizCode::SYSTEM_ERROR, &"disk full".to_string());
    assert_eq!((r.code.as_str(), r.msg.as_str()), ("000001", "System error: disk full"));
    let r = RespData::from_biz_error(&BizError::with_err(BizCode::USER_NOT_FOUND, "id 7".to_string()));
    assert_eq!((r.code.as_str(), r.msg.as_str(), r.data), ("UR0001", "User not found: id 7", None));
}

#[test]
fn error_response_matches_code_response() {
    let err = "timeout".to_string();
    let a = RespData::from_biz_error(&BizError::with_err(BizCode::REQWEST_ERROR, err.clone()));
    let b = RespData::with_biz_code_err(BizCode::REQWEST_ERROR, &err);
    assert_eq!((a.code, a.msg), (b.code, b.msg));
    let plain = RespData::from_biz_error(&BizError::new(BizCode::JWT_INVALID));
    assert_eq!(plain.msg, "jwt token not valid: ");
}
