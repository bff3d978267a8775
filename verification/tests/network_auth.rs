use trace_stream_rs::common::biz_code::BizCode;
use trace_stream_rs::common::biz_error::BizError;
use trace_stream_rs::libs_common::hash_utils::bcrypt_hash;
use trace_stream_rs::log_upload::http_client::get_pub_ip_str;
use trace_stream_rs::libs_common::ip_util::{get_ipv4_address, get_ipv4_from, IpAddress, NetworkInterface};
use trace_stream_rs::ntex_auth::auth_api::{login, LoginOutcome, LoginUser};
use trace_stream_rs::ntex_auth::auth_filter::{FilterDecision, JwtFilter};
use trace_stream_rs::ntex_auth::StaticOauth;

fn iface(is_loopback: bool, ips: Vec<IpAddress>) -> NetworkInterface {
    NetworkInterface { is_loopback, ips }
}

#[test]
fn ipv4_selection() {
    let lo = iface(true, vec![IpAddress::V4([127, 0, 0, 1]), IpAddress::V4([10, 0, 0, 1])]);
    let v6_only = iface(false, vec![IpAddress::V6([0xfe80, 0, 0, 0, 0, 0, 0, 1])]);
    let eth = iface(
        false,
        vec![IpAddress::V6([0xfe80, 0, 0, 0, 0, 0, 0, 2]), IpAddress::V4([127, 0, 1, 1]), IpAddress::V4([192, 168, 1, 20])],
    );
    let wlan = iface(false, vec![IpAddress::V4([172, 16, 0, 3])]);
    assert_eq!(get_ipv4_address(&eth), Some(IpAddress::V4([192, 168, 1, 20])));
    assert_eq!(get_ipv4_address(&v6_only), None);
    assert_eq!(get_ipv4_from(&vec![lo.clone(), v6_only.clone(), eth.clone(), wlan.clone()]), Some(IpAddress::V4([192, 168, 1, 20])));
    assert_eq!(get_ipv4_from(&vec![wlan, eth]), Some(IpAddress::V4([172, 16, 0, 3])));
    assert_eq!(get_ipv4_from(&vec![lo, v6_only]), None);
    assert_eq!(get_ipv4_from(&Vec::new()), None);
}

#[test]
fn test_get_ipv4() {
    let interfaces = vec![
        iface(true, vec![IpAddress::V4([127, 0, 0, 1])]),
        iface(false, vec![IpAddress::V4([127, 0, 1, 1]), IpAddress::V4([10, 1, 2, 3])]),
    ];
    let ip = get_ipv4_from(&interfaces);
    println!("ip: {:?}", ip);
    assert_eq!(ip, Some(IpAddress::V4([10, 1, 2, 3])));
}

#[test]
fn public_address_text() {
    assert_eq!(get_pub_ip_str(Some("203.0.113.9".to_string())), "203.0.113.9");
    assert_eq!(get_pub_ip_str(None), "");
}

fn account() -> StaticOauth {
    StaticOauth {
        auth_uid: "101".to_string(),
        pwd_md5: "4cb8304e3eab0d86044fcf9dd07f7cd5".to_string(),
        pwd_bcrypt_hash: bcrypt_hash("4cb8304e3eab0d86044fcf9dd07f7cd5").ok().unwrap(),
    }
}

fn user(uid: &str, pwd_md5: &str) -> LoginUser {
    LoginUser { uid: uid.to_string(), pwd_md5: pwd_md5.to_string() }
}

fn denied_code(outcome: LoginOutcome) -> (String, String) {
    match outcome {
        LoginOutcome::Denied(resp) => (resp.code, resp.msg),
        LoginOutcome::Granted => panic!("expected a refusal"),
    }
}

#[test]
fn login_decisions() {
    let oauth = account();
    assert!(matches!(login(Some(&oauth), &user("101", "4cb8304e3eab0d86044fcf9dd07f7cd5")), LoginOutcome::Granted));
    assert_eq!(denied_code(login(None, &user("101", "x"))), ("000002".to_string(), "static oauth info not config".to_string()));
    assert_eq!(denied_code(login(Some(&oauth), &user("102", "4cb8304e3eab0d86044fcf9dd07f7cd5"))), ("AU0008".to_string(), "Login uid incorrect".to_string()));
    assert_eq!(denied_code(login(Some(&oauth), &user("101", "wrong"))), ("AU0009".to_string(), "Login password incorrect".to_string()));
    let broken = StaticOauth { pwd_bcrypt_hash: "garbage".to_string(), ..oauth };
    assert_eq!(denied_code(login(Some(&broken), &user("101", "x"))).0, "AU0009");
}

#[test]
fn jwt_filter_decisions() {
    let mw = JwtFilter.create(5u8);
    assert_eq!(*mw.service(), 5);
    assert!(mw.skips_auth("/api/auth/token"));
    assert!(!mw.skips_auth("/api/trace/collect"));
    assert!(matches!(mw.call("/api/auth/token", Err(BizError::new(BizCode::JWT_INVALID))), FilterDecision::Forward));
    match mw.call("/api/trace/collect", Ok("{\"uid\":\"101\"}".to_string())) {
        FilterDecision::ForwardWithUser(u) => assert_eq!(u, "{\"uid\":\"101\"}"),
        _ => panic!("expected the user to pass"),
    }
    match mw.call("/api/trace/collect", Err(BizError::new(BizCode::JWT_INVALID))) {
        FilterDecision::Reject(resp) => {
            assert_eq!(resp.code, "AU0002");
            assert_eq!(resp.msg, "jwt token not valid");
        }
        _ => panic!("expected a refusal"),
    }
}
