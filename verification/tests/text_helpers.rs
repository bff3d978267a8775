use trace_stream_rs::common::log_lines::{gz_file_name, log_header, matches_any};
use trace_stream_rs::common::models::LogBody;
use trace_stream_rs::common::text::{concat2, owned, split_char, starts_with, str_eq, utf8_text};
use trace_stream_rs::trace_server::file_store;
use trace_stream_rs::trace_stream::settings::{KafkaConfig, RemoteServerConfig, Settings};
use trace_stream_rs::ntex_auth::StaticOauth;

#[test]
fn string_helpers() {
    assert_eq!(concat2("ab", "cd"), "abcd");
    assert_eq!(owned("日志"), "日志");
    assert!(starts_with("AU0001", "AU"));
    assert!(!starts_with("A", "AU"));
    assert!(starts_with("x", ""));
    assert!(str_eq("日志", "日志"));
    assert!(!str_eq("日志", "日"));
    assert_eq!(split_char("a,b,,c", ','), vec!["a", "b", "", "c"]);
    assert_eq!(split_char(",", ','), vec!["", ""]);
    assert_eq!(split_char("", ','), vec![""]);
    assert_eq!(utf8_text("ü".as_bytes()), Some("ü"));
    assert_eq!(utf8_text(&[0xc3]), None);
}

#[test]
fn header_patterns_and_names() {
    assert_eq!(log_header("1.2.3.4", "api"), "[1.2.3.4:api]");
    assert!(matches_any(&vec!["^x", "^y"], "yes"));
    assert!(!matches_any(&vec!["^x", "^y"], "no"));
    assert!(!matches_any(&vec!["("], "("));
    assert!(!matches_any(&Vec::new(), "anything"));
    assert_eq!(gz_file_name("logs/a.log"), "logs/a.log.gz");
}

#[test]
fn retiring_by_the_clock() {
    let body = LogBody {
        project_name: "p".to_string(),
        server_name: "s".to_string(),
        server_ip: "ip".to_string(),
        log_info: "x".to_string(),
        log_day: "2024-03-01".to_string(),
    };
    match file_store::handle_old_file(&body) {
        Some(f) => assert_eq!(f.file_name, "s-2024-02-29.log"),
        None => assert!(!file_store::is_le_00_30()),
    }
}

#[test]
fn stream_settings_values() {
    let remote = RemoteServerConfig::new("http://h".to_string(), "up".to_string(), "/auth".to_string());
    assert_eq!(remote.get_upload_path(), "up");
    assert_eq!(remote.get_auth_path(), "/auth");
    let s = Settings::new(
        false,
        "logs".to_string(),
        Vec::new(),
        KafkaConfig::new("b".to_string(), "t".to_string(), "u".to_string(), "p".to_string()),
        remote,
        StaticOauth { auth_uid: "1".to_string(), pwd_md5: "m".to_string(), pwd_bcrypt_hash: "h".to_string() },
    );
    assert!(!s.is_debug());
    assert_eq!(s.store_path(), "logs");
    assert_eq!(s.remote_server.get_upload_uri(), "http://h/up");
}
