use trace_stream_rs::common::models::{LogBody, LogInfo};
use trace_stream_rs::libs_common::models::LogBody as UploadBody;
use trace_stream_rs::log_monitor::{self, Eoplog, LogFileMonitor};
use trace_stream_rs::trace_server::settings::{config_file_path, Settings as ServerSettings};
use trace_stream_rs::trace_stream::api_upload::{parse_resp, send_log_request, store_access_token_value};
use trace_stream_rs::trace_stream::log_monitor::{init_monitor, LogInfoMonitor};
use trace_stream_rs::trace_stream::settings::{KafkaConfig, RemoteServerConfig};

#[test]
fn endpoint_addresses() {
    let remote = RemoteServerConfig::new("http://trace:7200".to_string(), "/api/trace/collect".to_string(), "api/auth/token".to_string());
    assert_eq!(remote.get_server_domain(), "http://trace:7200");
    assert_eq!(remote.get_upload_uri(), "http://trace:7200/api/trace/collect");
    assert_eq!(remote.get_auth_uri(), "http://trace:7200/api/auth/token");
    assert_eq!(remote.with_domain(&"".to_string()), "http://trace:7200/");
}

#[test]
fn kafka_and_server_settings() {
    let k = KafkaConfig::new("b:9092".to_string(), "logs".to_string(), "u".to_string(), "p".to_string());
    assert_eq!((k.get_broker().as_str(), k.get_topic().as_str()), ("b:9092", "logs"));
    assert_eq!((k.get_username().as_str(), k.get_password().as_str()), ("u", "p"));
    let s = ServerSettings::new(true, "/var/log/trace".to_string());
    assert!(s.is_debug());
    assert_eq!(s.store_path(), "/var/log/trace");
    assert_eq!(config_file_path("conf/settings", None), "conf/settings-dev");
    assert_eq!(config_file_path("conf/settings", Some("prod")), "conf/settings-prod");
}

#[test]
fn upload_requests() {
    let remote = RemoteServerConfig::new("http://trace".to_string(), "upload".to_string(), "/login".to_string());
    let token = store_access_token_value("abc");
    assert_eq!(token, "Bearer abc");
    let req = send_log_request(&remote, Some(&token));
    assert_eq!(req.uri, "http://trace/upload");
    assert_eq!(req.authorization, Some("Bearer abc".to_string()));
    assert_eq!(req.content_type, "application/json");
    assert_eq!(send_log_request(&remote, None).authorization, None);
}

#[test]
fn relogin_decisions() {
    assert!(parse_resp(200, Some("AU0002")));
    assert!(!parse_resp(200, Some("000000")));
    assert!(!parse_resp(401, Some("AU0002")));
    assert!(!parse_resp(200, None));
    assert!(!parse_resp(200, Some("A")));
}

#[test]
fn log_bodies() {
    let info = LogInfo::new("shop".to_string(), "api".to_string(), "/var/log/api.log".to_string());
    assert_eq!(info.get_server_name(), "api");
    assert_eq!(info.get_path(), "/var/log/api.log");
    let monitor = LogInfoMonitor::new(&info);
    let body = monitor.log_body_for("hello\nworld".as_bytes(), "1.2.3.4".to_string()).unwrap();
    assert_eq!(body.project_name, "shop");
    assert_eq!(body.server_name, "api");
    assert_eq!(body.server_ip, "1.2.3.4");
    assert_eq!(body.log_info, "hello\nworld");
    assert_eq!(body.log_day.len(), 10);
    assert!(monitor.log_body_for(&[0xff, 0xfe], "1.2.3.4".to_string()).is_none());
    let fixed = LogBody {
        project_name: "shop".to_string(),
        server_name: "api".to_string(),
        server_ip: "1.2.3.4".to_string(),
        log_info: "x".to_string(),
        log_day: "2024-02-22".to_string(),
    };
    assert_eq!(fixed.print_base(), "day[2024-02-22] server[1.2.3.4:api]");
    let up = UploadBody::new("api".to_string(), "1.2.3.4".to_string(), "boot".to_string());
    assert_eq!(up.log_day.len(), 10);
    assert_eq!(up.display(), "[server:1.2.3.4api]: 「\nboot\n」");
}

#[test]
fn monitors_per_source() {
    let infos = vec![
        LogInfo::new("p".to_string(), "a".to_string(), "/a.log".to_string()),
        LogInfo::new("p".to_string(), "b".to_string(), "/b.log".to_string()),
    ];
    let monitors = init_monitor(&infos);
    assert_eq!(monitors.len(), 2);
    assert_eq!(monitors[1].log_info().get_path(), "/b.log");
    let logs = vec![Eoplog { path: "/x.log".to_string(), ser_name: "x".to_string() }];
    let file_monitors = log_monitor::init_monitor(&logs);
    assert_eq!(file_monitors.len(), 1);
    assert_eq!(file_monitors[0].path(), "/x.log");
    let m = LogFileMonitor::new(&logs[0]);
    assert_eq!(m.ser_name(), "x");
}
