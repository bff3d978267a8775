use std::io::Read;
use trace_stream_rs::common::log_lines::{format_line_with, format_log_lines, gz_file_name, log_file_name, render_lines};
use trace_stream_rs::common::models::LogBody;
use trace_stream_rs::trace_server::async_store_compress;
use trace_stream_rs::trace_server::file_store::{self, CompressAction};
use trace_stream_rs::trace_server::store_compress;

fn body(log_info: &str, log_day: &str) -> LogBody {
    LogBody {
        project_name: "shop".to_string(),
        server_name: "api".to_string(),
        server_ip: "10.0.0.7".to_string(),
        log_info: log_info.to_string(),
        log_day: log_day.to_string(),
    }
}

#[test]
fn timestamp_detection() {
    assert!(store_compress::starts_with_date("2024-02-22 08:13:07 INFO started"));
    assert!(!store_compress::starts_with_date("[2024-02-22 08:13:07] INFO started"));
    assert!(!store_compress::starts_with_date("  at Foo.bar(Foo.java:12)"));
    assert!(!store_compress::starts_with_date("x2024-02-22 08:13:07"));
    assert!(async_store_compress::starts_with_date("2024-02-22 08:13:07 INFO"));
    assert!(async_store_compress::starts_with_date("[2024-02-22] INFO"));
    assert!(async_store_compress::starts_with_date("[2024-02-22T08:13:07Z] INFO"));
    assert!(!async_store_compress::starts_with_date("2024-02-22T08:13:07 INFO"));
    assert!(file_store::starts_with_date("[2024-02-22 x"));
    assert!(!file_store::starts_with_date(""));
}

#[test]
fn lines_are_split_and_prefixed() {
    let patterns = vec!["^\\d{4}-\\d{2}-\\d{2} \\d{2}:\\d{2}:\\d{2}"];
    let lines = format_log_lines(
        &patterns,
        "[10.0.0.7:api]",
        "2024-02-22 08:13:07 INFO a\n  detail\n\n2024-02-22 08:13:08 WARN b\n",
    );
    assert_eq!(
        lines,
        vec![
            "[10.0.0.7:api] 2024-02-22 08:13:07 INFO a".to_string(),
            "  detail".to_string(),
            "".to_string(),
            "[10.0.0.7:api] 2024-02-22 08:13:08 WARN b".to_string(),
            "".to_string(),
        ]
    );
    assert_eq!(format_log_lines(&patterns, "[h]", ""), vec!["".to_string()]);
    assert_eq!(format_log_lines(&patterns, "[h]", "中文 日志\n日志"), vec!["中文 日志".to_string(), "日志".to_string()]);
}

#[test]
fn rendering_lines() {
    let lines = vec!["a".to_string(), "".to_string(), "b".to_string()];
    assert_eq!(render_lines(&lines, false, true), "a\n\nb\n");
    assert_eq!(render_lines(&lines, true, true), "a\nb\n");
    assert_eq!(render_lines(&lines, true, false), "ab");
    assert_eq!(store_compress::writeln_text(&lines), "a\n\nb\n");
    assert_eq!(async_store_compress::write_async_text(&lines), "ab");
    assert_eq!(file_store::store_data_text(&lines), "a\nb\n");
    assert_eq!(render_lines(&Vec::new(), false, true), "");
}

#[test]
fn store_plan_for_an_existing_file() {
    let plan = store_compress::store(&body("2024-02-22 08:13:07 boot\nnext", "2024-02-22"), true);
    assert_eq!(plan.file_name, "api-2024-02-22.log");
    assert_eq!(plan.lines, vec!["[10.0.0.7:api] 2024-02-22 08:13:07 boot".to_string(), "next".to_string()]);
    assert!(plan.append);
    assert_eq!(plan.compress, None);
}

#[test]
fn store_plan_for_a_new_file_compresses_the_previous_day() {
    let plan = store_compress::store(&body("x", "2024-03-01"), false);
    assert!(!plan.append);
    assert_eq!(plan.compress, Some("api-2024-02-29.log".to_string()));
    let plan = store_compress::store(&body("x", "2024-01-01"), false);
    assert_eq!(plan.compress, Some("api-2023-12-31.log".to_string()));
}

#[test]
fn async_store_plan() {
    let plan = async_store_compress::store(&body("2024-02-22 08:13:07 a\n\n[2024-02-22] b", "2024-02-22"), false);
    assert_eq!(plan.dir_name, "shop/");
    assert_eq!(plan.file_name, "api-2024-02-22.log");
    assert_eq!(plan.map_key, "shop-api");
    assert_eq!(plan.payload, "[10.0.0.7:api] 2024-02-22 08:13:07 a[10.0.0.7:api] [2024-02-22] b");
    assert!(plan.create);
    assert_eq!(plan.compress, Some("api-2024-02-21.log".to_string()));
    let plan = async_store_compress::store(&body("a", "2024-02-22"), true);
    assert!(!plan.create);
    assert_eq!(plan.compress, None);
}

#[test]
fn file_store_plan() {
    let plan = file_store::send_file_data(&body("line", "2024-02-22"));
    assert_eq!(plan.dir_name, "shop/");
    assert_eq!(plan.file_name, "api-2024-02-22.log");
    assert_eq!(plan.map_key, "shop-api-2024-02-22");
    assert_eq!(plan.lines, vec!["line".to_string()]);
}

#[test]
fn previous_day_file() {
    let f = file_store::build_preday_file(&body("x", "2024-03-01")).unwrap();
    assert_eq!(f.file_name, "api-2024-02-29.log");
    assert_eq!(f.map_key, "shop-api-2024-02-29");
    assert!(file_store::handle_old_file_at(&body("x", "2024-03-01"), 0, 10).is_some());
    assert!(file_store::handle_old_file_at(&body("x", "2024-03-01"), 0, 30).is_none());
    assert!(file_store::handle_old_file_at(&body("x", "2024-03-01"), 13, 5).is_none());
}

#[test]
fn day_30() {
    if file_store::is_le_00_30() {
        println!("it is before 00:30");
    } else {
        println!("it is 00:30 or later");
    }
    assert!(file_store::is_le_00_30_at(0, 0));
    assert!(file_store::is_le_00_30_at(0, 29));
    assert!(!file_store::is_le_00_30_at(0, 30));
    assert!(!file_store::is_le_00_30_at(23, 59));
}

#[test]
fn old_files_are_renamed_or_compressed() {
    assert!(file_store::is_le_2k(2048));
    assert!(!file_store::is_le_2k(2049));
    match file_store::compress_file("logs/api-2024-02-21.log", 2048) {
        CompressAction::Rename(to) => assert_eq!(to, "logs/api-2024-02-21.log.log"),
        CompressAction::Gzip(_) => panic!("small files are renamed"),
    }
    match file_store::compress_file("logs/api-2024-02-21.log", 4096) {
        CompressAction::Gzip(to) => assert_eq!(to, "logs/api-2024-02-21.log.gz"),
        CompressAction::Rename(_) => panic!("large files are compressed"),
    }
}

#[test]
fn log_file_names() {
    assert_eq!(log_file_name("api", "2024-02-22"), "api-2024-02-22.log");
}

#[test]
fn gzip_of_log_contents() {
    let data = "2024-02-22 08:13:07 INFO a\nline\n".repeat(100);
    let compressed = file_store::gzip_bytes(data.as_bytes());
    assert_eq!(&compressed[..2], &[0x1f, 0x8b]);
    assert_ne!(compressed, data.as_bytes());
    assert_eq!(compressed, file_store::gzip_bytes(data.as_bytes()));
    let mut decoded = String::new();
    flate2::read::GzDecoder::new(&compressed[..]).read_to_string(&mut decoded).unwrap();
    assert_eq!(decoded, data);
}

#[test]
fn unparsable_day_still_has_a_previous_file() {
    assert!(file_store::build_preday_file(&body("x", "not a day")).is_some());
    assert!(file_store::handle_old_file_at(&body("x", "not a day"), 0, 5).is_some());
    assert!(store_compress::store(&body("x", "not a day"), false).compress.is_some());
}

#[test]
fn test_compress_file() {
    let input_path = "./logs/default.log-20240222-0.log";
    assert_eq!(gz_file_name(input_path), "./logs/default.log-20240222-0.log.gz");
    match file_store::compress_file(input_path, 4096) {
        CompressAction::Gzip(to) => assert_eq!(to, "./logs/default.log-20240222-0.log.gz"),
        CompressAction::Rename(_) => panic!("a file over 2 KiB is compressed"),
    }
    let contents = "[10.0.0.7:api] 2024-02-22 23:59:59 INFO closing\n".repeat(80);
    let compressed = file_store::gzip_bytes(contents.as_bytes());
    assert!(compressed.len() < contents.len());
    let mut decoded = String::new();
    flate2::read::GzDecoder::new(&compressed[..]).read_to_string(&mut decoded).unwrap();
    assert_eq!(decoded, contents);
}

#[test]
fn one_line_formatted_by_match() {
    assert_eq!(format_line_with("[10.0.0.7:api]", "2024-02-22 08:13:07 a", true), "[10.0.0.7:api] 2024-02-22 08:13:07 a");
    assert_eq!(format_line_with("[10.0.0.7:api]", "continued", false), "continued");
    assert_eq!(format_line_with("[h]", "", true), "[h] ");
}

#[test]
fn same_day_bodies_append_to_one_file() {
    let first = async_store_compress::store(&body("2024-02-22 08:13:07 a\nb", "2024-02-22"), false);
    let second = async_store_compress::store(&body("[2024-02-22] c", "2024-02-22"), true);
    assert_eq!(first.dir_name, second.dir_name);
    assert_eq!(first.file_name, second.file_name);
    assert_eq!(first.map_key, second.map_key);
    assert!(first.create);
    assert!(!second.create);
    assert_eq!(second.compress, None);
    let held = format!("{}{}", first.payload, second.payload);
    assert_eq!(held, "[10.0.0.7:api] 2024-02-22 08:13:07 ab[10.0.0.7:api] [2024-02-22] c");
    let mut both = first.lines.clone();
    both.extend(second.lines.clone());
    assert_eq!(render_lines(&both, true, false), held);
}
