use pretty_ls::PathStatus;
use pretty_ls::entry::{FileEntry, RawEntry, RawMeta, get_files, map_data, MAX_DATE_SECS, MIN_DATE_SECS};
use pretty_ls::json::to_json;
use pretty_ls::num::u64_text;
use pretty_ls::render;
use pretty_ls::status_message;
use pretty_ls::table::{table_rows, to_table};
use pretty_ls::EntryType;

fn raw(name: &str, is_dir: bool, len_bytes: u64, modified_secs: Option<i64>) -> RawEntry {
    RawEntry {
        name: Some(name.to_string()),
        meta: Some(RawMeta { is_dir, len_bytes, modified_secs }),
    }
}

// 2024-01-02 00:00:00 UTC
const REPORT_SECS: i64 = 1704153600;

fn report_txt() -> RawEntry {
    raw("report.txt", false, 1234, Some(REPORT_SECS))
}

#[test]
fn listing_keeps_every_readable_entry() {
    let raws = vec![
        raw("a.txt", false, 1, Some(0)),
        raw("b", true, 2, None),
        raw("c.log", false, 3, Some(REPORT_SECS)),
    ];
    let records = get_files(&raws);
    assert_eq!(records.len(), 3);

    let parsed: serde_json::Value = serde_json::from_str(&to_json(&records)).unwrap();
    let arr = parsed.as_array().unwrap();
    assert_eq!(arr.len(), 3);
    for item in arr {
        assert!(item["len_bytes"].as_u64().is_some());
    }
}

#[test]
fn missing_path_message_is_exact() {
    let msg = status_message(PathStatus::Missing).unwrap();
    assert_eq!(msg, "Path does not exist.");
}

#[test]
fn unreadable_path_message_is_exact() {
    let msg = status_message(PathStatus::Unreadable).unwrap();
    assert_eq!(msg, "Error reading directory");
}

#[test]
fn existing_path_gets_no_message() {
    assert!(status_message(PathStatus::Exists).is_none());
}

#[test]
fn json_record_for_report_txt() {
    let records = get_files(&vec![report_txt()]);
    assert_eq!(
        to_json(&records),
        "[{\"name\":\"report.txt\",\"e_type\":\"File\",\"len_bytes\":1234,\"modified\":\"Tue Jan  2 2024\"}]"
    );
}

#[test]
fn date_formatting_matches_chrono_for_more_dates() {
    // 2024-01-16, a two-digit day; 1969-12-31, before the epoch.
    let records = get_files(&vec![
        raw("x", false, 0, Some(REPORT_SECS + 14 * 86400)),
        raw("y", false, 0, Some(-86400)),
    ]);
    assert_eq!(records[0].modified, "Tue Jan 16 2024");
    assert_eq!(records[1].modified, "Wed Dec 31 1969");
}

#[test]
fn subdirectory_maps_to_dir_kind() {
    let records = get_files(&vec![raw("build", true, 4096, Some(0))]);
    assert!(matches!(records[0].e_type, EntryType::Dir));
    let parsed: serde_json::Value = serde_json::from_str(&to_json(&records)).unwrap();
    assert_eq!(parsed[0]["e_type"].as_str().unwrap(), "Dir");
    assert_eq!(records[0].e_type.label(), "Dir");
}

#[test]
fn both_modes_describe_same_names_and_sizes() {
    let raws = vec![report_txt(), raw("build", true, 4096, Some(0))];
    let records = get_files(&raws);
    let json = render(&records, true);
    let table = render(&records, false);

    let parsed: serde_json::Value = serde_json::from_str(&json).unwrap();
    let arr = parsed.as_array().unwrap();
    assert_eq!(arr.len(), 2);
    for item in arr {
        let name = item["name"].as_str().unwrap();
        let size = item["len_bytes"].as_u64().unwrap();
        assert!(table.contains(name));
        assert!(table.contains(&size.to_string()));
    }
}

#[test]
fn unreadable_entry_is_absent_and_others_unaffected() {
    let broken = RawEntry { name: Some("broken".to_string()), meta: None };
    let with_broken = vec![report_txt(), broken, raw("build", true, 4096, Some(0))];
    let without = vec![report_txt(), raw("build", true, 4096, Some(0))];

    let records = get_files(&with_broken);
    assert_eq!(records.len(), 2);
    assert_eq!(to_json(&records), to_json(&get_files(&without)));
    assert_eq!(to_table(&records), to_table(&get_files(&without)));
    assert!(!to_json(&records).contains("broken"));
}

#[test]
fn map_data_drops_only_metadata_failures() {
    let mut data: Vec<FileEntry> = Vec::new();
    map_data(&mut data, &RawEntry { name: Some("gone".to_string()), meta: None });
    assert_eq!(data.len(), 0);
    map_data(&mut data, &report_txt());
    assert_eq!(data.len(), 1);
    assert_eq!(data[0].name, "report.txt");
    assert_eq!(data[0].len_bytes, 1234);
}

#[test]
fn undecodable_name_gets_placeholder() {
    let entry = RawEntry {
        name: None,
        meta: Some(RawMeta { is_dir: false, len_bytes: 7, modified_secs: None }),
    };
    let records = get_files(&vec![entry]);
    assert_eq!(records[0].name, "unknown name");
}

#[test]
fn missing_timestamp_gives_empty_modified() {
    let records = get_files(&vec![raw("x", false, 0, None)]);
    assert_eq!(records[0].modified, "");
    let parsed: serde_json::Value = serde_json::from_str(&to_json(&records)).unwrap();
    assert_eq!(parsed[0]["modified"].as_str().unwrap(), "");
}

#[test]
fn unrepresentable_timestamp_gives_empty_modified() {
    let records = get_files(&vec![
        raw("x", false, 0, Some(i64::MAX)),
        raw("y", false, 0, Some(i64::MIN)),
    ]);
    assert_eq!(records[0].modified, "");
    assert_eq!(records[1].modified, "");
}

#[test]
fn timestamp_bounds_are_exact() {
    let records = get_files(&vec![
        raw("last", false, 0, Some(MAX_DATE_SECS)),
        raw("first", false, 0, Some(MIN_DATE_SECS)),
        raw("past_last", false, 0, Some(MAX_DATE_SECS + 1)),
        raw("before_first", false, 0, Some(MIN_DATE_SECS - 1)),
    ]);
    assert!(!records[0].modified.is_empty());
    assert!(!records[1].modified.is_empty());
    assert_eq!(records[2].modified, "");
    assert_eq!(records[3].modified, "");
}

#[test]
fn empty_directory_renders_as_empty_array() {
    let records = get_files(&Vec::new());
    assert_eq!(to_json(&records), "[]");
}

#[test]
fn json_escapes_special_characters() {
    let records = get_files(&vec![raw("a\"b\\c\nd\u{1}", false, 0, None)]);
    let json = to_json(&records);
    assert!(json.contains("\"name\":\"a\\\"b\\\\c\\nd\\u0001\""));
    let parsed: serde_json::Value = serde_json::from_str(&json).unwrap();
    assert_eq!(parsed[0]["name"].as_str().unwrap(), "a\"b\\c\nd\u{1}");
}

#[test]
fn size_text_is_plain_decimal() {
    assert_eq!(u64_text(0), "0");
    assert_eq!(u64_text(1234), "1234");
    assert_eq!(u64_text(u64::MAX), "18446744073709551615");
}

#[test]
fn table_has_header_and_one_row_per_record() {
    let records = get_files(&vec![report_txt(), raw("build", true, 4096, Some(0))]);
    let rows = table_rows(&records);
    assert_eq!(rows.len(), 3);
    assert_eq!(rows[0], vec!["Name", "Type", "Size B", "modified"]);
    assert_eq!(rows[1], vec!["report.txt", "File", "1234", "Tue Jan  2 2024"]);
    assert_eq!(rows[2], vec!["build", "Dir", "4096", "Thu Jan  1 1970"]);
}

#[test]
fn table_text_is_drawn_with_borders_and_colors() {
    let records = get_files(&vec![report_txt()]);
    let table = to_table(&records);
    assert!(table.contains("report.txt"));
    assert!(table.contains('\u{256d}')); // rounded top-left corner
    assert!(table.contains("\u{1b}[96m")); // bright cyan on the name column
    assert!(table.contains("\u{1b}[92m")); // bright green on the header row
}
