use std::time::Duration;

use rust_rclone::filter::RcFilter;
use rust_rclone::job::{JobStep, JobWait};
use rust_rclone::notice::{conflicts_of, extract_path_from_notice, strip_ansi};
use rust_rclone::wire::{Field, Leaf, LeafField, RcRequest, Value};
use rust_rclone::{BisyncOutput, DirectoryItem, Error, JobStatus, RcClient};

fn leaf_json(leaf: &Leaf) -> serde_json::Value {
    match leaf {
        Leaf::Text(t) => serde_json::Value::String(t.clone()),
        Leaf::Flag(b) => serde_json::Value::Bool(*b),
        Leaf::Number(n) => serde_json::Value::from(*n),
        Leaf::Texts(list) => serde_json::Value::from(list.clone()),
    }
}

fn object_json(fields: &[LeafField]) -> serde_json::Value {
    let mut map = serde_json::Map::new();
    for field in fields {
        map.insert(field.key.clone(), leaf_json(&field.value));
    }
    serde_json::Value::Object(map)
}

fn body_json(body: &[Field]) -> String {
    let mut map = serde_json::Map::new();
    for field in body {
        let value = match &field.value {
            Value::Leaf(leaf) => leaf_json(leaf),
            Value::Object(fields) => object_json(fields),
        };
        map.insert(field.key.clone(), value);
    }
    serde_json::Value::Object(map).to_string()
}

fn same_json(req: &RcRequest, expected: &str) -> bool {
    let got: serde_json::Value = serde_json::from_str(&body_json(&req.body)).unwrap();
    let want: serde_json::Value = serde_json::from_str(expected).unwrap();
    got == want
}

fn status(error: &str, output: Option<&str>) -> JobStatus {
    JobStatus {
        id: 1,
        finished: true,
        success: false,
        error: error.to_string(),
        output: output.map(|o| BisyncOutput {
            output: o.to_string(),
            base_path: String::new(),
            session: String::new(),
        }),
    }
}

#[test]
fn parse_conflicts_extracts_pair() {
    let output = "2026/06/18 17:29:23 NOTICE: - Path1    Renaming Path1 copy                - /tmp/path1/doc.txt.conflict1\n\
                  2026/06/18 17:29:23 NOTICE: - Path2    Renaming Path2 copy                - /tmp/path1/doc.txt.conflict2\n";
    let conflicts = RcClient::parse_conflicts(output, "/tmp/path1");
    assert_eq!(conflicts.len(), 1);
    assert_eq!(conflicts[0].path, "doc.txt");
    assert_eq!(conflicts[0].conflict1, "doc.txt.conflict1");
    assert_eq!(conflicts[0].conflict2, "doc.txt.conflict2");
}

#[test]
fn rc_filter_splits_include_and_exclude_rules() {
    let f = RcFilter::from_lines(&[
        "- index.sqlite".to_string(),
        "- *.part".to_string(),
        "+ keep.zip".to_string(),
        "bare-pattern".to_string(), // no prefix → treated as exclude
    ]);
    assert_eq!(f.exclude_rule, vec!["index.sqlite", "*.part", "bare-pattern"]);
    assert_eq!(f.include_rule, vec!["keep.zip"]);
}

#[test]
fn rc_filter_serializes_under_capitalized_keys() {
    // The rc API expects IncludeRule/ExcludeRule; a top-level `filter` array of
    // "- pattern" strings is silently ignored by rclone.
    let f = RcFilter::from_lines(&["- index.sqlite".to_string(), "+ x".to_string()]);
    let json = object_json(&f.into_fields()).to_string();
    assert!(json.contains("\"ExcludeRule\""), "got {json}");
    assert!(json.contains("\"IncludeRule\""), "got {json}");
    assert!(json.contains("index.sqlite"));
}

#[test]
fn parse_conflicts_strips_ansi_color_codes() {
    // rcd colorizes paths; the parser must yield the clean relative path and
    // single-suffixed conflict filenames despite embedded ANSI escapes.
    let output = "NOTICE: - Path1    Renaming Path1 copy   - \u{1b}[36m/tmp/proj/chapter.md.conflict1\u{1b}[0m\n";
    let conflicts = RcClient::parse_conflicts(output, "/tmp/proj");
    assert_eq!(conflicts.len(), 1);
    assert_eq!(conflicts[0].path, "chapter.md");
    assert_eq!(conflicts[0].conflict1, "chapter.md.conflict1");
    assert_eq!(conflicts[0].conflict2, "chapter.md.conflict2");
}

#[test]
fn strip_ansi_removes_sgr_sequences() {
    assert_eq!(strip_ansi("\u{1b}[36mhello\u{1b}[0m"), "hello");
    assert_eq!(strip_ansi("plain"), "plain");
    assert_eq!(strip_ansi("a\u{1b}[1;32mb\u{1b}[0mc"), "abc");
}

#[test]
fn parse_conflicts_empty_when_no_conflicts() {
    let output = "2026/06/18 NOTICE: Bisync completed successfully";
    let conflicts = RcClient::parse_conflicts(output, "/tmp/path1");
    assert!(conflicts.is_empty());
}

#[test]
fn job_status_is_safety_abort() {
    let status = JobStatus {
        id: 1,
        finished: true,
        success: false,
        error: "all files were changed".to_string(),
        output: None,
    };
    assert!(status.is_safety_abort());
}

#[test]
fn safety_abort_is_found_in_output_too() {
    assert!(status("", Some("ERROR: Safety abort: all files")).is_safety_abort());
    assert!(status("bisync: all files were changed on path1", None).is_safety_abort());
    assert!(!status("Safety abort", None).is_safety_abort());
    assert!(!status("", Some("all files were changed")).is_safety_abort());
    assert!(!status("", None).is_safety_abort());
}

#[test]
fn job_is_ok_only_when_all_is_well() {
    let mut s = status("", None);
    assert!(!s.is_ok());
    s.success = true;
    assert!(s.is_ok());
    s.error = "x".to_string();
    assert!(!s.is_ok());
    s.error = String::new();
    s.finished = false;
    assert!(!s.is_ok());
}

#[test]
fn status_without_output_has_no_conflicts() {
    assert!(status("", None).conflicts("/tmp").is_empty());
    let s = status("", Some("- Path1    Renaming Path1 copy   - /r/a/b.md.conflict1"));
    let conflicts = s.conflicts("/r");
    assert_eq!(conflicts.len(), 1);
    assert_eq!(conflicts[0].path, "a/b.md");
    assert_eq!(conflicts[0].conflict1, "b.md.conflict1");
    assert_eq!(conflicts[0].conflict2, "b.md.conflict2");
}

#[test]
fn strip_ansi_handles_odd_escapes() {
    // An escape that starts no control sequence goes alone.
    assert_eq!(strip_ansi("a\u{1b}b"), "ab");
    // A control sequence that is not ended takes the rest with it.
    assert_eq!(strip_ansi("a\u{1b}[12;3"), "a");
    assert_eq!(strip_ansi("a\u{1b}["), "a");
    assert_eq!(strip_ansi("a\u{1b}"), "a");
    assert_eq!(strip_ansi("\u{1b}[2Kx"), "x");
    assert_eq!(strip_ansi("\u{1b}[3é1mü"), "ü");
    assert_eq!(strip_ansi("naïve — ☃"), "naïve — ☃");
    // What is stripped is stripped.
    let once = strip_ansi("x\u{1b}\u{1b}[0my");
    assert_eq!(strip_ansi(&once), once);
}

#[test]
fn notice_path_follows_last_separator() {
    assert_eq!(
        extract_path_from_notice("- Path1    Renaming Path1 copy   -   /a b/c.txt.conflict1  "),
        Some("/a b/c.txt.conflict1".to_string())
    );
    assert_eq!(extract_path_from_notice("a - b - c"), Some("c".to_string()));
    assert_eq!(extract_path_from_notice("no separator"), None);
    assert_eq!(extract_path_from_notice("ends - "), Some(String::new()));
    assert_eq!(extract_path_from_notice(""), None);
}

#[test]
fn conflicts_come_in_order_and_relative_to_the_root() {
    let output = "INFO: start\r\n\
                  - Path1    Renaming Path1 copy   - /root/one.txt.conflict1\r\n\
                  - Path1    Renaming Path1 copy   - /elsewhere/two.txt.conflict1\n\
                  - Path1    Renaming Path1 copy without a path conflict1\n\
                  - Path1    Renaming Path1 copy   - /root//sub/three.conflict1.conflict1";
    let conflicts = RcClient::parse_conflicts(output, "/root");
    let paths: Vec<&str> = conflicts.iter().map(|c| c.path.as_str()).collect();
    assert_eq!(paths, vec!["one.txt", "elsewhere/two.txt", "sub/three.conflict1"]);
    assert_eq!(conflicts[1].conflict1, "two.txt.conflict1");
    // The suffix of the renaming goes once.
    assert_eq!(conflicts[2].conflict1, "three.conflict1.conflict1");
    assert_eq!(conflicts[2].conflict2, "three.conflict1.conflict2");
}

#[test]
fn file_names_may_hold_the_separator_of_a_notice() {
    let output = "NOTICE: - Path1    Renaming Path1 copy   - /tmp/p/My - Novel.md.conflict1";
    let conflicts = RcClient::parse_conflicts(output, "/tmp/p");
    assert_eq!(conflicts.len(), 1);
    assert_eq!(conflicts[0].path, "My - Novel.md");
    assert_eq!(conflicts[0].conflict1, "My - Novel.md.conflict1");
    assert_eq!(conflicts[0].conflict2, "My - Novel.md.conflict2");
    // The path may hold the phrase of a notice as well.
    let output = "Renaming Path1 copy - /p/Renaming Path1 copy - x.conflict1";
    assert_eq!(RcClient::parse_conflicts(output, "/p")[0].path, "Renaming Path1 copy - x");
    // Where no separator follows the phrase, the last one of the line counts.
    let output = "NOTICE: - a.conflict1 Renaming Path1 copy";
    let conflicts = RcClient::parse_conflicts(output, "/p");
    assert_eq!(conflicts[0].path, "a.conflict1 Renaming Path1 copy");
}

#[test]
fn file_names_are_cut_as_on_the_platform() {
    let output = "Renaming Path1 copy - /p/a\\b.txt.conflict1";
    let there = conflicts_of(output, "/p", true);
    assert_eq!(there[0].path, "a\\b.txt");
    assert_eq!(there[0].conflict1, "b.txt.conflict1");
    let here = conflicts_of(output, "/p", false);
    assert_eq!(here[0].path, "a\\b.txt");
    assert_eq!(here[0].conflict2, "a\\b.txt.conflict2");
    let current = RcClient::parse_conflicts(output, "/p");
    let expected = if std::path::is_separator('\\') { &there } else { &here };
    assert_eq!(current[0].conflict1, expected[0].conflict1);
    // The prefixes of Windows are no part of a name, and alone lead to no file.
    let called = |path: &str| {
        let output = format!("Renaming Path1 copy - {path}.conflict1");
        conflicts_of(&output, "/p", true)[0].conflict1.clone()
    };
    assert_eq!(called("C:doc.txt"), "doc.txt.conflict1");
    assert_eq!(called("C:\\a\\doc.txt"), "doc.txt.conflict1");
    assert_eq!(called("c:"), "c:.conflict1");
    assert_eq!(called("1:x"), "1:x.conflict1");
    assert_eq!(called("\\\\server\\share\\x"), "x.conflict1");
    assert_eq!(called("\\\\server\\share"), "\\\\server\\share.conflict1");
    assert_eq!(called("\\\\server"), "server.conflict1");
    assert_eq!(called("\\\\.\\COM1"), "\\\\.\\COM1.conflict1");
    assert_eq!(called("\\\\?\\C:\\a/b"), "a/b.conflict1");
    assert_eq!(called("\\\\?\\UNC\\s\\t\\x"), "x.conflict1");
    assert_eq!(called("\\\\?\\cat"), "\\\\?\\cat.conflict1");
    assert_eq!(conflicts_of("Renaming Path1 copy - C:doc.txt.conflict1", "/p", false)[0].conflict1,
        "C:doc.txt.conflict1");
    // Without backslashes the platform does not matter.
    let output = "Renaming Path1 copy - /p/a/b.txt.conflict1";
    assert_eq!(
        conflicts_of(output, "/p", true)[0].conflict1,
        conflicts_of(output, "/p", false)[0].conflict1
    );
}

#[test]
fn output_can_be_parsed_in_pieces() {
    let a = "- Path1 Renaming Path1 copy - /r/a.txt.conflict1\n";
    let b = "- Path1 Renaming Path1 copy - /r/b.txt.conflict1";
    let whole = RcClient::parse_conflicts(&format!("{a}{b}"), "/r");
    let first = RcClient::parse_conflicts(a, "/r");
    let second = RcClient::parse_conflicts(b, "/r");
    assert_eq!(whole.len(), 2);
    assert_eq!(whole[0].path, first[0].path);
    assert_eq!(whole[1].path, second[0].path);
}

#[test]
fn conflict_names_fall_back_to_the_path() {
    let line = |p: &str| format!("Renaming Path1 copy - {p}.conflict1");
    let name = |p: &str| RcClient::parse_conflicts(&line(p), "/r")[0].conflict1.clone();
    for path in ["a/b", "a//b", "a/b/", "a/./b/.", "./b", "b", "..", "a/..", ".", "./.", "b/../c"] {
        let expected = std::path::Path::new(path)
            .file_name()
            .and_then(|n| n.to_str())
            .unwrap_or(path);
        assert_eq!(name(&format!("/r/{path}")), format!("{expected}.conflict1"), "{path}");
    }
}

#[test]
fn filter_lines_are_trimmed_and_blank_ones_dropped() {
    let f = RcFilter::from_lines(&[
        "  -   *.tmp  ".to_string(),
        "\t".to_string(),
        "+".to_string(),
        "-x".to_string(),
        "+ \u{a0}y\u{3000}".to_string(),
        String::new(),
    ]);
    assert_eq!(f.exclude_rule, vec!["*.tmp", "+", "-x"]);
    assert_eq!(f.include_rule, vec!["y"]);
    assert!(!f.is_empty());
    assert!(RcFilter::from_lines(&["  ".to_string()]).is_empty());
    assert!(RcFilter::from_lines(&[]).is_empty());
}

#[test]
fn copy_request_carries_its_filter() {
    let client = RcClient::new(5572);
    let req = client.copy_async("/local", "remote:x", vec!["- a".to_string(), "+ b".to_string()]);
    assert_eq!(req.url, "http://127.0.0.1:5572/sync/copy");
    assert_eq!(req.path, "sync/copy");
    assert!(same_json(
        &req,
        r#"{"srcFs":"/local","dstFs":"remote:x","_async":true,
            "_filter":{"IncludeRule":["b"],"ExcludeRule":["a"]}}"#
    ));
    let req = client.copy_async("/local", "remote:x", vec![" ".to_string()]);
    assert!(same_json(&req, r#"{"srcFs":"/local","dstFs":"remote:x","_async":true}"#));
}

#[test]
fn bisync_request_leaves_out_what_is_not_set() {
    let client = RcClient::new(80);
    let req = client.bisync_async("/a", "r:b", true, false, vec![]);
    assert_eq!(req.url, "http://127.0.0.1:80/sync/bisync");
    assert!(same_json(&req, r#"{"path1":"/a","path2":"r:b","resync":true,"_async":true}"#));
    let req = client.bisync_async("/a", "r:b", false, true, vec!["- t".to_string()]);
    assert!(same_json(
        &req,
        r#"{"path1":"/a","path2":"r:b","resync":false,"force":true,"_async":true,
            "_filter":{"ExcludeRule":["t"]}}"#
    ));
}

#[test]
fn config_requests() {
    let client = RcClient::new(65535);
    let req = client.config_create_start("drive", "onedrive");
    assert_eq!(req.url, "http://127.0.0.1:65535/config/create");
    assert!(same_json(
        &req,
        r#"{"name":"drive","type":"onedrive","parameters":{},"opt":{"nonInteractive":true}}"#
    ));
    let req = client.config_create_continue("drive", "onedrive", "s1", "yes");
    assert!(same_json(
        &req,
        r#"{"name":"drive","type":"onedrive","parameters":{},
            "opt":{"nonInteractive":true,"continue":true,"state":"s1","result":"yes"}}"#
    ));
    let req = client.config_delete("drive");
    assert_eq!(req.path, "config/delete");
    assert!(same_json(&req, r#"{"name":"drive"}"#));
    let req = client.list_remotes();
    assert_eq!(req.path, "config/listremotes");
    assert!(same_json(&req, "{}"));
}

#[test]
fn file_requests() {
    let client = RcClient::new(1);
    let req = client.list_directory("r:base");
    assert_eq!(req.path, "operations/list");
    assert!(same_json(&req, r#"{"fs":"r:base","remote":""}"#));
    let req = client.mkdir("r:base/P");
    assert_eq!(req.path, "operations/mkdir");
    assert!(same_json(&req, r#"{"fs":"r:base/P","remote":""}"#));
    let req = client.copy_file("/l", "a.json", "r:b", "c.json");
    assert_eq!(req.path, "operations/copyfile");
    assert!(same_json(
        &req,
        r#"{"srcFs":"/l","srcRemote":"a.json","dstFs":"r:b","dstRemote":"c.json"}"#
    ));
    let req = client.job_status(7);
    assert_eq!(req.path, "job/status");
    assert!(same_json(&req, r#"{"jobid":7}"#));
}

#[test]
fn refused_requests_are_rc_errors() {
    let req = RcClient::new(9).mkdir("r:x");
    assert!(req.judge(200, "ignored").is_ok());
    assert!(req.judge(299, "ignored").is_ok());
    assert!(req.judge(199, "boom").is_err());
    assert!(req.judge(300, "boom").is_err());
    match req.judge(500, "boom") {
        Err(Error::Rc(message)) => assert_eq!(message, "rc/operations/mkdir HTTP error: boom"),
        other => panic!("{other:?}"),
    }
    let e = req.judge(500, "boom").unwrap_err();
    assert_eq!(e.to_string(), "rclone rc error: rc/operations/mkdir HTTP error: boom");
}

#[test]
fn missing_directory_is_an_empty_list() {
    let items = vec![DirectoryItem { name: "a".to_string(), is_dir: true }];
    let listed = RcClient::listing(Ok(items)).unwrap();
    assert_eq!(listed.len(), 1);
    assert_eq!(listed[0].name, "a");
    assert!(listed[0].is_dir);
    let req = RcClient::new(9).list_directory("r:x");
    let refused = req.judge(404, "directory not found").unwrap_err();
    assert!(RcClient::listing(Err(refused)).unwrap().is_empty());
    assert!(matches!(
        RcClient::listing(Err(Error::Http("down".to_string()))),
        Err(Error::Http(_))
    ));
}

#[test]
fn waiting_for_a_job() {
    let wait: JobWait = RcClient::new(9).wait_for_job(
        42,
        Duration::from_millis(500),
        Duration::from_millis(60_999),
    );
    assert!(wait.may_poll(Duration::from_millis(60_998)).is_ok());
    let e = wait.may_poll(Duration::from_millis(60_999)).unwrap_err();
    assert!(matches!(e, Error::JobFailed(_)));
    assert_eq!(e.to_string(), "async job failed: job 42 timed out after 60s");
    let mut s = status("", None);
    assert!(matches!(wait.polled(s), JobStep::Finished(_)));
    s = status("", None);
    s.finished = false;
    match wait.polled(s) {
        JobStep::Sleep(span) => assert_eq!(span, Duration::from_millis(500)),
        other => panic!("{other:?}"),
    }
}
