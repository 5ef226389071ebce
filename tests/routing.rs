use csv_watcher::{
    audit_line, candidate_of, failure_message, is_candidate, log_path, no_match_text,
    normalize_header, read_failure_record, remote_dir, route, settle_transfer, shell_escape,
    success_message, table_name_of_template, transfer_args, AuditRecord, ChangeKind,
    HeaderRead, Routed, RoutingResult, Settlement, TemplateMap, Timestamp, TransferOutcome,
};
use csv_watcher::{base_name, extension, join_path, parent_dir};

fn orders_map() -> TemplateMap {
    let mut m = TemplateMap::new();
    m.register("id,name,amount".to_string(), "orders".to_string());
    m
}

fn line(s: &str) -> HeaderRead {
    HeaderRead::Line(s.to_string())
}

#[test]
fn scenario_matched_file_is_sent_and_deleted() {
    let m = orders_map();
    let path = "/data/in/orders_001.csv";
    assert!(is_candidate(ChangeKind::DataModified, path));
    let r = route(&m, path, &line("id,name,amount,\n")).unwrap();
    assert_eq!(r, Routed { result: RoutingResult::Matched("orders".to_string()), audit: None });
    let s = settle_transfer(path, &TransferOutcome::Success);
    assert!(s.delete_source);
    let a = s.audit.unwrap();
    assert_eq!(a.dir, "/data/in");
    assert_eq!(a.message, "Upload succeeded! File: orders_001.csv");
}

#[test]
fn scenario_unknown_header_is_unmatched_and_recorded() {
    let m = orders_map();
    let r = route(&m, "/data/in/unknown.csv", &line("foo,bar\n")).unwrap();
    assert_eq!(r.result, RoutingResult::Unmatched);
    assert_eq!(
        r.audit,
        Some(AuditRecord {
            dir: "/data/in".to_string(),
            message: "Upload failed! File: unknown.csv Reason: No matching table headers found."
                .to_string(),
        })
    );
}

#[test]
fn scenario_permission_error_keeps_file() {
    let err = "rsync: mkstemp \"/srv/orders/.x\" failed: Permission denied (13)";
    let s = settle_transfer("/data/in/orders_002.csv", &TransferOutcome::Failure(err.to_string()));
    assert!(!s.delete_source);
    assert_eq!(
        s.audit.unwrap().message,
        format!("Upload failed! File: orders_002.csv Reason: {err}")
    );
}

#[test]
fn scenario_json_change_is_ignored() {
    assert!(!is_candidate(ChangeKind::DataModified, "/data/in/report.json"));
    let paths = vec!["/data/in/report.json".to_string()];
    assert_eq!(candidate_of(ChangeKind::DataModified, &paths), None);
}

#[test]
fn registered_header_is_matched_exactly() {
    let mut m = TemplateMap::new();
    m.register("a,b".to_string(), "first".to_string());
    m.register("x,y,z".to_string(), "second".to_string());
    for (l, t) in [("a,b", "first"), ("a,b,", "first"), ("x,y,z\r\n", "second"), ("x,y,z,\n", "second")] {
        let r = route(&m, "d/f.csv", &line(l)).unwrap();
        assert_eq!(r.result, RoutingResult::Matched(t.to_string()));
        assert_eq!(r.audit, None);
    }
}

#[test]
fn near_miss_headers_are_unmatched() {
    let m = orders_map();
    for l in ["id,name", "id,name,amount,,", " id,name,amount", "ID,NAME,AMOUNT", ""] {
        let r = route(&m, "d/f.csv", &line(l)).unwrap();
        assert_eq!(r.result, RoutingResult::Unmatched);
        let a = r.audit.unwrap();
        assert_eq!(a.dir, "d");
        assert!(a.message.contains("No matching table headers found"));
    }
}

#[test]
fn missing_file_is_unmatched_without_record() {
    let m = orders_map();
    let r = route(&m, "/data/in/gone.csv", &HeaderRead::Missing).unwrap();
    assert_eq!(r, Routed { result: RoutingResult::Unmatched, audit: None });
}

#[test]
fn read_error_goes_to_caller() {
    let m = orders_map();
    let r = route(&m, "/data/in/a.csv", &HeaderRead::Failed("stream did not contain valid UTF-8".to_string()));
    assert_eq!(r, Err("stream did not contain valid UTF-8".to_string()));
    let a = read_failure_record("/data/in/a.csv", "stream did not contain valid UTF-8").unwrap();
    assert_eq!(a.dir, "/data/in");
    assert_eq!(a.message, "Upload failed! File: a.csv Reason: stream did not contain valid UTF-8");
}

#[test]
fn path_without_file_name_gets_no_record() {
    let m = orders_map();
    let r = route(&m, "/data/in/", &line("foo")).unwrap();
    assert_eq!(r, Routed { result: RoutingResult::Unmatched, audit: None });
    let s = settle_transfer("", &TransferOutcome::Success);
    assert_eq!(s, Settlement { delete_source: true, audit: None });
}

#[test]
fn only_data_changes_to_csv_files_are_candidates() {
    assert!(is_candidate(ChangeKind::DataModified, "a/b/c.csv"));
    assert!(is_candidate(ChangeKind::DataModified, "c.csv"));
    assert!(is_candidate(ChangeKind::DataModified, "a.b/c.tar.csv"));
    for p in ["a/b/c.txt", "a/b/c.CSV", "a/b/.csv", "a/b/csv", "a.csv/b", "a/b/c.csv.bak"] {
        assert!(!is_candidate(ChangeKind::DataModified, p), "{p}");
    }
    for k in [
        ChangeKind::MetadataModified,
        ChangeKind::Renamed,
        ChangeKind::Created,
        ChangeKind::Removed,
        ChangeKind::Accessed,
        ChangeKind::Other,
    ] {
        assert!(!is_candidate(k, "a/b/c.csv"));
    }
}

#[test]
fn first_path_of_a_change_is_the_candidate() {
    let paths = vec!["in/x.csv".to_string(), "in/y.txt".to_string()];
    assert_eq!(candidate_of(ChangeKind::DataModified, &paths), Some("in/x.csv".to_string()));
    assert_eq!(candidate_of(ChangeKind::Created, &paths), None);
    assert_eq!(candidate_of(ChangeKind::DataModified, &Vec::new()), None);
}

#[test]
fn registering_a_header_again_replaces_its_table() {
    let mut m = orders_map();
    assert_eq!(m.len(), 1);
    m.register("id,name,amount".to_string(), "sales".to_string());
    assert_eq!(m.len(), 1);
    assert_eq!(m.lookup("id,name,amount"), Some("sales".to_string()));
    m.register("k".to_string(), "t".to_string());
    assert_eq!(m.len(), 2);
    assert_eq!(m.lookup("k"), Some("t".to_string()));
    assert_eq!(m.lookup("id,name"), None);
}

#[test]
fn template_files_name_their_table() {
    assert_eq!(table_name_of_template("orders_template"), Some("orders".to_string()));
    assert_eq!(table_name_of_template("orders_template.csv"), Some("orders".to_string()));
    assert_eq!(table_name_of_template("_template"), Some(String::new()));
    assert_eq!(table_name_of_template("orders.csv"), None);
    assert_eq!(table_name_of_template("orders_template.csv.bak"), None);
    let mut m = TemplateMap::new();
    assert!(m.register_template("orders_template.csv", "  id,name,amount \n"));
    assert!(!m.register_template("notes.txt", "a,b"));
    assert_eq!(m.len(), 1);
    assert_eq!(m.lookup("id,name,amount"), Some("orders".to_string()));
}

#[test]
fn header_normalisation_strips_one_ending_and_one_comma() {
    assert_eq!(normalize_header("a,b,\r\n"), "a,b");
    assert_eq!(normalize_header("a,b,,\n"), "a,b,");
    assert_eq!(normalize_header("a,b"), "a,b");
    assert_eq!(normalize_header(","), "");
    assert_eq!(normalize_header(""), "");
}

#[test]
fn paths_split_into_directory_name_and_extension() {
    assert_eq!(base_name("/data/in/orders_001.csv"), "orders_001.csv");
    assert_eq!(base_name("x.csv"), "x.csv");
    assert_eq!(base_name("dir/"), "");
    assert_eq!(parent_dir("/data/in/orders_001.csv"), Some("/data/in".to_string()));
    assert_eq!(parent_dir("/x.csv"), Some("/".to_string()));
    assert_eq!(parent_dir("x.csv"), Some(String::new()));
    assert_eq!(parent_dir("dir/"), None);
    assert_eq!(parent_dir(""), None);
    assert_eq!(extension("a/b.tar.gz"), Some("gz".to_string()));
    assert_eq!(extension("a/b."), Some(String::new()));
    assert_eq!(extension("a/.hidden"), None);
    assert_eq!(extension("a.d/b"), None);
    assert_eq!(join_path("/srv", "orders"), "/srv/orders");
    assert_eq!(join_path("/srv/", "orders"), "/srv/orders");
    assert_eq!(join_path("", "orders"), "orders");
}

#[test]
fn audit_lines_are_stamped() {
    let t = Timestamp::new(2024, 3, 7, 9, 5, 0).unwrap();
    assert_eq!(t.format(), "2024-03-07 09:05:00");
    assert_eq!(
        audit_line(&t, "Upload succeeded! File: a.csv"),
        "2024-03-07 09:05:00 - Upload succeeded! File: a.csv\n"
    );
    let early = Timestamp::new(7, 12, 31, 23, 59, 59).unwrap();
    assert_eq!(early.format(), "0007-12-31 23:59:59");
    assert!(Timestamp::new(2024, 13, 1, 0, 0, 0).is_none());
    assert!(Timestamp::new(2024, 1, 0, 0, 0, 0).is_none());
    assert!(Timestamp::new(10000, 1, 1, 0, 0, 0).is_none());
    assert!(Timestamp::new(2024, 1, 1, 24, 0, 0).is_none());
    assert_eq!(log_path("/data/in"), "/data/in/upload.log");
    assert_eq!(log_path(""), "upload.log");
}

#[test]
fn audit_messages_have_fixed_wording() {
    assert_eq!(success_message("a.csv"), "Upload succeeded! File: a.csv");
    assert_eq!(failure_message("a.csv", "boom"), "Upload failed! File: a.csv Reason: boom");
    assert_eq!(no_match_text(), "No matching table headers found.");
}

#[test]
fn transfer_targets_the_table_directory() {
    assert_eq!(remote_dir("/srv/incoming", "orders"), "/srv/incoming/orders");
    let args = transfer_args("/data/in/o.csv", "etl", "db.example", "/srv/incoming", "orders");
    assert_eq!(
        args,
        vec![
            "-aLvz".to_string(),
            "--partial-dir=tmp".to_string(),
            "--rsync-path=mkdir -p \"/srv/incoming/orders\" && rsync".to_string(),
            "/data/in/o.csv".to_string(),
            "etl@db.example:/srv/incoming/orders".to_string(),
        ]
    );
}

#[test]
fn lone_carriage_return_is_kept() {
    assert_eq!(normalize_header("a,b\r"), "a,b\r");
    assert_eq!(normalize_header("a,b,\r"), "a,b,\r");
    assert_eq!(normalize_header("a,b\r\n"), "a,b");
    let mut m = TemplateMap::new();
    m.register("a".to_string(), "t".to_string());
    let r = route(&m, "in/x.csv", &line("a\r")).unwrap();
    assert_eq!(r.result, RoutingResult::Unmatched);
    assert_eq!(
        r.audit.unwrap().message,
        "Upload failed! File: x.csv Reason: No matching table headers found."
    );
}

#[test]
fn template_content_is_trimmed_of_unicode_white_space() {
    let mut m = TemplateMap::new();
    assert!(m.register_template("t_template", "\u{3000}\t x,y \u{a0}\r\n"));
    assert_eq!(m.lookup("x,y"), Some("t".to_string()));
    assert!(m.register_template("u_template", "p, q\n"));
    assert_eq!(m.lookup("p, q"), Some("u".to_string()));
}

#[test]
fn remote_directory_is_escaped_in_the_shell_command() {
    assert_eq!(shell_escape("plain/dir"), "plain/dir");
    assert_eq!(shell_escape("a\"b$c`d\\e"), "a\\\"b\\$c\\`d\\\\e");
    assert_eq!(shell_escape(""), "");
    let args = transfer_args("x.csv", "u", "h", "/srv/$HOME", "t\"1");
    assert_eq!(args[2], "--rsync-path=mkdir -p \"/srv/\\$HOME/t\\\"1\" && rsync");
    assert_eq!(args[4], "u@h:/srv/$HOME/t\"1");
}
