use nude::commands::container::{
    compact, ports_value, status_exit_code, ContainerSummary, PortBinding,
};
use nude::commands::detail::{
    diff_rendering, history_id, history_rendering, top_table, ChangeKind, FilesystemChange,
    HistoryItem,
};
use nude::commands::image::{compact_rows, short_image_id, ImageSummary};
use nude::commands::search::search_limit;
use nude::commands::volume::{compact as volume_compact, Volume};
use nude::decorators::Decorators;
use nude::helpers::{
    clean_name, epoch_date, opt_filesize, opt_rfc3339, short_id, split_csv, str_list, str_map,
};
use nude::output::OutputFormat;
use nude::value::{Cell, DateStamp, Rendering, Row, Scalar};

fn names(row: &Row) -> Vec<&str> {
    row.iter().map(|(n, _)| n.as_str()).collect()
}

fn text(c: &Cell) -> Option<&str> {
    match c {
        Cell::One(Scalar::Str(s)) => Some(s.as_str()),
        _ => None,
    }
}

fn is_nothing(c: &Cell) -> bool {
    matches!(c, Cell::One(Scalar::Nothing))
}

fn summary() -> ContainerSummary {
    ContainerSummary {
        id: Some("0123456789abcdef".to_string()),
        names: Some(vec!["/web".to_string()]),
        image: Some("nginx:latest".to_string()),
        state: Some("running".to_string()),
        status: Some("Up 2 hours (healthy)".to_string()),
        created: Some(0),
        labels: Some(vec![("app".to_string(), "web".to_string())]),
    }
}

#[test]
fn a_printed_exit_code_reads_back() {
    assert_eq!(status_exit_code(Some("Exited (255) 1 second ago")), Some(255));
    assert_eq!(status_exit_code(Some("Restarting (42) now")), Some(42));
    assert_eq!(status_exit_code(Some("Exited (99999999999999999999) x")), None);
    assert_eq!(status_exit_code(Some("Exited () x")), None);
}

#[test]
fn container_compact_row_types_every_field() {
    let row = compact(&summary(), Decorators::new(false));
    assert_eq!(names(&row), ["name", "image", "state", "health", "exit_code", "created"]);
    assert_eq!(text(&row[0].1), Some("web"));
    assert_eq!(text(&row[2].1), Some("running"));
    assert_eq!(text(&row[3].1), Some("healthy"));
    assert!(is_nothing(&row[4].1));
    assert!(matches!(
        row[5].1,
        Cell::One(Scalar::Date(DateStamp { secs: 0, nanos: 0, offset_secs: 0 }))
    ));
}

#[test]
fn show_labels_appends_one_labels_column() {
    let plain = compact(&summary(), Decorators::new(false));
    let labelled = compact(&summary(), Decorators::new(true));
    assert_eq!(labelled.len(), plain.len() + 1);
    assert_eq!(names(&labelled)[..plain.len()], names(&plain)[..]);
    assert_eq!(labelled[plain.len()].0, "labels");
    match &labelled[plain.len()].1 {
        Cell::Record(fields) => {
            assert_eq!(fields.len(), 1);
            assert_eq!(fields[0].0, "app");
            assert!(matches!(&fields[0].1, Scalar::Str(s) if s == "web"));
        }
        other => panic!("labels is not a record: {:?}", other),
    }
}

#[test]
fn volume_rows_take_the_labels_column_last() {
    let v = Volume {
        name: "data".to_string(),
        driver: "local".to_string(),
        scope: Some("local".to_string()),
        created_at: None,
        mountpoint: "/var/lib/docker/volumes/data/_data".to_string(),
        options: vec![],
        usage: None,
        labels: vec![],
    };
    let row = volume_compact(&v, Decorators::new(true));
    assert_eq!(names(&row), ["name", "driver", "scope", "created", "labels"]);
    assert!(is_nothing(&row[3].1));
    assert!(matches!(&row[4].1, Cell::Record(f) if f.is_empty()));
}

#[test]
fn epoch_seconds_become_a_date_or_nothing() {
    assert!(matches!(
        epoch_date(1_700_000_000),
        Scalar::Date(DateStamp { secs: 1_700_000_000, nanos: 0, offset_secs: 0 })
    ));
    assert!(matches!(epoch_date(i64::MAX), Scalar::Nothing));
}

#[test]
fn rfc3339_keeps_instant_and_offset_and_zero_time_is_nothing() {
    assert!(matches!(
        opt_rfc3339(Some("2024-01-02T03:04:05+02:00")),
        Scalar::Date(DateStamp { secs: 1_704_157_445, nanos: 0, offset_secs: 7200 })
    ));
    assert!(matches!(opt_rfc3339(Some("0001-01-01T00:00:00Z")), Scalar::Nothing));
    assert!(matches!(opt_rfc3339(Some("")), Scalar::Nothing));
    assert!(matches!(opt_rfc3339(Some("yesterday")), Scalar::Nothing));
    assert!(matches!(opt_rfc3339(None), Scalar::Nothing));
}

#[test]
fn sizes_lists_and_maps_keep_their_shape() {
    assert!(matches!(opt_filesize(Some(1024)), Scalar::Filesize(1024)));
    assert!(matches!(opt_filesize(None), Scalar::Nothing));
    assert!(matches!(str_list(None), Cell::List(v) if v.is_empty()));
    assert!(matches!(str_map(None), Cell::Record(v) if v.is_empty()));
    let cmd = vec!["nginx".to_string(), "-g".to_string()];
    match str_list(Some(&cmd)) {
        Cell::List(v) => {
            assert_eq!(v.len(), 2);
            assert!(matches!(&v[1], Scalar::Str(s) if s == "-g"));
        }
        other => panic!("not a list: {:?}", other),
    }
}

#[test]
fn names_and_ids_are_shortened() {
    assert_eq!(clean_name(Some(&vec!["/web".to_string(), "/alias".to_string()])), Some("web".to_string()));
    assert_eq!(clean_name(Some(&vec![])), None);
    assert_eq!(short_id("0123456789abcdef"), "0123456789ab");
    assert_eq!(short_id("abc"), "abc");
    assert_eq!(short_image_id("sha256:0123456789abcdef"), "0123456789ab");
}

#[test]
fn csv_parts_are_trimmed_and_empty_parts_dropped() {
    assert_eq!(split_csv(" a=b, ,c=d ,"), ["a=b", "c=d"]);
    assert!(split_csv(" , ").is_empty());
}

#[test]
fn an_untagged_image_still_gets_one_dangling_row() {
    let img = ImageSummary {
        id: "sha256:0123456789abcdef".to_string(),
        repo_tags: vec![],
        created: 0,
        size: 10,
        labels: vec![],
    };
    let rows = compact_rows(&img, Decorators::new(false));
    assert_eq!(rows.len(), 1);
    assert!(is_nothing(&rows[0][0].1));
    assert!(is_nothing(&rows[0][1].1));
    assert_eq!(text(&rows[0][2].1), Some("0123456789ab"));
    assert!(matches!(rows[0][4].1, Cell::One(Scalar::Filesize(10))));
}

#[test]
fn a_tagged_image_gets_one_row_per_tag() {
    let img = ImageSummary {
        id: "abc".to_string(),
        repo_tags: vec!["nginx:latest".to_string(), "localhost:5000/nginx:1.2".to_string()],
        created: 0,
        size: 0,
        labels: vec![],
    };
    let rows = compact_rows(&img, Decorators::new(false));
    assert_eq!(rows.len(), 2);
    assert_eq!(text(&rows[1][0].1), Some("localhost:5000/nginx"));
    assert_eq!(text(&rows[1][1].1), Some("1.2"));
}

#[test]
fn ports_without_bindings_still_get_a_row() {
    let ports = Some(vec![
        (
            "80/tcp".to_string(),
            Some(vec![PortBinding {
                host_ip: Some("0.0.0.0".to_string()),
                host_port: Some("8080".to_string()),
            }]),
        ),
        ("53/udp".to_string(), None),
    ]);
    match ports_value(&ports) {
        Cell::Table(rows) => {
            assert_eq!(rows.len(), 2);
            assert!(matches!(rows[0][0].1, Scalar::Int(80)));
            assert!(matches!(&rows[0][1].1, Scalar::Str(s) if s == "tcp"));
            assert!(matches!(rows[0][3].1, Scalar::Int(8080)));
            assert!(matches!(rows[1][0].1, Scalar::Int(53)));
            assert!(matches!(rows[1][2].1, Scalar::Nothing));
            assert!(matches!(rows[1][3].1, Scalar::Nothing));
        }
        other => panic!("not a table: {:?}", other),
    }
}

#[test]
fn process_titles_are_lowercased() {
    let titles = Some(vec!["PID".to_string(), "CMD".to_string()]);
    let processes = Some(vec![
        vec!["1".to_string(), "sleep".to_string()],
        vec!["2".to_string()],
    ]);
    let rows = top_table(&titles, &processes);
    assert_eq!(rows.len(), 2);
    assert_eq!(names(&rows[0]), ["pid", "cmd"]);
    assert_eq!(text(&rows[0][1].1), Some("sleep"));
    assert!(is_nothing(&rows[1][1].1));
}

#[test]
fn missing_layers_have_no_id() {
    assert!(matches!(history_id("<missing>"), Scalar::Nothing));
    assert!(matches!(history_id("sha256:"), Scalar::Nothing));
    assert!(matches!(history_id("sha256:0123456789abcdef"), Scalar::Str(s) if s == "0123456789ab"));
}

#[test]
fn diff_is_the_same_in_compact_and_wide_and_empty_without_changes() {
    let changes = Some(vec![FilesystemChange { path: "/etc".to_string(), kind: ChangeKind::Added }]);
    let compact_rows = match diff_rendering(&changes, OutputFormat::Compact) {
        Rendering::Rows(r) => r,
        Rendering::Raw => panic!("compact is raw"),
    };
    let wide_rows = match diff_rendering(&changes, OutputFormat::Wide) {
        Rendering::Rows(r) => r,
        Rendering::Raw => panic!("wide is raw"),
    };
    assert_eq!(format!("{:?}", compact_rows), format!("{:?}", wide_rows));
    assert_eq!(text(&compact_rows[0][1].1), Some("added"));
    assert!(matches!(diff_rendering(&None, OutputFormat::Wide), Rendering::Rows(r) if r.is_empty()));
    assert!(matches!(diff_rendering(&changes, OutputFormat::Full), Rendering::Raw));
}

#[test]
fn the_search_limit_is_narrowed_like_a_cast() {
    assert_eq!(search_limit(None), None);
    assert_eq!(search_limit(Some(10)), Some(10));
    assert_eq!(search_limit(Some(5_000_000_000)), Some(705_032_704));
}

#[test]
fn image_ls_compact_has_a_row_per_tag() {
    let images = vec![
        ImageSummary {
            id: "sha256:a".to_string(),
            repo_tags: vec!["a:1".to_string(), "a:2".to_string()],
            created: 0,
            size: 0,
            labels: vec![],
        },
        ImageSummary { id: "sha256:b".to_string(), repo_tags: vec![], created: 0, size: 0, labels: vec![] },
    ];
    match nude::commands::image::list_plan(&images, OutputFormat::Compact, Decorators::new(false)) {
        nude::value::ListPlan::Rows(rows) => assert_eq!(rows.len(), 3),
        nude::value::ListPlan::Inspect(_) => panic!("compact does not inspect"),
    }
    match nude::commands::image::list_plan(&images, OutputFormat::Full, Decorators::new(false)) {
        nude::value::ListPlan::Inspect(ids) => assert_eq!(ids, ["sha256:a", "sha256:b"]),
        nude::value::ListPlan::Rows(_) => panic!("full inspects"),
    }
}

#[test]
fn history_is_the_same_in_compact_and_wide() {
    let items = vec![HistoryItem {
        id: "sha256:0123456789abcdef".to_string(),
        created: 0,
        created_by: "/bin/sh -c #(nop) CMD [\"nginx\"]".to_string(),
        size: 0,
        comment: String::new(),
    }];
    let compact = match history_rendering(&items, OutputFormat::Compact) {
        Rendering::Rows(r) => r,
        Rendering::Raw => panic!("compact is raw"),
    };
    let wide = match history_rendering(&items, OutputFormat::Wide) {
        Rendering::Rows(r) => r,
        Rendering::Raw => panic!("wide is raw"),
    };
    assert_eq!(format!("{:?}", compact), format!("{:?}", wide));
    assert_eq!(names(&compact[0]), ["id", "created", "created_by", "size", "comment"]);
    assert!(is_nothing(&compact[0][4].1));
    assert!(matches!(history_rendering(&items, OutputFormat::Full), Rendering::Raw));
}

#[test]
fn epoch_dates_cover_exactly_chronos_range() {
    assert!(matches!(epoch_date(0), Scalar::Date(DateStamp { secs: 0, nanos: 0, offset_secs: 0 })));
    assert!(matches!(epoch_date(-8_334_601_228_800), Scalar::Date(_)));
    assert!(matches!(epoch_date(-8_334_601_228_801), Scalar::Nothing));
    assert!(matches!(epoch_date(8_210_266_876_799), Scalar::Date(_)));
    assert!(matches!(epoch_date(8_210_266_876_800), Scalar::Nothing));
}

#[test]
fn csv_parts_are_at_most_one_more_than_commas() {
    assert_eq!(split_csv("a,b,c").len(), 3);
    assert_eq!(split_csv("a,,b").len(), 2);
    assert_eq!(split_csv("").len(), 0);
}
