use catalog_access::merge::{dedup_by_id, finish_search};
use catalog_access::query::{build_queries, AccessError, Combinator, QuerySpec, SearchField};
use catalog_access::records::{file_results_from_rows, FileResult, FileRow};
use catalog_access::timestamp::Timestamp;

fn terms(ts: &[&str]) -> Vec<String> {
    ts.iter().map(|t| t.to_string()).collect()
}

fn record(id: i32, filename: &str, directory: &str) -> FileResult {
    FileResult {
        id,
        filename: filename.to_string(),
        directory: directory.to_string(),
        last_modified: None,
    }
}

fn ids(r: &[FileResult]) -> Vec<i32> {
    r.iter().map(|f| f.id).collect()
}

fn plan(ts: &[&str], f: SearchField, c: Combinator) -> Vec<QuerySpec> {
    match build_queries(&terms(ts), f, c) {
        Ok(qs) => qs,
        Err(e) => panic!("unexpected error {:?}", e),
    }
}

#[test]
fn all_terms_make_one_conjunction() {
    let qs = plan(&["report", "final"], SearchField::Filename, Combinator::All);
    assert_eq!(qs.len(), 1);
    assert_eq!(
        qs[0].statement,
        "SELECT id, filename, directory, last_modified FROM files WHERE filename ILIKE $1 AND filename ILIKE $2 LIMIT 100"
    );
    assert_eq!(qs[0].params, vec!["%report%".to_string(), "%final%".to_string()]);
}

#[test]
fn single_term_all_search_on_directories() {
    let qs = plan(&["docs"], SearchField::Directory, Combinator::All);
    assert_eq!(qs.len(), 1);
    assert_eq!(
        qs[0].statement,
        "SELECT id, filename, directory, last_modified FROM files WHERE directory ILIKE $1 LIMIT 100"
    );
    assert_eq!(qs[0].params, vec!["%docs%".to_string()]);
}

#[test]
fn many_terms_number_parameters_past_nine() {
    let ts: Vec<String> = (0..11).map(|i| format!("t{}", i)).collect();
    let qs = build_queries(&ts, SearchField::Filename, Combinator::All).unwrap();
    assert!(qs[0].statement.contains("filename ILIKE $9 AND filename ILIKE $10 AND filename ILIKE $11 LIMIT 100"));
    assert_eq!(qs[0].params.len(), 11);
    assert_eq!(qs[0].params[10], "%t10%");
}

#[test]
fn any_terms_make_one_query_each() {
    let qs = plan(&["report", "nomatch"], SearchField::Filename, Combinator::Any);
    assert_eq!(qs.len(), 2);
    for q in &qs {
        assert_eq!(
            q.statement,
            "SELECT id, filename, directory, last_modified FROM files WHERE filename ILIKE $1 LIMIT 100"
        );
    }
    assert_eq!(qs[0].params, vec!["%report%".to_string()]);
    assert_eq!(qs[1].params, vec!["%nomatch%".to_string()]);
}

#[test]
fn empty_term_list_is_rejected() {
    for c in [Combinator::All, Combinator::Any] {
        let r = build_queries(&Vec::new(), SearchField::Filename, c);
        assert!(matches!(r, Err(AccessError::Validation(_))));
    }
}

#[test]
fn same_search_gives_same_plan() {
    let a = plan(&["a", "b"], SearchField::Directory, Combinator::Any);
    let b = plan(&["a", "b"], SearchField::Directory, Combinator::Any);
    assert_eq!(a.len(), b.len());
    for (x, y) in a.iter().zip(b.iter()) {
        assert_eq!(x.statement, y.statement);
        assert_eq!(x.params, y.params);
    }
}

#[test]
fn any_search_merges_report_example() {
    // "report" matched both records, "nomatch" nothing.
    let rows = vec![
        record(1, "report.pdf", "/docs"),
        record(2, "report_final.pdf", "/docs/old"),
    ];
    let r = finish_search(Combinator::Any, rows);
    assert_eq!(ids(&r), vec![1, 2]);
    assert_eq!(r[1].filename, "report_final.pdf");
}

#[test]
fn merge_drops_repeated_ids_and_sorts() {
    let rows = vec![
        record(7, "first7", "/a"),
        record(3, "first3", "/a"),
        record(7, "second7", "/b"),
        record(-2, "neg", "/c"),
        record(3, "second3", "/b"),
    ];
    let r = dedup_by_id(rows);
    assert_eq!(ids(&r), vec![-2, 3, 7]);
    assert_eq!(r[1].filename, "first3");
    assert_eq!(r[2].filename, "first7");
}

#[test]
fn merge_of_nothing_is_empty() {
    assert!(dedup_by_id(Vec::new()).is_empty());
}

#[test]
fn merge_is_repeatable() {
    let make = || vec![record(5, "x", "/"), record(1, "y", "/"), record(5, "z", "/")];
    let a = dedup_by_id(make());
    let b = dedup_by_id(make());
    assert_eq!(ids(&a), ids(&b));
    assert_eq!(a[1].filename, b[1].filename);
}

#[test]
fn all_search_keeps_datastore_order() {
    let rows = vec![record(2, "b", "/"), record(1, "a", "/")];
    let r = finish_search(Combinator::All, rows);
    assert_eq!(ids(&r), vec![2, 1]);
}

#[test]
fn file_rows_become_records() {
    let rows = vec![
        FileRow {
            id: 1,
            filename: "report.pdf".to_string(),
            directory: "/docs".to_string(),
            last_modified: Some(Timestamp { year: 2023, month: 11, day: 4, hour: 9, minute: 5, second: 0 }),
        },
        FileRow {
            id: 2,
            filename: "report_final.pdf".to_string(),
            directory: "/docs/old".to_string(),
            last_modified: None,
        },
    ];
    let r = file_results_from_rows(rows);
    assert_eq!(ids(&r), vec![1, 2]);
    assert_eq!(r[0].last_modified.as_deref(), Some("2023-11-04 09:05:00"));
    assert_eq!(r[1].last_modified, None);
    assert_eq!(r[1].directory, "/docs/old");
}
