use jobagg::records::DbJobAd;
use jobagg::store::{JobStore, SearchQuery};

fn record(id: Option<&str>, title: &str) -> DbJobAd {
    DbJobAd {
        id: id.map(|s| s.to_string()),
        title: Some(title.to_string()),
        occupation: None,
        workplace: None,
        workplace_name: None,
        published_date: None,
        last_application_date: None,
        source: Some("Platsbanken".to_string()),
        url: None,
        created_at: Some("2024-06-01T10:00:00.000Z".to_string()),
    }
}

#[test]
fn upsert_batch_counts_inserts() {
    let mut store = JobStore::new();
    let n = store.upsert_batch(vec![record(Some("a"), "A"), record(Some("b"), "B")]);
    assert_eq!(n, 2);
    assert_eq!(store.len(), 2);
}

#[test]
fn upsert_is_idempotent() {
    let batch = vec![record(Some("a"), "A"), record(Some("b"), "B"), record(Some("c"), "C")];
    let mut store = JobStore::new();
    let first = store.upsert_batch(batch.clone());
    let after_one = store.all_records();
    let second = store.upsert_batch(batch);
    let after_two = store.all_records();
    assert_eq!(first, 3);
    assert_eq!(second, 0);
    assert_eq!(after_one, after_two);
}

#[test]
fn upsert_does_not_overwrite_on_conflict() {
    let mut store = JobStore::new();
    store.upsert_batch(vec![record(Some("x"), "old title")]);
    let n = store.upsert_batch(vec![record(Some("x"), "new")]);
    assert_eq!(n, 0);
    let rows = store.query(&SearchQuery::All);
    assert_eq!(rows.len(), 1);
    assert_eq!(rows[0].title.as_deref(), Some("old title"));
}

#[test]
fn upsert_skips_conflict_within_one_batch() {
    let mut store = JobStore::new();
    let n = store.upsert_batch(vec![record(Some("d"), "first"), record(Some("d"), "second")]);
    assert_eq!(n, 1);
    let rows = store.query(&SearchQuery::All);
    assert_eq!(rows[0].title.as_deref(), Some("first"));
}

#[test]
fn record_without_id_never_conflicts() {
    let mut store = JobStore::new();
    assert_eq!(store.upsert_batch(vec![record(None, "anon")]), 1);
    assert_eq!(store.upsert_batch(vec![record(None, "anon")]), 1);
    assert_eq!(store.len(), 2);
}

#[test]
fn empty_batch_inserts_nothing() {
    let mut store = JobStore::new();
    assert_eq!(store.upsert_batch(Vec::new()), 0);
    assert_eq!(store.len(), 0);
}

#[test]
fn query_title_has_or_semantics() {
    let mut store = JobStore::new();
    store.upsert_batch(vec![
        record(Some("1"), "Data Engineer"),
        record(Some("2"), "IT Support"),
        record(Some("3"), "Sales"),
    ]);
    let rows = store.query(&SearchQuery::Title(vec!["Data".to_string(), "IT".to_string()]));
    assert_eq!(rows.len(), 2);
    assert_eq!(rows[0].title.as_deref(), Some("Data Engineer"));
    assert_eq!(rows[1].title.as_deref(), Some("IT Support"));
}

#[test]
fn query_title_is_case_sensitive() {
    let mut store = JobStore::new();
    store.upsert_batch(vec![record(Some("1"), "Data Engineer")]);
    let rows = store.query(&SearchQuery::Title(vec!["data".to_string()]));
    assert!(rows.is_empty());
}

#[test]
fn query_matches_substring_anywhere() {
    let mut store = JobStore::new();
    store.upsert_batch(vec![record(Some("1"), "Senior Data Engineer")]);
    let rows = store.query(&SearchQuery::Title(vec!["Data".to_string()]));
    assert_eq!(rows.len(), 1);
}

#[test]
fn query_empty_result_is_not_an_error() {
    let store = JobStore::new();
    let rows = store.query(&SearchQuery::Title(vec!["Data".to_string()]));
    assert!(rows.is_empty());
}

#[test]
fn query_all_returns_everything() {
    let mut store = JobStore::new();
    store.upsert_batch(vec![record(Some("1"), "A"), record(None, "B")]);
    assert_eq!(store.query(&SearchQuery::All).len(), 2);
}

#[test]
fn query_location_occupation_company() {
    let mut store = JobStore::new();
    let mut r = record(Some("1"), "A");
    r.workplace = Some("Stockholm".to_string());
    r.occupation = Some("Snickare".to_string());
    r.workplace_name = Some("Acme AB".to_string());
    store.upsert_batch(vec![r]);
    assert_eq!(store.query(&SearchQuery::Location(vec!["holm".to_string()])).len(), 1);
    assert_eq!(store.query(&SearchQuery::Occupation(vec!["Snick".to_string()])).len(), 1);
    assert_eq!(store.query(&SearchQuery::Company(vec!["Acme".to_string()])).len(), 1);
    assert_eq!(store.query(&SearchQuery::Location(vec!["Oslo".to_string()])).len(), 0);
}

#[test]
fn query_on_absent_field_does_not_match() {
    let mut store = JobStore::new();
    store.upsert_batch(vec![record(Some("1"), "A")]);
    assert!(store.query(&SearchQuery::Location(vec!["".to_string()])).is_empty());
}

#[test]
fn query_most_recent_compares_decimal_bound() {
    let mut store = JobStore::new();
    let mut newer = record(Some("1"), "A");
    newer.created_at = Some("12346".to_string());
    let mut older = record(Some("2"), "B");
    older.created_at = Some("12344".to_string());
    store.upsert_batch(vec![newer, older]);
    let rows = store.query(&SearchQuery::MostRecent(12345));
    assert_eq!(rows.len(), 1);
    assert_eq!(rows[0].id.as_deref(), Some("1"));
}

#[test]
fn query_most_recent_iso_timestamps() {
    let mut store = JobStore::new();
    store.upsert_batch(vec![record(Some("1"), "A")]);
    let rows = store.query(&SearchQuery::MostRecent(0));
    assert_eq!(rows.len(), 1);
}
