use petition::model::{DisplaySignatory, Signatory, StoreError};
use petition::store::Store;

fn record(name: &str, comment: Option<&str>) -> Signatory {
    Signatory {
        name: name.to_string(),
        email: format!("{}@example.com", name),
        title: None,
        organisation: None,
        url: None,
        comment: comment.map(|c| c.to_string()),
        mailing_list_opt_in: false,
        created_on: 1,
    }
}

fn sorted_names(rows: &[DisplaySignatory]) -> Vec<String> {
    let mut names: Vec<String> = rows.iter().map(|r| r.name.clone()).collect();
    names.sort();
    names
}

#[test]
fn fresh_store_lists_nothing() {
    let store = Store::open_memory().unwrap();
    assert!(store.list_signatories().unwrap().is_empty());
    assert!(store.list_quotes().unwrap().is_empty());
}

#[test]
fn inserted_row_is_listed() {
    let mut store = Store::open_memory().unwrap();
    let sig = Signatory {
        title: Some("Dr".to_string()),
        organisation: Some("Acme".to_string()),
        url: Some("http://example.com/".to_string()),
        comment: Some("hello".to_string()),
        ..record("Jane Doe", None)
    };
    store.insert(&sig).unwrap();
    let listed = store.list_signatories().unwrap();
    assert_eq!(listed.len(), 1);
    let row = &listed[0];
    assert_eq!(row.name, "Jane Doe");
    assert_eq!(row.title, Some("Dr".to_string()));
    assert_eq!(row.organisation, Some("Acme".to_string()));
    assert_eq!(row.url, Some("http://example.com/".to_string()));
    assert_eq!(row.comment, Some("hello".to_string()));
}

#[test]
fn listing_returns_all_inserted_rows() {
    let mut store = Store::open_memory().unwrap();
    for name in ["a", "b", "c", "d"] {
        store.insert(&record(name, None)).unwrap();
    }
    let listed = store.list_signatories().unwrap();
    assert_eq!(sorted_names(&listed), vec!["a", "b", "c", "d"]);
}

#[test]
fn two_listings_agree_as_sets() {
    let mut store = Store::open_memory().unwrap();
    for name in ["a", "b", "c", "d", "e"] {
        store.insert(&record(name, Some("x"))).unwrap();
    }
    let first = store.list_signatories().unwrap();
    let second = store.list_signatories().unwrap();
    assert_eq!(sorted_names(&first), sorted_names(&second));
}

#[test]
fn quotes_are_capped_at_three() {
    let mut store = Store::open_memory().unwrap();
    for name in ["a", "b", "c", "d", "e"] {
        store.insert(&record(name, Some("a comment"))).unwrap();
    }
    store.insert(&record("f", None)).unwrap();
    let quotes = store.list_quotes().unwrap();
    assert_eq!(quotes.len(), 3);
    for q in &quotes {
        assert!(q.comment.as_deref().is_some_and(|c| !c.is_empty()));
    }
}

#[test]
fn quotes_skip_rows_without_comment() {
    let mut store = Store::open_memory().unwrap();
    store.insert(&record("quiet", None)).unwrap();
    store.insert(&record("talker", Some("well said"))).unwrap();
    store.insert(&record("other", None)).unwrap();
    let quotes = store.list_quotes().unwrap();
    assert_eq!(quotes.len(), 1);
    assert_eq!(quotes[0].name, "talker");
    assert_eq!(quotes[0].comment, Some("well said".to_string()));
}

#[test]
fn unreachable_file_reports_unavailable() {
    let path = "/nonexistent-dir/petition/x.db".to_string();
    match Store::open_file(&path) {
        Err(StoreError::Unavailable) => (),
        other => panic!("expected Unavailable, got {:?}", other.map(|_| ())),
    }
}
