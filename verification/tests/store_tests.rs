use rust_url_shortener::error::AppError;
use rust_url_shortener::models::{NewUrl, Url};
use rust_url_shortener::store::UrlStore;

fn new_url(original_url: &str, short_code: &str) -> NewUrl {
    NewUrl {
        original_url: original_url.to_string(),
        short_code: short_code.to_string(),
    }
}

#[test]
fn a_new_store_is_empty() {
    let store = UrlStore::new();
    assert_eq!(store.len(), 0);
    assert!(store.is_empty());
    assert!(store.list_all().is_empty());
    assert!(!store.contains_code("abc1234"));
}

#[test]
fn insert_assigns_id_and_timestamp() {
    let mut store = UrlStore::new();
    let row = store.insert(new_url("https://example.com", "abc1234"), 1_700_000_000);
    assert_eq!(
        row,
        Ok(Url {
            id: 1,
            original_url: "https://example.com".to_string(),
            short_code: "abc1234".to_string(),
            created_at: 1_700_000_000,
        })
    );
    let row = store.insert(new_url("https://example.org", "xyz7890"), 1_700_000_050);
    assert_eq!(
        row,
        Ok(Url {
            id: 2,
            original_url: "https://example.org".to_string(),
            short_code: "xyz7890".to_string(),
            created_at: 1_700_000_050,
        })
    );
    assert_eq!(store.len(), 2);
    assert!(!store.is_empty());
}

#[test]
fn insert_refuses_a_code_in_use() {
    let mut store = UrlStore::new();
    store.insert(new_url("https://a.example", "samecode"), 10).unwrap();
    let second = store.insert(new_url("https://b.example", "samecode"), 11);
    assert_eq!(
        second,
        Err(AppError::DbError(
            "UNIQUE constraint failed: urls.short_code".to_string()
        ))
    );
    assert_eq!(store.len(), 1);
    assert_eq!(
        store.find_by_code("samecode").unwrap().original_url,
        "https://a.example"
    );
}

#[test]
fn codes_differ_by_case() {
    let mut store = UrlStore::new();
    store.insert(new_url("https://a.example", "abc"), 10).unwrap();
    store.insert(new_url("https://b.example", "ABC"), 10).unwrap();
    assert_eq!(store.find_by_code("abc").unwrap().original_url, "https://a.example");
    assert_eq!(store.find_by_code("ABC").unwrap().original_url, "https://b.example");
}

#[test]
fn the_same_url_may_be_stored_under_two_codes() {
    let mut store = UrlStore::new();
    store.insert(new_url("https://a.example", "one"), 10).unwrap();
    store.insert(new_url("https://a.example", "two"), 10).unwrap();
    assert_eq!(store.len(), 2);
}

#[test]
fn the_clock_of_the_table_never_runs_backwards() {
    let mut store = UrlStore::new();
    assert_eq!(store.insert(new_url("u1", "c1"), 100).unwrap().created_at, 100);
    assert_eq!(store.insert(new_url("u2", "c2"), 40).unwrap().created_at, 100);
    assert_eq!(store.insert(new_url("u3", "c3"), 100).unwrap().created_at, 100);
    assert_eq!(store.insert(new_url("u4", "c4"), 101).unwrap().created_at, 101);
    assert_eq!(store.insert(new_url("u5", "c5"), 0).unwrap().created_at, 101);
    let stamps: Vec<u64> = store.list_all().iter().map(|row| row.created_at).collect();
    assert_eq!(stamps, vec![101, 101, 100, 100, 100]);
}

#[test]
fn find_by_code_returns_the_row() {
    let mut store = UrlStore::new();
    store.insert(new_url("https://a.example", "aaa"), 1).unwrap();
    store.insert(new_url("https://b.example", "bbb"), 2).unwrap();
    store.insert(new_url("https://c.example", "ccc"), 3).unwrap();
    assert_eq!(
        store.find_by_code("bbb"),
        Ok(Url {
            id: 2,
            original_url: "https://b.example".to_string(),
            short_code: "bbb".to_string(),
            created_at: 2,
        })
    );
    assert!(store.contains_code("aaa"));
    assert!(store.contains_code("ccc"));
}

#[test]
fn find_by_code_reports_a_miss() {
    let mut store = UrlStore::new();
    let miss = Err(AppError::NotFound("URL not found".to_string()));
    assert_eq!(store.find_by_code("aaa"), miss);
    store.insert(new_url("https://a.example", "aaa"), 1).unwrap();
    assert_eq!(store.find_by_code("aab"), miss);
    assert_eq!(store.find_by_code("aa"), miss);
    assert_eq!(store.find_by_code("aaaa"), miss);
    assert_eq!(store.find_by_code(""), miss);
    assert!(!store.contains_code("aab"));
}

#[test]
fn list_all_is_most_recent_first() {
    let mut store = UrlStore::new();
    store.insert(new_url("u1", "c1"), 10).unwrap();
    store.insert(new_url("u2", "c2"), 20).unwrap();
    store.insert(new_url("u3", "c3"), 30).unwrap();
    let listing = store.list_all();
    let urls: Vec<&str> = listing.iter().map(|row| row.original_url.as_str()).collect();
    assert_eq!(urls, vec!["u3", "u2", "u1"]);
    let ids: Vec<i32> = listing.iter().map(|row| row.id).collect();
    assert_eq!(ids, vec![3, 2, 1]);
    let stamps: Vec<u64> = listing.iter().map(|row| row.created_at).collect();
    assert_eq!(stamps, vec![30, 20, 10]);
}

#[test]
fn list_all_breaks_ties_by_insertion() {
    let mut store = UrlStore::new();
    store.insert(new_url("u1", "c1"), 10).unwrap();
    store.insert(new_url("u2", "c2"), 10).unwrap();
    store.insert(new_url("u3", "c3"), 10).unwrap();
    let listing = store.list_all();
    let urls: Vec<&str> = listing.iter().map(|row| row.original_url.as_str()).collect();
    assert_eq!(urls, vec!["u3", "u2", "u1"]);
}

#[test]
fn a_refused_insert_leaves_the_listing_alone() {
    let mut store = UrlStore::new();
    store.insert(new_url("u1", "c1"), 10).unwrap();
    store.insert(new_url("u2", "c2"), 20).unwrap();
    let before = store.list_all();
    assert!(store.insert(new_url("u3", "c1"), 30).is_err());
    assert_eq!(store.list_all(), before);
}

#[test]
fn no_code_is_listed_twice() {
    let mut store = UrlStore::new();
    let codes = ["a", "b", "a", "c", "b", "a", "d"];
    for (i, code) in codes.iter().enumerate() {
        let _ = store.insert(new_url("u", code), i as u64);
    }
    let listing = store.list_all();
    assert_eq!(listing.len(), 4);
    for i in 0..listing.len() {
        for j in (i + 1)..listing.len() {
            assert_ne!(listing[i].short_code, listing[j].short_code);
        }
    }
    let ids: Vec<i32> = listing.iter().map(|row| row.id).collect();
    assert_eq!(ids, vec![4, 3, 2, 1]);
}

#[test]
fn table_invariant_changes_nothing() {
    let mut store = UrlStore::new();
    store.insert(new_url("u1", "c1"), 10).unwrap();
    let before = store.list_all();
    store.table_invariant();
    assert_eq!(store.list_all(), before);
}
