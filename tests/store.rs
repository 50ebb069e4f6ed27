use copper_lib::hashing::{artifact_hash, content_hash};
use copper_lib::store::{
    choose_stored, download_input, fetch_candidates, get, save, store_path, verify_content, GetError,
    HashMismatch, StoreInput, StoreOutput, UrlCache,
};

const ABC_SHA512: &str = "ddaf35a193617abacc417349ae20413112e6fa4e89a97ea20a9eeee64b55d39a2192992a274fc1a836ba3c23a3feebbd454d4423643ce80e2a9ac94fa54ca49f";

#[test]
fn strong_hash_of_known_content() {
    assert_eq!(content_hash(&b"abc".to_vec()), ABC_SHA512);
}

#[test]
fn weak_hash_of_known_content() {
    assert_eq!(artifact_hash(&b"abc".to_vec()), "a9993e364706816aba3e25717850c26c9cd0d89d");
    assert_eq!(artifact_hash(&vec![]), "da39a3ee5e6b4b0d3255bfef95601890afd80709");
}

#[test]
fn url_cache_insert_and_get() {
    let mut c = UrlCache::new();
    assert_eq!(c.get(&"u".to_string()), None);
    c.insert("u".to_string(), "h1".to_string());
    c.insert("v".to_string(), "h2".to_string());
    assert_eq!(c.get(&"u".to_string()), Some("h1".to_string()));
    c.insert("u".to_string(), "h3".to_string());
    assert_eq!(c.get(&"u".to_string()), Some("h3".to_string()));
    assert_eq!(c.get(&"v".to_string()), Some("h2".to_string()));
    assert_eq!(c.entries().len(), 3);
}

#[test]
fn store_path_joins() {
    assert_eq!(store_path(&"/s".to_string(), &"ab".to_string()), "/s/ab");
}

#[test]
fn get_by_hash_and_by_locator() {
    let base = "/s".to_string();
    let mut c = UrlCache::new();
    let o = get(&base, &c, StoreInput::Sha512("h".to_string())).unwrap();
    assert_eq!(o.path, "/s/h");
    assert_eq!(o.sha512, "h");
    assert_eq!(get(&base, &c, StoreInput::URL("u".to_string())).unwrap_err(), GetError::URLNotInCache);
    c.insert("u".to_string(), "k".to_string());
    let o = get(&base, &c, StoreInput::URL("u".to_string())).unwrap();
    assert_eq!(o.path, "/s/k");
}

#[test]
fn corrupted_content_is_detected() {
    let rec = StoreOutput { path: "/s/x".to_string(), sha512: ABC_SHA512.to_string() };
    assert!(verify_content(&rec, &b"abc".to_vec()).is_ok());
    assert_eq!(verify_content(&rec, &b"abd".to_vec()), Err(GetError::CorruptedFile));
    assert_eq!(GetError::CorruptedFile.message(), "File in store is corrupted");
    assert_eq!(GetError::URLNotInCache.message(), "Requested URL not in cache");
}

#[test]
fn save_by_locator_records_the_hash() {
    let base = "/s".to_string();
    let mut c = UrlCache::new();
    let data = b"abc".to_vec();
    let o = save(&base, &mut c, &data, StoreInput::URL("http://x/a".to_string())).unwrap();
    assert_eq!(o.sha512, ABC_SHA512);
    assert_eq!(o.path, format!("/s/{}", ABC_SHA512));
    assert_eq!(c.get(&"http://x/a".to_string()), Some(ABC_SHA512.to_string()));
}

#[test]
fn save_by_hash_leaves_the_index() {
    let base = "/s".to_string();
    let mut c = UrlCache::new();
    let o = save(&base, &mut c, &b"abc".to_vec(), StoreInput::Sha512(ABC_SHA512.to_string())).unwrap();
    assert_eq!(o.sha512, ABC_SHA512);
    assert_eq!(o.path, format!("/s/{}", ABC_SHA512));
    assert_eq!(c.entries().len(), 0);
}

#[test]
fn save_refuses_content_with_another_hash() {
    let base = "/s".to_string();
    let mut c = UrlCache::new();
    let r = save(&base, &mut c, &b"abd".to_vec(), StoreInput::Sha512(ABC_SHA512.to_string()));
    assert_eq!(r.unwrap_err(), HashMismatch);
    let r = save(&base, &mut c, &b"abc".to_vec(), StoreInput::Sha512("given".to_string()));
    assert!(r.is_err());
    assert_eq!(c.entries().len(), 0);
}

#[test]
fn candidates_come_in_order() {
    let base = "/s".to_string();
    let mut c = UrlCache::new();
    let url = "u".to_string();
    assert!(fetch_candidates(&base, &c, &None, &url).is_empty());
    c.insert("u".to_string(), "k".to_string());
    let v = fetch_candidates(&base, &c, &Some("h".to_string()), &url);
    assert_eq!(v.len(), 2);
    assert_eq!(v[0].sha512, "h");
    assert_eq!(v[1].sha512, "k");
    assert_eq!(v[1].path, "/s/k");
}

#[test]
fn fetch_twice_downloads_once() {
    // First fetch: nothing known, so it downloads and saves by locator.
    let base = "/s".to_string();
    let mut c = UrlCache::new();
    let url = "http://x/a".to_string();
    let first = fetch_candidates(&base, &c, &None, &url);
    assert!(first.is_empty());
    assert_eq!(choose_stored(&first, &vec![]), None);
    let data = b"abc".to_vec();
    let input = download_input(None, url.clone());
    assert!(matches!(input, StoreInput::URL(_)));
    let saved = save(&base, &mut c, &data, input).unwrap();
    // Second fetch: the locator's record is found intact, so no download.
    let second = fetch_candidates(&base, &c, &None, &url);
    assert_eq!(second.len(), 1);
    assert_eq!(choose_stored(&second, &vec![Some(data.clone())]), Some(0));
    assert_eq!(second[0].path, saved.path);
    assert_eq!(second[0].sha512, saved.sha512);
}

#[test]
fn corrupted_candidate_falls_through() {
    let recs = vec![
        StoreOutput { path: "/s/a".to_string(), sha512: "a".to_string() },
        StoreOutput { path: "/s/b".to_string(), sha512: ABC_SHA512.to_string() },
    ];
    assert_eq!(choose_stored(&recs, &vec![Some(b"abc".to_vec()), Some(b"abc".to_vec())]), Some(1));
    assert_eq!(choose_stored(&recs, &vec![None, None]), None);
    assert_eq!(choose_stored(&recs, &vec![None, Some(b"xyz".to_vec())]), None);
}

#[test]
fn download_input_prefers_expected_hash() {
    match download_input(Some("h".to_string()), "u".to_string()) {
        StoreInput::Sha512(h) => assert_eq!(h, "h"),
        StoreInput::URL(_) => panic!("expected a hash input"),
    }
}
