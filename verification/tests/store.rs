use movie_store::handlers::{fetch, upsert, ApiError};
use movie_store::store::{Movie, Store};

#[test]
fn movie_new_keeps_fields() {
    let m = Movie::new("m1", "Arrival", 2016, true);
    assert_eq!(m.id, "m1");
    assert_eq!(m.name, "Arrival");
    assert_eq!(m.year, 2016);
    assert!(m.was_good);
}

#[test]
fn movie_duplicate_is_equal() {
    let m = Movie::new("m1", "Arrival", 2016, true);
    let c = m.duplicate();
    assert_eq!(m, c);
}

#[test]
fn round_trip_returns_equal_record() {
    let mut s = Store::new();
    let m = Movie::new("m1", "Arrival", 2016, true);
    s.put(m.duplicate());
    let got = s.get(&"m1".to_string()).expect("record should be present");
    assert_eq!(got, m);
}

#[test]
fn replacement_overwrites_all_fields() {
    let mut s = Store::new();
    s.put(Movie::new("m1", "Arrival", 2016, true));
    s.put(Movie::new("m1", "Alien", 1979, false));
    let got = s.get(&"m1".to_string()).expect("record should be present");
    assert_eq!(got, Movie::new("m1", "Alien", 1979, false));
}

#[test]
fn absence_yields_nothing() {
    let mut s = Store::new();
    assert!(s.get(&"never".to_string()).is_none());
    s.put(Movie::new("m1", "Arrival", 2016, true));
    assert!(s.get(&"never".to_string()).is_none());
}

#[test]
fn fetch_absent_is_not_found() {
    let s = Store::new();
    let r = fetch(&s, &"unknown".to_string());
    assert_eq!(r.unwrap_err(), ApiError::NotFound);
}

#[test]
fn fetch_present_returns_snapshot() {
    let mut s = Store::new();
    s.put(Movie::new("m1", "Arrival", 2016, true));
    let r = fetch(&s, &"m1".to_string());
    assert_eq!(r.unwrap(), Movie::new("m1", "Arrival", 2016, true));
}

#[test]
fn upsert_valid_body_stores_record() {
    let mut s = Store::new();
    let r = upsert(
        &mut s,
        br#"{"id":"m1","name":"Arrival","year":2016,"was_good":true}"#,
    );
    assert!(r.is_ok());
    let got = s.get(&"m1".to_string()).expect("record should be present");
    assert_eq!(got, Movie::new("m1", "Arrival", 2016, true));
}

#[test]
fn upsert_missing_field_rejected_store_unchanged() {
    let mut s = Store::new();
    s.put(Movie::new("m1", "Arrival", 2016, true));
    let r = upsert(&mut s, br#"{"id":"m2","name":"Alien","year":1979}"#);
    assert_eq!(r.unwrap_err(), ApiError::BadPayload);
    assert!(s.get(&"m2".to_string()).is_none());
    let prior = s.get(&"m1".to_string()).expect("prior record should remain");
    assert_eq!(prior, Movie::new("m1", "Arrival", 2016, true));
}

#[test]
fn error_status_codes() {
    assert_eq!(ApiError::NotFound.status(), 404);
    assert_eq!(ApiError::BadPayload.status(), 400);
}
