use movie_store::handlers::ApiError;
use movie_store::shared::SharedStore;
use movie_store::store::Movie;

#[test]
fn shared_store_walkthrough() {
    // An empty store at startup.
    let store = SharedStore::new();

    // Storing a valid record succeeds.
    let r = store.upsert(br#"{"id":"m1","name":"Arrival","year":2016,"was_good":true}"#);
    assert!(r.is_ok());

    // Fetching it returns the record, equal in all fields.
    let m = store.fetch(&"m1".to_string()).expect("record should be present");
    assert_eq!(m, Movie::new("m1", "Arrival", 2016, true));

    // Fetching an unknown id reports not-found, status 404.
    let e = store.fetch(&"unknown".to_string()).unwrap_err();
    assert_eq!(e, ApiError::NotFound);
    assert_eq!(e.status(), 404);

    // A body missing a required field is rejected, status 400.
    let e = store
        .upsert(br#"{"id":"m1","name":"Arrival","year":2016}"#)
        .unwrap_err();
    assert_eq!(e, ApiError::BadPayload);
    assert_eq!(e.status(), 400);

    // The rejection left the store untouched.
    let m = store.fetch(&"m1".to_string()).expect("record should remain");
    assert_eq!(m, Movie::new("m1", "Arrival", 2016, true));
}

#[test]
fn shared_store_replacement() {
    let store = SharedStore::new();
    store
        .upsert(br#"{"id":"m1","name":"Arrival","year":2016,"was_good":true}"#)
        .unwrap();
    store
        .upsert(br#"{"id":"m1","name":"Alien","year":1979,"was_good":false}"#)
        .unwrap();
    let m = store.fetch(&"m1".to_string()).expect("record should be present");
    assert_eq!(m, Movie::new("m1", "Alien", 1979, false));
}

#[test]
fn shared_store_repeated_fetches_agree() {
    let store = SharedStore::new();
    store
        .upsert(br#"{"id":"m1","name":"Arrival","year":2016,"was_good":true}"#)
        .unwrap();
    let a = store.fetch(&"m1".to_string()).unwrap();
    let b = store.fetch(&"m1".to_string()).unwrap();
    assert_eq!(a, b);
}
