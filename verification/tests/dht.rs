use ephemera::api::types::ApiError;
use ephemera::dht::{store_response, DhtQueries, QuerySent};
use ephemera::encoding::decimal_string;

#[test]
fn waiting_query_is_answered_once() {
    let mut queries = DhtQueries::new();
    assert!(matches!(queries.query_sent(b"k".to_vec(), 7, Ok(())), QuerySent::Waiting));
    assert!(queries.query_answered(&b"other".to_vec(), b"v".to_vec()).is_none());
    let (token, (key, value)) = queries.query_answered(&b"k".to_vec(), b"v".to_vec()).unwrap();
    assert_eq!(token, 7);
    assert_eq!(key, b"k".to_vec());
    assert_eq!(value, b"v".to_vec());
    assert!(queries.query_answered(&b"k".to_vec(), b"v".to_vec()).is_none());
}

#[test]
fn newer_query_replaces_older_one() {
    let mut queries = DhtQueries::new();
    queries.query_sent(b"k".to_vec(), 1, Ok(()));
    queries.query_sent(b"k".to_vec(), 2, Ok(()));
    assert_eq!(queries.query_answered(&b"k".to_vec(), vec![]).unwrap().0, 2);
}

#[test]
fn query_not_sent_is_not_kept() {
    let mut queries = DhtQueries::new();
    let r = queries.query_sent(b"k".to_vec(), 1, Err(anyhow::Error::msg("offline")));
    assert!(matches!(r, QuerySent::Failed(ApiError::Internal(_))));
    assert!(queries.query_answered(&b"k".to_vec(), vec![]).is_none());
    assert!(store_response(Ok(())).is_ok());
    assert!(matches!(store_response(Err(anyhow::Error::msg("x"))), Err(ApiError::Internal(_))));
}

#[test]
fn decimal_text_of_numbers() {
    assert_eq!(decimal_string(0), "0");
    assert_eq!(decimal_string(9), "9");
    assert_eq!(decimal_string(10), "10");
    assert_eq!(decimal_string(3000), "3000");
    assert_eq!(decimal_string(u64::MAX), u64::MAX.to_string());
}
