//! Normalizing raw wire values into canonical tables, shape by shape.

use dbview::dbclient::fetcher::Column;
use dbview::dbclient::fetcher::FetchResult;
use dbview::dbclient::fetcher::FetcherError;
use dbview::dbclient::fetcher::Table;
use dbview::dbclient::redis::value::normalize;
use dbview::dbclient::redis::value::DbValue;
use dbview::dbclient::redis::RedisError;

fn col(name: &str, values: &[&str]) -> Column {
    Column {
        name: name.to_string(),
        values: values.iter().map(|v| v.to_string()).collect(),
    }
}

fn table(index: &[&str], columns: Vec<Column>) -> FetchResult {
    FetchResult {
        table: Some(Table {
            index_columns: index.iter().map(|v| v.to_string()).collect(),
            columns,
        }),
    }
}

#[test]
fn nil_and_okay_normalize_to_no_data() {
    assert_eq!(normalize(&DbValue::Nil), Ok(FetchResult::none()));
    assert_eq!(normalize(&DbValue::Okay), Ok(FetchResult::none()));
}

#[test]
fn integer_normalizes_to_its_decimal_rendering() {
    let r = normalize(&DbValue::Int(42)).unwrap();
    assert_eq!(r, table(&["result"], vec![col("result", &["42"])]));
    let r = normalize(&DbValue::Int(-7)).unwrap();
    assert_eq!(r, table(&["result"], vec![col("result", &["-7"])]));
}

#[test]
fn strings_normalize_to_one_cell() {
    let r = normalize(&DbValue::BulkString(b"hello".to_vec())).unwrap();
    assert_eq!(r, table(&["result"], vec![col("result", &["hello"])]));
    let r = normalize(&DbValue::SimpleString("OK-ish".to_string())).unwrap();
    assert_eq!(r, table(&["result"], vec![col("result", &["OK-ish"])]));
    let r = normalize(&DbValue::VerbatimString("txt".to_string())).unwrap();
    assert_eq!(r, table(&["result"], vec![col("result", &["txt"])]));
}

#[test]
fn scalar_texts_normalize_verbatim() {
    let r = normalize(&DbValue::Double("3.25".to_string())).unwrap();
    assert_eq!(r, table(&["result"], vec![col("result", &["3.25"])]));
    let r = normalize(&DbValue::BigNumber("123456789012345678901".to_string())).unwrap();
    assert_eq!(
        r,
        table(&["result"], vec![col("result", &["123456789012345678901"])])
    );
    let r = normalize(&DbValue::Boolean(true)).unwrap();
    assert_eq!(r, table(&["result"], vec![col("result", &["true"])]));
    let r = normalize(&DbValue::Boolean(false)).unwrap();
    assert_eq!(r, table(&["result"], vec![col("result", &["false"])]));
}

#[test]
fn array_of_three_scalars_keeps_order() {
    let reply = DbValue::Array(vec![
        DbValue::Int(1),
        DbValue::SimpleString("two".to_string()),
        DbValue::BulkString(b"three".to_vec()),
    ]);
    let r = normalize(&reply).unwrap();
    assert_eq!(
        r,
        table(&["result"], vec![col("result", &["1", "two", "three"])])
    );
    assert_eq!(r.get_table_height(), 3);
}

#[test]
fn empty_array_normalizes_to_no_data() {
    assert_eq!(normalize(&DbValue::Array(vec![])), Ok(FetchResult::none()));
}

#[test]
fn set_normalizes_like_an_array() {
    let reply = DbValue::SetItems(vec![
        DbValue::SimpleString("a".to_string()),
        DbValue::SimpleString("b".to_string()),
    ]);
    let r = normalize(&reply).unwrap();
    assert_eq!(r, table(&["result"], vec![col("result", &["a", "b"])]));
}

#[test]
fn mapping_joins_pairs_and_merges_rows() {
    let reply = DbValue::Mapping(vec![
        (
            DbValue::BulkString(b"a".to_vec()),
            DbValue::BulkString(b"1".to_vec()),
        ),
        (
            DbValue::BulkString(b"b".to_vec()),
            DbValue::BulkString(b"2".to_vec()),
        ),
    ]);
    let r = normalize(&reply).unwrap();
    let expected = table(
        &["result", "result"],
        vec![col("result_1", &["a", "b"]), col("result_2", &["1", "2"])],
    );
    assert_eq!(r, expected);
}

#[test]
fn error_reply_propagates_as_backend_error() {
    let reply = DbValue::ServerError("WRONGTYPE".to_string());
    assert_eq!(
        normalize(&reply),
        Err(FetcherError::RedisError(RedisError::Server(
            "WRONGTYPE".to_string()
        )))
    );
    let nested = DbValue::Array(vec![
        DbValue::Int(1),
        DbValue::ServerError("boom".to_string()),
    ]);
    assert_eq!(
        normalize(&nested),
        Err(FetcherError::RedisError(RedisError::Server(
            "boom".to_string()
        )))
    );
}

#[test]
fn undecodable_bytes_are_a_bad_reply() {
    let reply = DbValue::BulkString(vec![0xff, 0xfe]);
    assert_eq!(
        normalize(&reply),
        Err(FetcherError::RedisError(RedisError::BadReply))
    );
}

#[test]
fn unsupported_shapes_fail_loudly() {
    assert_eq!(
        normalize(&DbValue::Push),
        Err(FetcherError::InvalidQuery)
    );
    assert_eq!(
        normalize(&DbValue::Attribute),
        Err(FetcherError::InvalidQuery)
    );
}
