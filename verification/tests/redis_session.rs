//! The backend session machine: query dispatch, container-type
//! dispatch, the hash path, and the cursor-driven keyspace scan.

use dbview::dbclient::fetcher::Column;
use dbview::dbclient::fetcher::FetchRequest;
use dbview::dbclient::fetcher::FetchResult;
use dbview::dbclient::fetcher::FetcherError;
use dbview::dbclient::fetcher::Table;
use dbview::dbclient::query_builder::QueryElement;
use dbview::dbclient::redis::get_index_type;
use dbview::dbclient::redis::parse_redis_type;
use dbview::dbclient::redis::value::DbValue;
use dbview::dbclient::redis::FetchPhase;
use dbview::dbclient::redis::FetchStep;
use dbview::dbclient::redis::RedisFetcher;
use dbview::dbclient::redis::RedisType;
use dbview::dbclient::redis::RedisError;
use dbview::dbclient::redis::ScanStep;

fn col(name: &str, values: &[&str]) -> Column {
    Column {
        name: name.to_string(),
        values: values.iter().map(|v| v.to_string()).collect(),
    }
}

fn table(index: &[&str], columns: Vec<Column>) -> FetchResult {
    FetchResult {
        table: Some(Table {
            index_columns: index.iter().map(|v| v.to_string()).collect(),
            columns,
        }),
    }
}

fn args(words: &[&str]) -> Vec<String> {
    words.iter().map(|w| w.to_string()).collect()
}

fn request(q: QueryElement) -> FetchRequest {
    FetchRequest { query: vec![q], limit: usize::MAX }
}

#[test]
fn empty_query_is_invalid() {
    let r = RedisFetcher::fetch_start(&FetchRequest { query: vec![], limit: 5 });
    assert_eq!(r, Err(FetcherError::InvalidQuery));
}

#[test]
fn add_database_object_is_not_implemented() {
    let q = QueryElement::AddDatabaseObject("a".into(), "b".into(), "c".into());
    assert_eq!(
        RedisFetcher::fetch_start(&request(q)),
        Err(FetcherError::InvalidQuery)
    );
}

#[test]
fn raw_query_splits_on_spaces_and_runs_verbatim() {
    let q = QueryElement::RawQuery("HGETALL user:1001".to_string());
    match RedisFetcher::fetch_start(&request(q)).unwrap() {
        FetchStep::Query(a, phase) => {
            assert_eq!(a, args(&["HGETALL", "user:1001"]));
            assert_eq!(phase, FetchPhase::RawReply);
            let reply = DbValue::BulkString(b"49".to_vec());
            match RedisFetcher::fetch_resume(phase, &reply).unwrap() {
                FetchStep::Done(fr) => {
                    assert_eq!(fr, table(&["result"], vec![col("result", &["49"])]));
                }
                other => panic!("expected a finished result, got {:?}", other),
            }
        }
        other => panic!("expected a command, got {:?}", other),
    }
}

#[test]
fn list_type_dispatches_to_the_range_read() {
    let q = QueryElement::ListAllItemsFrom("tags".to_string());
    let step = RedisFetcher::fetch_start(&request(q)).unwrap();
    assert_eq!(
        step,
        FetchStep::Query(
            args(&["TYPE", "tags"]),
            FetchPhase::TypeReply("tags".to_string())
        )
    );
    let type_reply = DbValue::SimpleString("list".to_string());
    let step = RedisFetcher::fetch_resume(FetchPhase::TypeReply("tags".to_string()), &type_reply)
        .unwrap();
    assert_eq!(
        step,
        FetchStep::Query(
            args(&["LRANGE", "tags", "0", "-1"]),
            FetchPhase::ItemsReply(RedisType::List)
        )
    );
}

#[test]
fn each_container_type_gets_its_own_read() {
    let cases = [
        ("string", args(&["GET", "k"]), RedisType::Str),
        ("set", args(&["SMEMBERS", "k"]), RedisType::SetKind),
        ("zset", args(&["ZRANGE", "k", "0", "-1"]), RedisType::Zset),
        ("hash", args(&["HGETALL", "k"]), RedisType::Hash),
    ];
    for (kind_name, expected_args, expected_type) in cases {
        let reply = DbValue::SimpleString(kind_name.to_string());
        let step =
            RedisFetcher::fetch_resume(FetchPhase::TypeReply("k".to_string()), &reply).unwrap();
        assert_eq!(
            step,
            FetchStep::Query(expected_args, FetchPhase::ItemsReply(expected_type)),
            "dispatch for container type {:?}",
            kind_name
        );
    }
}

#[test]
fn stream_and_absent_names_finish_with_no_data() {
    for kind_name in ["stream", "none"] {
        let reply = DbValue::SimpleString(kind_name.to_string());
        let step =
            RedisFetcher::fetch_resume(FetchPhase::TypeReply("k".to_string()), &reply).unwrap();
        assert_eq!(step, FetchStep::Done(FetchResult::none()));
    }
}

#[test]
fn unrecognized_container_type_is_invalid() {
    let reply = DbValue::SimpleString("graph".to_string());
    let r = RedisFetcher::fetch_resume(FetchPhase::TypeReply("k".to_string()), &reply);
    assert_eq!(r, Err(FetcherError::InvalidQuery));
}

#[test]
fn scalar_read_finishes_with_one_cell() {
    let reply = DbValue::BulkString(b"v".to_vec());
    let step =
        RedisFetcher::fetch_resume(FetchPhase::ItemsReply(RedisType::Str), &reply).unwrap();
    assert_eq!(
        step,
        FetchStep::Done(table(&["result"], vec![col("result", &["v"])]))
    );
}

#[test]
fn hash_read_finishes_with_the_key_value_table() {
    let reply = DbValue::Mapping(vec![
        (
            DbValue::BulkString(b"a".to_vec()),
            DbValue::BulkString(b"1".to_vec()),
        ),
        (
            DbValue::BulkString(b"b".to_vec()),
            DbValue::BulkString(b"2".to_vec()),
        ),
    ]);
    let step =
        RedisFetcher::fetch_resume(FetchPhase::ItemsReply(RedisType::Hash), &reply).unwrap();
    let expected = table(
        &["keys"],
        vec![col("keys", &["a", "b"]), col("values", &["1", "2"])],
    );
    assert_eq!(step, FetchStep::Done(expected));
}

#[test]
fn parse_redis_type_covers_the_closed_set() {
    assert_eq!(
        parse_redis_type(&"string".to_string()),
        Some(RedisType::Str)
    );
    assert_eq!(parse_redis_type(&"list".to_string()), Some(RedisType::List));
    assert_eq!(
        parse_redis_type(&"set".to_string()),
        Some(RedisType::SetKind)
    );
    assert_eq!(parse_redis_type(&"zset".to_string()), Some(RedisType::Zset));
    assert_eq!(parse_redis_type(&"hash".to_string()), Some(RedisType::Hash));
    assert_eq!(
        parse_redis_type(&"stream".to_string()),
        Some(RedisType::Stream)
    );
    assert_eq!(
        parse_redis_type(&"none".to_string()),
        Some(RedisType::Missing)
    );
    assert_eq!(parse_redis_type(&"graph".to_string()), None);
}

#[test]
fn get_index_type_reads_the_last_column_first_value() {
    let type_res = table(&["result"], vec![col("result", &["zset"])]);
    assert_eq!(get_index_type(&type_res), Ok(RedisType::Zset));
    assert_eq!(
        get_index_type(&FetchResult::none()),
        Err(FetcherError::InvalidQuery)
    );
    let empty_col = table(&["result"], vec![col("result", &[])]);
    assert_eq!(get_index_type(&empty_col), Err(FetcherError::InvalidQuery));
}

#[test]
fn scan_merges_two_pages_in_two_round_trips() {
    let (sess, first_args) = RedisFetcher::scan_start();
    assert_eq!(first_args, args(&["SCAN", "0", "MATCH", "*"]));

    let page1 = DbValue::Array(vec![
        DbValue::BulkString(b"5".to_vec()),
        DbValue::Array(vec![
            DbValue::BulkString(b"k1".to_vec()),
            DbValue::BulkString(b"k2".to_vec()),
        ]),
    ]);
    let (sess, next_args) = match RedisFetcher::scan_step(sess, &page1).unwrap() {
        ScanStep::Continue(sess, a) => (sess, a),
        ScanStep::Finished(fr) => panic!("scan finished after one page: {:?}", fr),
    };
    assert_eq!(next_args, args(&["SCAN", "5", "MATCH", "*"]));

    let page2 = DbValue::Array(vec![
        DbValue::BulkString(b"0".to_vec()),
        DbValue::Array(vec![DbValue::BulkString(b"k3".to_vec())]),
    ]);
    match RedisFetcher::scan_step(sess, &page2).unwrap() {
        ScanStep::Finished(fr) => {
            assert_eq!(
                fr,
                table(&["result"], vec![col("result", &["k1", "k2", "k3"])])
            );
        }
        ScanStep::Continue(_, a) => panic!("scan went on past cursor zero: {:?}", a),
    }
}

#[test]
fn scan_takes_empty_pages_and_integer_cursors() {
    let (sess, _) = RedisFetcher::scan_start();
    let empty_page = DbValue::Array(vec![DbValue::Int(3), DbValue::Array(vec![])]);
    let (sess, next_args) = match RedisFetcher::scan_step(sess, &empty_page).unwrap() {
        ScanStep::Continue(sess, a) => (sess, a),
        ScanStep::Finished(fr) => panic!("scan finished on a continue cursor: {:?}", fr),
    };
    assert_eq!(next_args, args(&["SCAN", "3", "MATCH", "*"]));
    let last = DbValue::Array(vec![DbValue::Int(0), DbValue::Array(vec![])]);
    match RedisFetcher::scan_step(sess, &last).unwrap() {
        ScanStep::Finished(fr) => assert_eq!(fr, FetchResult::none()),
        ScanStep::Continue(_, a) => panic!("scan went on past cursor zero: {:?}", a),
    }
}

#[test]
fn malformed_scan_pages_are_bad_replies() {
    let (sess, _) = RedisFetcher::scan_start();
    let bad = DbValue::Array(vec![DbValue::Int(1)]);
    assert_eq!(
        RedisFetcher::scan_step(sess, &bad),
        Err(FetcherError::RedisError(RedisError::BadReply))
    );
    let (sess, _) = RedisFetcher::scan_start();
    let err = DbValue::ServerError("LOADING".to_string());
    assert_eq!(
        RedisFetcher::scan_step(sess, &err),
        Err(FetcherError::RedisError(RedisError::Server(
            "LOADING".to_string()
        )))
    );
}
