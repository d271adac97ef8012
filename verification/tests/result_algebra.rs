//! The result algebra on concrete tables: identities, merging and
//! joining single columns, the key/value builder, and the accessors.

use dbview::dbclient::fetcher::Column;
use dbview::dbclient::fetcher::FetchResult;
use dbview::dbclient::fetcher::Table;

fn col(name: &str, values: &[&str]) -> Column {
    Column {
        name: name.to_string(),
        values: values.iter().map(|v| v.to_string()).collect(),
    }
}

fn table(index: &[&str], columns: Vec<Column>) -> FetchResult {
    FetchResult {
        table: Some(Table {
            index_columns: index.iter().map(|v| v.to_string()).collect(),
            columns,
        }),
    }
}

#[test]
fn merge_identity_on_either_side() {
    let x = table(&["c"], vec![col("c", &["1", "2"])]);
    assert_eq!(FetchResult::merge(&FetchResult::none(), &x), x);
    assert_eq!(FetchResult::merge(&x, &FetchResult::none()), x);
    assert_eq!(
        FetchResult::merge(&FetchResult::none(), &FetchResult::none()),
        FetchResult::none()
    );
}

#[test]
fn join_identity_on_either_side() {
    let x = table(&["c"], vec![col("c", &["1", "2"])]);
    assert_eq!(FetchResult::join(&FetchResult::none(), &x), x);
    assert_eq!(FetchResult::join(&x, &FetchResult::none()), x);
    assert_eq!(
        FetchResult::join(&FetchResult::none(), &FetchResult::none()),
        FetchResult::none()
    );
}

#[test]
fn merge_same_column_appends_values() {
    let a = table(&["ia"], vec![col("c", &["1", "2"])]);
    let b = table(&["ib"], vec![col("c", &["3"])]);
    let merged = FetchResult::merge(&a, &b);
    assert_eq!(merged, table(&["ia"], vec![col("c", &["1", "2", "3"])]));
    assert_eq!(merged.get_table_height(), 3);
    assert_eq!(merged.get_table_width(), 1);
}

#[test]
fn merge_new_column_is_inserted() {
    let a = table(&["ia"], vec![col("c", &["1"])]);
    let b = table(&["ib"], vec![col("d", &["2"])]);
    let merged = FetchResult::merge(&a, &b);
    assert_eq!(
        merged,
        table(&["ia"], vec![col("c", &["1"]), col("d", &["2"])])
    );
}

#[test]
fn join_same_column_disambiguates() {
    let a = table(&["ia"], vec![col("c", &["1", "2"])]);
    let b = table(&["ib"], vec![col("c", &["3", "4"])]);
    let joined = FetchResult::join(&a, &b);
    let expected = table(
        &["ia", "ib"],
        vec![col("c_1", &["1", "2"]), col("c_2", &["3", "4"])],
    );
    assert_eq!(joined, expected);
    match &joined.table {
        Some(t) => assert_eq!(t.index_columns.len(), 2),
        None => panic!("joined table is absent"),
    }
}

#[test]
fn single_builds_one_result_cell() {
    let r = FetchResult::single("42".to_string());
    assert_eq!(r, table(&["result"], vec![col("result", &["42"])]));
    assert_eq!(r.get_table_height(), 1);
    assert_eq!(r.get_table_width(), 1);
}

#[test]
fn multiple_builds_one_result_column() {
    let r = FetchResult::multiple(vec!["a".to_string(), "b".to_string()]);
    assert_eq!(r, table(&["result"], vec![col("result", &["a", "b"])]));
}

#[test]
fn key_value_builds_parallel_columns() {
    let r = FetchResult::key_value(vec![
        ("a".to_string(), "1".to_string()),
        ("b".to_string(), "2".to_string()),
    ]);
    let expected = table(
        &["keys"],
        vec![col("keys", &["a", "b"]), col("values", &["1", "2"])],
    );
    assert_eq!(r, expected);
}

#[test]
fn height_of_absent_and_ragged_tables() {
    assert_eq!(FetchResult::none().get_table_height(), 0);
    assert_eq!(FetchResult::none().get_table_width(), 0);
    let ragged = table(&["a"], vec![col("a", &["1", "2", "3"]), col("b", &["1", "2", "3", "4", "5"])]);
    assert_eq!(ragged.get_table_height(), 5);
    assert_eq!(ragged.get_table_width(), 2);
}
