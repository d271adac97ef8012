//! The canonical result model and its algebra.
//!
//! Every backend reply is folded into one tabular shape: an optional table
//! of named string columns together with an ordered list of index-column
//! names. Two combinators act on that shape: [`FetchResult::merge`]
//! accumulates homogeneous results (same columns, more rows) and
//! [`FetchResult::join`] pairs heterogeneous results positionally under
//! disambiguated column names.

use vstd::prelude::*;

use crate::dbclient::query_builder::QueryElement;
use crate::dbclient::redis::RedisError;

verus! {

/// Mathematical model of one named column: its name and its cells.
#[verifier::ext_equal]
pub struct ColView {
    pub name: Seq<char>,
    pub cells: Seq<Seq<char>>,
}

/// Mathematical model of a non-absent table: the ordered index-column
/// names and the ordered columns.
#[verifier::ext_equal]
pub struct TableView {
    pub index: Seq<Seq<char>>,
    pub cols: Seq<ColView>,
}

/// One named column of string cells.
#[derive(Debug, PartialEq, Clone)]
pub struct Column {
    pub name: String,
    pub values: Vec<String>,
}

impl View for Column {
    type V = ColView;

    open spec fn view(&self) -> ColView {
        ColView { name: self.name@, cells: self.values.deep_view() }
    }
}

impl DeepView for Column {
    type V = ColView;

    open spec fn deep_view(&self) -> ColView {
        self.view()
    }
}

/// A present table: index-column names plus the columns, keyed by their
/// unique names.
#[derive(Debug, PartialEq, Clone)]
pub struct Table {
    pub index_columns: Vec<String>,
    pub columns: Vec<Column>,
}

impl View for Table {
    type V = TableView;

    open spec fn view(&self) -> TableView {
        TableView { index: self.index_columns.deep_view(), cols: self.columns.deep_view() }
    }
}

/// The canonical output of a fetch: either a table, or no data at all
/// (which is distinct from an empty table).
#[derive(Debug, PartialEq, Clone)]
pub struct FetchResult {
    pub table: Option<Table>,
}

impl View for FetchResult {
    type V = Option<TableView>;

    open spec fn view(&self) -> Option<TableView> {
        match self.table {
            Option::Some(t) => Option::Some(t@),
            Option::None => Option::None,
        }
    }
}

impl DeepView for FetchResult {
    type V = Option<TableView>;

    open spec fn deep_view(&self) -> Option<TableView> {
        self.view()
    }
}

/// One row of rendered cells, in column order.
#[derive(Debug, PartialEq, Clone)]
pub struct Row {
    pub columns: Vec<String>,
}

/// An ordered sequence of query primitives plus a result-size bound.
#[derive(Debug, PartialEq, Clone)]
pub struct FetchRequest {
    pub query: Vec<QueryElement>,
    pub limit: usize,
}

/// Why a fetch failed: the query itself was malformed or unsupported, or
/// the backend reported a failure, which is wrapped without loss.
#[derive(Debug, PartialEq, Clone)]
pub enum FetcherError {
    InvalidQuery,
    RedisError(RedisError),
}

impl From<RedisError> for FetcherError {
    fn from(err: RedisError) -> (r: Self) {
        FetcherError::RedisError(err)
    }
}

impl vstd::std_specs::convert::FromSpecImpl<RedisError> for FetcherError {
    open spec fn obeys_from_spec() -> bool {
        true
    }

    open spec fn from_spec(err: RedisError) -> Self {
        FetcherError::RedisError(err)
    }
}

// ---------------------------------------------------------------------
// The spec-level result algebra.
// ---------------------------------------------------------------------

/// The absent result.
pub open spec fn none_v() -> Option<TableView> {
    Option::<TableView>::None
}

/// One column named `"result"` holding a single cell.
pub open spec fn single_v(cell: Seq<char>) -> TableView {
    TableView {
        index: seq!["result"@],
        cols: seq![ColView { name: "result"@, cells: seq![cell] }],
    }
}

/// One column named `"result"` holding one cell per item, in order.
pub open spec fn multiple_v(cells: Seq<Seq<char>>) -> TableView {
    TableView {
        index: seq!["result"@],
        cols: seq![ColView { name: "result"@, cells }],
    }
}

/// Two parallel columns `"keys"` and `"values"` built from field/value
/// pairs, with `"keys"` as the sole index column.
pub open spec fn key_value_v(pairs: Seq<(Seq<char>, Seq<char>)>) -> TableView {
    TableView {
        index: seq!["keys"@],
        cols: seq![
            ColView { name: "keys"@, cells: pairs.map_values(|p: (Seq<char>, Seq<char>)| p.0) },
            ColView { name: "values"@, cells: pairs.map_values(|p: (Seq<char>, Seq<char>)| p.1) },
        ],
    }
}

/// The index of the first column with this name, or `-1` if there is none.
pub open spec fn find_col(cols: Seq<ColView>, name: Seq<char>) -> int
    decreases cols.len(),
{
    if cols.len() == 0 {
        -1
    } else if cols[0].name == name {
        0
    } else {
        let r = find_col(cols.drop_first(), name);
        if r < 0 {
            -1
        } else {
            r + 1
        }
    }
}

/// Folds one column into a column list: appends its cells to the column of
/// the same name if present, otherwise adds it as a new column at the end.
pub open spec fn merge_into(cols: Seq<ColView>, c: ColView) -> Seq<ColView> {
    let i = find_col(cols, c.name);
    if 0 <= i < cols.len() {
        cols.update(i, ColView { name: cols[i].name, cells: cols[i].cells + c.cells })
    } else {
        cols.push(c)
    }
}

/// Folds every column of `b` into `a`, left to right.
pub open spec fn merge_cols(a: Seq<ColView>, b: Seq<ColView>) -> Seq<ColView>
    decreases b.len(),
{
    if b.len() == 0 {
        a
    } else {
        merge_cols(merge_into(a, b[0]), b.drop_first())
    }
}

/// Set-theoretic union with append-on-conflict. An absent side is the
/// identity; when both tables are present, the left index-column list
/// wins and `b`'s columns are folded into `a`'s.
pub open spec fn merge_v(a: Option<TableView>, b: Option<TableView>) -> Option<TableView> {
    match (a, b) {
        (Option::None, Option::None) => Option::None,
        (Option::None, Option::Some(t)) => Option::Some(t),
        (Option::Some(t), Option::None) => Option::Some(t),
        (Option::Some(t1), Option::Some(t2)) => Option::Some(
            TableView { index: t1.index, cols: merge_cols(t1.cols, t2.cols) },
        ),
    }
}

/// Every column renamed with this suffix, cells unchanged.
pub open spec fn suffixed(cols: Seq<ColView>, sfx: Seq<char>) -> Seq<ColView> {
    cols.map_values(|c: ColView| ColView { name: c.name + sfx, cells: c.cells })
}

/// Positional pairing with disambiguation. An absent side leaves the
/// other unchanged; when both tables are present, `a`'s columns get a
/// `_1` suffix, `b`'s a `_2` suffix, and the index lists are concatenated.
pub open spec fn join_v(a: Option<TableView>, b: Option<TableView>) -> Option<TableView> {
    match (a, b) {
        (Option::None, Option::None) => Option::None,
        (Option::None, Option::Some(t)) => Option::Some(t),
        (Option::Some(t), Option::None) => Option::Some(t),
        (Option::Some(t1), Option::Some(t2)) => Option::Some(
            TableView {
                index: t1.index + t2.index,
                cols: suffixed(t1.cols, "_1"@) + suffixed(t2.cols, "_2"@),
            },
        ),
    }
}

/// The longest cell list among these columns.
pub open spec fn max_cells(cols: Seq<ColView>) -> nat
    decreases cols.len(),
{
    if cols.len() == 0 {
        0
    } else {
        let rest = max_cells(cols.drop_first());
        if cols[0].cells.len() >= rest {
            cols[0].cells.len()
        } else {
            rest
        }
    }
}

/// The logical row count of a result: the longest column, or 0 if absent.
pub open spec fn height_v(v: Option<TableView>) -> nat {
    match v {
        Option::Some(t) => max_cells(t.cols),
        Option::None => 0,
    }
}

/// The logical column count of a result, or 0 if absent.
pub open spec fn width_v(v: Option<TableView>) -> nat {
    match v {
        Option::Some(t) => t.cols.len(),
        Option::None => 0,
    }
}

/// Column names are unique within one table.
pub open spec fn wf_cols(cols: Seq<ColView>) -> bool {
    forall|i: int, j: int| 0 <= i < j < cols.len() ==> cols[i].name != cols[j].name
}

/// The well-formedness invariant of a result.
pub open spec fn wf_v(v: Option<TableView>) -> bool {
    match v {
        Option::Some(t) => wf_cols(t.cols),
        Option::None => true,
    }
}

// ---------------------------------------------------------------------
// Constructors and accessors.
// ---------------------------------------------------------------------

impl FetchResult {
    /// The absent result: no data, as opposed to an empty table.
    pub fn none() -> (r: FetchResult)
        ensures
            r@ == none_v(),
    {
        FetchResult { table: Option::None }
    }

    /// A one-cell table under the single column `"result"`.
    pub fn single(item: String) -> (r: FetchResult)
        ensures
            r@ == Option::Some(single_v(item@)),
    {
        let name: String = "result".to_owned();
        let index_name: String = "result".to_owned();
        let mut values: Vec<String> = Vec::new();
        values.push(item);
        let mut columns: Vec<Column> = Vec::new();
        columns.push(Column { name, values });
        let mut index_columns: Vec<String> = Vec::new();
        index_columns.push(index_name);
        let r = FetchResult { table: Option::Some(Table { index_columns, columns }) };
        proof {
            assert(r@ =~~= Option::Some(single_v(item@)));
        }
        r
    }

    /// A table with one cell per item, in order, under the single column
    /// `"result"`.
    pub fn multiple(items: Vec<String>) -> (r: FetchResult)
        ensures
            r@ == Option::Some(multiple_v(items.deep_view())),
    {
        let name: String = "result".to_owned();
        let index_name: String = "result".to_owned();
        let mut columns: Vec<Column> = Vec::new();
        columns.push(Column { name, values: items });
        let mut index_columns: Vec<String> = Vec::new();
        index_columns.push(index_name);
        let r = FetchResult { table: Option::Some(Table { index_columns, columns }) };
        proof {
            assert(r@ =~~= Option::Some(multiple_v(items.deep_view())));
        }
        r
    }

    /// A two-column table `"keys"`/`"values"` built from field/value
    /// pairs, with `"keys"` as the sole index column.
    pub fn key_value(items: Vec<(String, String)>) -> (r: FetchResult)
        ensures
            r@ == Option::Some(key_value_v(items.deep_view())),
    {
        let mut keys: Vec<String> = Vec::new();
        let mut values: Vec<String> = Vec::new();
        let n = items.len();
        for k in 0..n
            invariant
                n == items.len(),
                keys@.len() == k,
                values@.len() == k,
                forall|i: int|
                    0 <= i < k ==> keys@[i]@ == items@[i].0@ && values@[i]@ == items@[i].1@,
        {
            let pair = &items[k];
            keys.push(pair.0.clone());
            values.push(pair.1.clone());
        }
        let key_name: String = "keys".to_owned();
        let index_name: String = "keys".to_owned();
        let value_name: String = "values".to_owned();
        let mut columns: Vec<Column> = Vec::new();
        columns.push(Column { name: key_name, values: keys });
        columns.push(Column { name: value_name, values });
        let mut index_columns: Vec<String> = Vec::new();
        index_columns.push(index_name);
        let r = FetchResult { table: Option::Some(Table { index_columns, columns }) };
        proof {
            assert(r@ =~~= Option::Some(key_value_v(items.deep_view())));
        }
        r
    }

    /// The logical row count: the length of the longest column.
    pub fn get_table_height(&self) -> (h: usize)
        ensures
            h as nat == height_v(self@),
    {
        match &self.table {
            Option::None => 0,
            Option::Some(t) => {
                let mut best: usize = 0;
                let n = t.columns.len();
                for k in 0..n
                    invariant
                        n == t.columns.len(),
                        best as nat == max_cells(t.columns.deep_view().take(k as int)),
                {
                    let len = t.columns[k].values.len();
                    proof {
                        lemma_max_cells_take_succ(t.columns.deep_view(), k as int);
                    }
                    if len > best {
                        best = len;
                    }
                }
                proof {
                    assert(t.columns.deep_view().take(n as int) =~= t.columns.deep_view());
                }
                best
            },
        }
    }

    /// The logical column count.
    pub fn get_table_width(&self) -> (w: usize)
        ensures
            w as nat == width_v(self@),
    {
        match &self.table {
            Option::None => 0,
            Option::Some(t) => t.columns.len(),
        }
    }
}

// ---------------------------------------------------------------------
// The combinators.
// ---------------------------------------------------------------------

/// A copy of a string vector with the same contents.
pub(crate) fn clone_strings(src: &Vec<String>) -> (r: Vec<String>)
    ensures
        r@ == src@,
{
    let mut r: Vec<String> = Vec::new();
    let n = src.len();
    for i in 0..n
        invariant
            n == src@.len(),
            r@.len() == i,
            forall|j: int| 0 <= j < i ==> r@[j] == src@[j],
    {
        r.push(src[i].clone());
    }
    proof {
        assert(r@ =~= src@);
    }
    r
}

fn copy_column(c: &Column) -> (r: Column)
    ensures
        r@ == c@,
        r.name@ == c.name@,
{
    Column { name: c.name.clone(), values: clone_strings(&c.values) }
}

fn copy_table(t: &Table) -> (r: Table)
    ensures
        r@ == t@,
{
    let mut columns: Vec<Column> = Vec::new();
    let n = t.columns.len();
    for i in 0..n
        invariant
            n == t.columns@.len(),
            columns@.len() == i,
            forall|j: int| 0 <= j < i ==> columns@[j]@ == t.columns@[j]@,
    {
        columns.push(copy_column(&t.columns[i]));
    }
    let r = Table { index_columns: clone_strings(&t.index_columns), columns };
    proof {
        assert(r@ =~~= t@);
    }
    r
}

/// Appends every string of `src` to `dst`, in order.
fn append_values(dst: &mut Vec<String>, src: &Vec<String>)
    ensures
        final(dst)@ == old(dst)@ + src@,
{
    let n = src.len();
    for i in 0..n
        invariant
            n == src@.len(),
            dst@.len() == old(dst)@.len() + i,
            forall|j: int| 0 <= j < old(dst)@.len() ==> dst@[j] == old(dst)@[j],
            forall|j: int| 0 <= j < i ==> dst@[old(dst)@.len() + j] == src@[j],
    {
        dst.push(src[i].clone());
    }
    proof {
        assert(dst@ =~= old(dst)@ + src@);
    }
}

/// The first and every other occurrence of a name in a column list, as the
/// recursive search sees it.
proof fn lemma_find_col_characterization(cols: Seq<ColView>, name: Seq<char>)
    ensures
        find_col(cols, name) == -1 ==> (forall|i: int|
            0 <= i < cols.len() ==> cols[i].name != name),
        find_col(cols, name) != -1 ==> 0 <= find_col(cols, name) < cols.len(),
        find_col(cols, name) != -1 ==> cols[find_col(cols, name)].name == name,
        forall|i: int| 0 <= i < find_col(cols, name) ==> cols[i].name != name,
    decreases cols.len(),
{
    if cols.len() == 0 {
    } else if cols[0].name == name {
    } else {
        let rest = cols.drop_first();
        lemma_find_col_characterization(rest, name);
        assert forall|i: int| 1 <= i < cols.len() implies rest[i - 1] == cols[i] by {}
        let r = find_col(cols, name);
        let rr = find_col(rest, name);
        if rr == -1 {
            assert forall|i: int| 0 <= i < cols.len() implies cols[i].name != name by {
                if i >= 1 {
                    assert(rest[i - 1].name != name);
                }
            }
        } else {
            assert(r == rr + 1);
            assert(cols[r] == rest[rr]);
            assert forall|i: int| 0 <= i < r implies cols[i].name != name by {
                if i >= 1 {
                    assert(rest[i - 1].name != name);
                }
            }
        }
    }
}

/// A column search that agrees with the spec-level `find_col`.
fn find_column(cols: &Vec<Column>, name: &String) -> (r: Option<usize>)
    ensures
        match r {
            Option::Some(i) => 0 <= i < cols@.len() && find_col(cols.deep_view(), name@) == i as int,
            Option::None => find_col(cols.deep_view(), name@) == -1,
        },
{
    let n = cols.len();
    for i in 0..n
        invariant
            n == cols@.len(),
            forall|j: int| 0 <= j < i ==> cols.deep_view()[j].name != name@,
    {
        if cols[i].name.eq(name) {
            proof {
                lemma_find_col_characterization(cols.deep_view(), name@);
                assert(cols.deep_view()[i as int].name == name@);
                let r = find_col(cols.deep_view(), name@);
                if r == -1 {
                    assert(cols.deep_view()[i as int].name != name@);
                } else if r < i as int {
                    assert(cols.deep_view()[r].name != name@);
                } else if r > i as int {
                    assert(cols.deep_view()[i as int].name != name@);
                }
            }
            return Option::Some(i);
        }
    }
    proof {
        lemma_find_col_characterization(cols.deep_view(), name@);
    }
    Option::None
}

/// Folding a column list one column at a time agrees with folding it
/// whole: appending one more column to the right operand folds it into
/// the accumulated result.
proof fn lemma_merge_cols_push(a: Seq<ColView>, s: Seq<ColView>, c: ColView)
    ensures
        merge_cols(a, s.push(c)) == merge_into(merge_cols(a, s), c),
    decreases s.len(),
{
    if s.len() == 0 {
        assert(s.push(c)[0] == c);
        assert(merge_cols(a, s.push(c)) == merge_cols(merge_into(a, c), s.push(c).drop_first()));
        assert(s.push(c).drop_first() =~= Seq::<ColView>::empty());
        assert(merge_cols(merge_into(a, c), Seq::<ColView>::empty()) == merge_into(a, c));
    } else {
        assert(s.push(c)[0] == s[0]);
        assert(merge_cols(a, s.push(c)) == merge_cols(
            merge_into(a, s[0]),
            s.push(c).drop_first(),
        ));
        assert(s.push(c).drop_first() =~= s.drop_first().push(c));
        lemma_merge_cols_push(merge_into(a, s[0]), s.drop_first(), c);
        assert(merge_cols(a, s) == merge_cols(merge_into(a, s[0]), s.drop_first()));
    }
}

impl FetchResult {
    /// Set-theoretic union with append-on-conflict: an absent side yields
    /// the other side; otherwise every column of `result2` grows the
    /// column of the same name in `result1`, or is added as a new column.
    /// Used to fold successive pages or sibling elements into one table.
    pub fn merge(result1: &FetchResult, result2: &FetchResult) -> (r: FetchResult)
        ensures
            r@ == merge_v(result1@, result2@),
    {
        match (&result1.table, &result2.table) {
            (Option::None, Option::None) => FetchResult { table: Option::None },
            (Option::None, Option::Some(t)) => FetchResult { table: Option::Some(copy_table(t)) },
            (Option::Some(t), Option::None) => FetchResult { table: Option::Some(copy_table(t)) },
            (Option::Some(t1), Option::Some(t2)) => {
                let mut merged = copy_table(t1);
                let n = t2.columns.len();
                for k in 0..n
                    invariant
                        n == t2.columns@.len(),
                        merged.index_columns.deep_view() == t1@.index,
                        merged.columns.deep_view() == merge_cols(
                            t1@.cols,
                            t2.columns.deep_view().take(k as int),
                        ),
                {
                    proof {
                        assert(t2.columns.deep_view().take(k + 1) =~= t2.columns.deep_view().take(
                            k as int,
                        ).push(t2.columns.deep_view()[k as int]));
                        lemma_merge_cols_push(
                            t1@.cols,
                            t2.columns.deep_view().take(k as int),
                            t2.columns.deep_view()[k as int],
                        );
                    }
                    let c = &t2.columns[k];
                    match find_column(&merged.columns, &c.name) {
                        Option::Some(i) => {
                            let ghost before = merged.columns.deep_view();
                            let mut grown = merged.columns.remove(i);
                            append_values(&mut grown.values, &c.values);
                            merged.columns.insert(i, grown);
                            proof {
                                assert(grown.deep_view().cells =~= before[i as int].cells
                                    + c.deep_view().cells);
                                assert(merged.columns.deep_view() =~~= before.update(
                                    i as int,
                                    ColView {
                                        name: before[i as int].name,
                                        cells: before[i as int].cells + c.deep_view().cells,
                                    },
                                ));
                                assert(merged.columns.deep_view() =~~= merge_cols(
                                    t1@.cols,
                                    t2.columns.deep_view().take(k + 1),
                                ));
                            }
                        },
                        Option::None => {
                            merged.columns.push(copy_column(c));
                            proof {
                                assert(merged.columns.deep_view() =~~= merge_cols(
                                    t1@.cols,
                                    t2.columns.deep_view().take(k + 1),
                                ));
                            }
                        },
                    }
                }
                proof {
                    assert(t2.columns.deep_view().take(n as int) =~= t2.columns.deep_view());
                }
                let r = FetchResult { table: Option::Some(merged) };
                proof {
                    assert(r@ =~~= merge_v(result1@, result2@));
                }
                r
            },
        }
    }

    /// Positional pairing with disambiguation: an absent side yields the
    /// other side unchanged; otherwise `result1`'s columns are renamed
    /// with a `_1` suffix, `result2`'s with `_2`, both placed in one
    /// table, and the index lists concatenated. Used to keep the two
    /// sides of key/value pairs as parallel columns.
    pub fn join(result1: &FetchResult, result2: &FetchResult) -> (r: FetchResult)
        ensures
            r@ == join_v(result1@, result2@),
    {
        match (&result1.table, &result2.table) {
            (Option::None, Option::None) => FetchResult { table: Option::None },
            (Option::None, Option::Some(t)) => FetchResult { table: Option::Some(copy_table(t)) },
            (Option::Some(t), Option::None) => FetchResult { table: Option::Some(copy_table(t)) },
            (Option::Some(t1), Option::Some(t2)) => {
                let mut index_columns = clone_strings(&t1.index_columns);
                let mut more_index = clone_strings(&t2.index_columns);
                index_columns.append(&mut more_index);
                proof {
                    assert(index_columns@ == t1.index_columns@.add(t2.index_columns@));
                    assert(index_columns.deep_view() =~= t1@.index.add(t2@.index));
                    assert(t1@.index.add(t2@.index) == t1@.index + t2@.index);
                }
                let mut columns: Vec<Column> = Vec::new();
                let n1 = t1.columns.len();
                for k in 0..n1
                    invariant
                        n1 == t1.columns@.len(),
                        columns@.len() == k,
                        forall|j: int|
                            0 <= j < k ==> (#[trigger] columns@[j]).name@ == t1.columns@[j].name@
                                + "_1"@ && columns@[j].values@ == t1.columns@[j].values@,
                {
                    let c = &t1.columns[k];
                    columns.push(
                        Column { name: c.name.clone().concat("_1"), values: clone_strings(&c.values) },
                    );
                }
                let n2 = t2.columns.len();
                for k in 0..n2
                    invariant
                        n2 == t2.columns@.len(),
                        n1 == t1.columns@.len(),
                        columns@.len() == n1 + k,
                        forall|j: int|
                            0 <= j < n1 ==> (#[trigger] columns@[j]).name@ == t1.columns@[j].name@
                                + "_1"@ && columns@[j].values@ == t1.columns@[j].values@,
                        forall|j: int|
                            0 <= j < k ==> (#[trigger] columns@[n1 + j]).name@ == t2.columns@[j].name@
                                + "_2"@ && columns@[n1 + j].values@ == t2.columns@[j].values@,
                {
                    let c = &t2.columns[k];
                    columns.push(
                        Column { name: c.name.clone().concat("_2"), values: clone_strings(&c.values) },
                    );
                }
                let r = FetchResult { table: Option::Some(Table { index_columns, columns }) };
                proof {
                    let sfx1 = suffixed(t1@.cols, "_1"@);
                    let sfx2 = suffixed(t2@.cols, "_2"@);
                    assert(sfx1.add(sfx2) == sfx1 + sfx2);
                    assert forall|j: int| 0 <= j < n1 + n2 implies #[trigger] columns.deep_view()[j]
                        =~~= sfx1.add(sfx2)[j] by {
                        if j < n1 {
                            assert(sfx1.add(sfx2)[j] == sfx1[j]);
                            assert(columns@[j].values@ == t1.columns@[j].values@);
                            assert(columns.deep_view()[j].cells =~~= t1@.cols[j].cells);
                        } else {
                            assert(sfx1.add(sfx2)[j] == sfx2[j - n1]);
                            assert(columns@[n1 + (j - n1)].values@ == t2.columns@[j - n1].values@);
                            assert(columns@[n1 + (j - n1)].name@ == t2.columns@[j - n1].name@
                                + "_2"@);
                            assert(n1 + (j - n1) == j);
                            assert(columns.deep_view()[j].cells =~~= t2@.cols[j - n1].cells);
                        }
                    }
                    assert(r@ =~~= join_v(result1@, result2@));
                }
                r
            },
        }
    }
}

// ---------------------------------------------------------------------
// The laws of the algebra.
// ---------------------------------------------------------------------

/// The absent result is the identity of `merge`, on either side.
pub proof fn lemma_merge_identity(x: Option<TableView>)
    ensures
        merge_v(none_v(), x) == x,
        merge_v(x, none_v()) == x,
{
}

/// The absent result is the identity of `join`, on either side.
pub proof fn lemma_join_identity(x: Option<TableView>)
    ensures
        join_v(none_v(), x) == x,
        join_v(x, none_v()) == x,
{
}

/// Merging two tables that hold one column of the same name yields one
/// table with that single column, whose cells are the left cells followed
/// by the right cells; the left index-column list wins.
pub proof fn lemma_merge_single_columns(
    name: Seq<char>,
    ia: Seq<Seq<char>>,
    ib: Seq<Seq<char>>,
    xs: Seq<Seq<char>>,
    ys: Seq<Seq<char>>,
)
    ensures
        merge_v(
            Option::Some(TableView { index: ia, cols: seq![ColView { name, cells: xs }] }),
            Option::Some(TableView { index: ib, cols: seq![ColView { name, cells: ys }] }),
        ) == Option::Some(TableView { index: ia, cols: seq![ColView { name, cells: xs + ys }] }),
{
    let a = seq![ColView { name, cells: xs }];
    let b = seq![ColView { name, cells: ys }];
    assert(find_col(a, name) == 0);
    assert(b.drop_first() =~= Seq::<ColView>::empty());
    assert(merge_cols(a, b) == merge_cols(merge_into(a, b[0]), b.drop_first()));
    assert(merge_into(a, b[0]) =~= seq![ColView { name, cells: xs + ys }]);
}

/// Joining two tables that hold one column of the same name yields two
/// parallel columns under the `_1` and `_2` suffixes, holding the left
/// and the right cells respectively, and the concatenated index lists.
pub proof fn lemma_join_single_columns(
    name: Seq<char>,
    ia: Seq<Seq<char>>,
    ib: Seq<Seq<char>>,
    xs: Seq<Seq<char>>,
    ys: Seq<Seq<char>>,
)
    ensures
        join_v(
            Option::Some(TableView { index: ia, cols: seq![ColView { name, cells: xs }] }),
            Option::Some(TableView { index: ib, cols: seq![ColView { name, cells: ys }] }),
        ) == Option::Some(
            TableView {
                index: ia + ib,
                cols: seq![
                    ColView { name: name + "_1"@, cells: xs },
                    ColView { name: name + "_2"@, cells: ys },
                ],
            },
        ),
{
    let a = seq![ColView { name, cells: xs }];
    let b = seq![ColView { name, cells: ys }];
    assert(suffixed(a, "_1"@) =~= seq![ColView { name: name + "_1"@, cells: xs }]);
    assert(suffixed(b, "_2"@) =~= seq![ColView { name: name + "_2"@, cells: ys }]);
    assert(suffixed(a, "_1"@) + suffixed(b, "_2"@) =~= seq![
        ColView { name: name + "_1"@, cells: xs },
        ColView { name: name + "_2"@, cells: ys },
    ]);
}

/// Every constructor of the algebra yields a well-formed result: one
/// column is trivially unique, and the key/value table's two column
/// names differ.
pub proof fn lemma_constructors_wf(
    cell: Seq<char>,
    cells: Seq<Seq<char>>,
    pairs: Seq<(Seq<char>, Seq<char>)>,
)
    ensures
        wf_v(none_v()),
        wf_v(Option::Some(single_v(cell))),
        wf_v(Option::Some(multiple_v(cells))),
        wf_v(Option::Some(key_value_v(pairs))),
{
    reveal_strlit("keys");
    reveal_strlit("values");
    assert("keys"@.len() != "values"@.len());
}

/// Folding one column into a list with unique names keeps the names
/// unique: a present name only grows, an absent one is appended once.
proof fn lemma_merge_into_wf(cols: Seq<ColView>, c: ColView)
    requires
        wf_cols(cols),
    ensures
        wf_cols(merge_into(cols, c)),
{
    lemma_find_col_characterization(cols, c.name);
    let r = merge_into(cols, c);
    if find_col(cols, c.name) == -1 {
        assert forall|i: int, j: int| 0 <= i < j < r.len() implies r[i].name != r[j].name by {
            if j == cols.len() {
                assert(r[i].name == cols[i].name);
            }
        }
    }
}

/// Merging keeps column names unique when the left operand's are unique.
pub proof fn lemma_merge_cols_wf(a: Seq<ColView>, b: Seq<ColView>)
    requires
        wf_cols(a),
    ensures
        wf_cols(merge_cols(a, b)),
    decreases b.len(),
{
    if b.len() > 0 {
        lemma_merge_into_wf(a, b[0]);
        lemma_merge_cols_wf(merge_into(a, b[0]), b.drop_first());
    }
}

/// Merging two well-formed results yields a well-formed result.
pub proof fn lemma_merge_preserves_wf(a: Option<TableView>, b: Option<TableView>)
    requires
        wf_v(a),
        wf_v(b),
    ensures
        wf_v(merge_v(a, b)),
{
    match (a, b) {
        (Option::Some(t1), Option::Some(t2)) => {
            lemma_merge_cols_wf(t1.cols, t2.cols);
        },
        _ => {},
    }
}

/// Appending the same suffix to two different names keeps them different.
proof fn lemma_suffix_injective(x: Seq<char>, y: Seq<char>, s: Seq<char>)
    requires
        x + s == y + s,
    ensures
        x == y,
{
    assert(x.add(s).len() == x.len() + s.len());
    assert(y.add(s).len() == y.len() + s.len());
    assert(x.add(s) == x + s);
    assert(y.add(s) == y + s);
    assert(x.len() == y.len());
    assert forall|i: int| 0 <= i < x.len() implies x[i] == y[i] by {
        assert(x.add(s)[i] == x[i]);
        assert(y.add(s)[i] == y[i]);
    }
    assert(x =~= y);
}

/// Joining two well-formed results yields a well-formed result: the two
/// suffixes keep the sides apart, and each side stays unique because
/// suffixing is injective.
pub proof fn lemma_join_preserves_wf(a: Option<TableView>, b: Option<TableView>)
    requires
        wf_v(a),
        wf_v(b),
    ensures
        wf_v(join_v(a, b)),
{
    match (a, b) {
        (Option::Some(t1), Option::Some(t2)) => {
            reveal_strlit("_1");
            reveal_strlit("_2");
            let cols = suffixed(t1.cols, "_1"@) + suffixed(t2.cols, "_2"@);
            let n1 = t1.cols.len() as int;
            assert forall|i: int, j: int| 0 <= i < j < cols.len() implies cols[i].name
                != cols[j].name by {
                if i < n1 && j < n1 {
                    if cols[i].name == cols[j].name {
                        lemma_suffix_injective(t1.cols[i].name, t1.cols[j].name, "_1"@);
                    }
                } else if i >= n1 && j >= n1 {
                    if cols[i].name == cols[j].name {
                        lemma_suffix_injective(t2.cols[i - n1].name, t2.cols[j - n1].name, "_2"@);
                    }
                } else {
                    let ln = cols[i].name.len();
                    assert(cols[i].name[ln - 1] == '1');
                    assert(cols[j].name[cols[j].name.len() - 1] == '2');
                }
            }
        },
        _ => {},
    }
}

// ---------------------------------------------------------------------
// The backend contract.
// ---------------------------------------------------------------------

/// The capability set every backend offers: execute one request, and
/// enumerate the top-level addressable objects. Callers depend only on
/// this contract, never on a concrete backend type; each implementation
/// states what it promises through the two relations.
pub trait Fetcher: Sized {
    /// What `fetch` promises: relates the backend state before and after
    /// the call, the request, and the outcome. A backend that the
    /// library cannot see promises nothing.
    open spec fn fetch_post(
        pre: Self,
        post: Self,
        request: FetchRequest,
        r: Result<FetchResult, FetcherError>,
    ) -> bool {
        true
    }

    /// What `fetch_db_objects` promises.
    open spec fn objects_post(pre: Self, post: Self, r: Result<FetchResult, FetcherError>) -> bool {
        true
    }

    /// Executes one request against the backend. The query must not be
    /// empty: an empty query is a contract violation of the caller, not a
    /// backend decision.
    fn fetch(&mut self, request: &FetchRequest) -> (r: Result<FetchResult, FetcherError>)
        requires
            request.query@.len() > 0,
        ensures
            Self::fetch_post(*old(self), *final(self), *request, r),
    ;

    /// Enumerates the top-level addressable objects of the backend.
    fn fetch_db_objects(&mut self) -> (r: Result<FetchResult, FetcherError>)
        ensures
            Self::objects_post(*old(self), *final(self), r),
    ;
}

/// Extending a column prefix by one column takes the maximum cell count
/// of the prefix and that column's cell count.
proof fn lemma_max_cells_take_succ(cols: Seq<ColView>, k: int)
    requires
        0 <= k < cols.len(),
    ensures
        max_cells(cols.take(k + 1)) == if cols[k].cells.len() >= max_cells(cols.take(k)) {
            cols[k].cells.len()
        } else {
            max_cells(cols.take(k))
        },
    decreases k,
{
    if k == 0 {
        assert(cols.take(1).drop_first() =~= Seq::<ColView>::empty());
        assert(cols.take(0) =~= Seq::<ColView>::empty());
    } else {
        assert(cols.take(k + 1).drop_first() =~= cols.drop_first().take(k));
        assert(cols.take(k).drop_first() =~= cols.drop_first().take(k - 1));
        lemma_max_cells_take_succ(cols.drop_first(), k - 1);
        assert(max_cells(cols.take(k + 1)) == if cols.take(k + 1)[0].cells.len() >= max_cells(
            cols.take(k + 1).drop_first(),
        ) {
            cols.take(k + 1)[0].cells.len()
        } else {
            max_cells(cols.take(k + 1).drop_first())
        });
    }
}

} // verus!
