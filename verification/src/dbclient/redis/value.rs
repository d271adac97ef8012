//! The wire-value model and its normalization: a closed tagged union with
//! one case per reply shape the backend can send, and the recursive fold
//! that turns any reply into one canonical table.

use vstd::prelude::*;

use crate::dbclient::fetcher::join_v;
use crate::dbclient::fetcher::merge_v;
use crate::dbclient::fetcher::none_v;
use crate::dbclient::fetcher::single_v;
use crate::dbclient::fetcher::FetchResult;
use crate::dbclient::fetcher::FetcherError;
use crate::dbclient::fetcher::TableView;
use crate::dbclient::redis::RedisError;
use crate::text::bytes_to_string;
use crate::text::dec_int;
use crate::text::i64_to_string;

verus! {

/// One raw backend reply. Scalars that the backend renders itself
/// (doubles, big numbers) arrive as their text; binary-safe strings
/// arrive as raw bytes and are decoded here.
#[derive(Debug, PartialEq)]
pub enum DbValue {
    /// No value.
    Nil,
    /// A signed integer reply.
    Int(i64),
    /// A binary-safe string: raw bytes, not yet known to be text.
    BulkString(Vec<u8>),
    /// An ordered collection of replies.
    Array(Vec<DbValue>),
    /// A short unescaped text line.
    SimpleString(String),
    /// The bare acknowledgement reply.
    Okay,
    /// An ordered collection of key/value reply pairs.
    Mapping(Vec<(DbValue, DbValue)>),
    /// A typed attribute attached to a reply; carries no business meaning
    /// here and is rejected during normalization.
    Attribute,
    /// An unordered collection of replies.
    SetItems(Vec<DbValue>),
    /// A floating-point reply, already rendered as text at the boundary.
    Double(String),
    /// A boolean reply.
    Boolean(bool),
    /// A verbatim text reply; only the text is kept.
    VerbatimString(String),
    /// An arbitrarily large integer, already rendered as text.
    BigNumber(String),
    /// A server push message; carries no business meaning here and is
    /// rejected during normalization.
    Push,
    /// An error reply carrying this message.
    ServerError(String),
}

/// What normalizing one reply yields: a canonical table, an error reply
/// to propagate, undecodable text, or a shape with no business meaning.
pub enum NormOutcome {
    Good(Option<TableView>),
    ServerFault(Seq<char>),
    BadText,
    Unsupported,
}

/// The normalization of one reply: the recursive fold of the whole reply
/// grammar into the canonical table shape.
pub open spec fn normalized(v: DbValue) -> NormOutcome
    decreases v,
{
    match v {
        DbValue::Nil => NormOutcome::Good(none_v()),
        DbValue::Okay => NormOutcome::Good(none_v()),
        DbValue::Int(x) => NormOutcome::Good(Option::Some(single_v(dec_int(x as int)))),
        DbValue::BulkString(bytes) => if vstd::utf8::valid_utf8(bytes@) {
            NormOutcome::Good(Option::Some(single_v(vstd::utf8::decode_utf8(bytes@))))
        } else {
            NormOutcome::BadText
        },
        DbValue::SimpleString(s) => NormOutcome::Good(Option::Some(single_v(s@))),
        DbValue::VerbatimString(s) => NormOutcome::Good(Option::Some(single_v(s@))),
        DbValue::Double(s) => NormOutcome::Good(Option::Some(single_v(s@))),
        DbValue::BigNumber(s) => NormOutcome::Good(Option::Some(single_v(s@))),
        DbValue::Boolean(b) => NormOutcome::Good(
            Option::Some(single_v(if b { "true"@ } else { "false"@ })),
        ),
        DbValue::Array(vs) => normalized_fold(none_v(), vs@),
        DbValue::SetItems(vs) => normalized_fold(none_v(), vs@),
        DbValue::Mapping(ps) => normalized_pairs_fold(none_v(), ps@),
        DbValue::Attribute => NormOutcome::Unsupported,
        DbValue::Push => NormOutcome::Unsupported,
        DbValue::ServerError(m) => NormOutcome::ServerFault(m@),
    }
}

/// Folds a collection reply: each element normalizes on its own and is
/// merged into the running result, left to right; the first error wins.
pub open spec fn normalized_fold(acc: Option<TableView>, vs: Seq<DbValue>) -> NormOutcome
    decreases vs,
{
    if vs.len() == 0 {
        NormOutcome::Good(acc)
    } else {
        match normalized(vs[0]) {
            NormOutcome::Good(t) => normalized_fold(merge_v(acc, t), vs.drop_first()),
            e => e,
        }
    }
}

/// Folds a mapping reply: each pair's key and value normalize separately
/// and are joined, key first; the joined pairs are merged into the
/// running result so more pairs mean more rows under the same
/// disambiguated columns. The first error wins, key before value.
pub open spec fn normalized_pairs_fold(
    acc: Option<TableView>,
    ps: Seq<(DbValue, DbValue)>,
) -> NormOutcome
    decreases ps,
{
    if ps.len() == 0 {
        NormOutcome::Good(acc)
    } else {
        match normalized(ps[0].0) {
            NormOutcome::Good(tk) => match normalized(ps[0].1) {
                NormOutcome::Good(tv) => normalized_pairs_fold(
                    merge_v(acc, join_v(tk, tv)),
                    ps.drop_first(),
                ),
                e => e,
            },
            e => e,
        }
    }
}

/// How an executable outcome realizes a normalization outcome: the table
/// for a good fold, and the error taxonomy for the three failure shapes.
pub open spec fn norm_matches(n: NormOutcome, r: Result<FetchResult, FetcherError>) -> bool {
    match n {
        NormOutcome::Good(tv) => r matches Ok(fr) && fr@ == tv,
        NormOutcome::ServerFault(m) => r matches Err(e) && (e matches FetcherError::RedisError(
            re,
        ) && (re matches RedisError::Server(s) && s@ == m)),
        NormOutcome::BadText => r matches Err(e) && e == FetcherError::RedisError(
            RedisError::BadReply,
        ),
        NormOutcome::Unsupported => r matches Err(e) && e == FetcherError::InvalidQuery,
    }
}

/// Folds one raw reply into the canonical table, by reply shape: absent
/// replies yield no data, scalars yield one `"result"` cell, collections
/// merge their elements' tables, mappings join each pair and merge the
/// pairs, error replies propagate, and shapes with no business meaning
/// here are rejected as invalid rather than guessed at.
pub fn normalize(v: &DbValue) -> (r: Result<FetchResult, FetcherError>)
    ensures
        norm_matches(normalized(*v), r),
    decreases *v,
{
    match v {
        DbValue::Nil => Ok(FetchResult::none()),
        DbValue::Okay => Ok(FetchResult::none()),
        DbValue::Int(x) => Ok(FetchResult::single(i64_to_string(*x))),
        DbValue::BulkString(bytes) => match bytes_to_string(bytes) {
            Option::Some(s) => Ok(FetchResult::single(s)),
            Option::None => Err(FetcherError::RedisError(RedisError::BadReply)),
        },
        DbValue::SimpleString(s) => Ok(FetchResult::single(s.clone())),
        DbValue::VerbatimString(s) => Ok(FetchResult::single(s.clone())),
        DbValue::Double(s) => Ok(FetchResult::single(s.clone())),
        DbValue::BigNumber(s) => Ok(FetchResult::single(s.clone())),
        DbValue::Boolean(b) => if *b {
            Ok(FetchResult::single("true".to_owned()))
        } else {
            Ok(FetchResult::single("false".to_owned()))
        },
        DbValue::Array(vs) => normalize_items(vs),
        DbValue::SetItems(vs) => normalize_items(vs),
        DbValue::Mapping(ps) => normalize_pairs(ps),
        DbValue::Attribute => Err(FetcherError::InvalidQuery),
        DbValue::Push => Err(FetcherError::InvalidQuery),
        DbValue::ServerError(m) => Err(FetcherError::RedisError(RedisError::Server(m.clone()))),
    }
}

/// The text a scalar reply carries, if it is a text-shaped scalar: a
/// binary-safe string that decodes, a simple string, or a verbatim
/// string.
pub open spec fn text_of(v: DbValue) -> Option<Seq<char>> {
    match v {
        DbValue::BulkString(bytes) => if vstd::utf8::valid_utf8(bytes@) {
            Option::Some(vstd::utf8::decode_utf8(bytes@))
        } else {
            Option::None
        },
        DbValue::SimpleString(s) => Option::Some(s@),
        DbValue::VerbatimString(s) => Option::Some(s@),
        _ => Option::None,
    }
}

/// The texts of a list of replies, if every one is text-shaped.
pub open spec fn texts_of(vs: Seq<DbValue>) -> Option<Seq<Seq<char>>>
    decreases vs.len(),
{
    if vs.len() == 0 {
        Option::Some(Seq::<Seq<char>>::empty())
    } else {
        match text_of(vs[0]) {
            Option::Some(t) => match texts_of(vs.drop_first()) {
                Option::Some(rest) => Option::Some(seq![t] + rest),
                Option::None => Option::None,
            },
            Option::None => Option::None,
        }
    }
}

/// The text pairs of a mapping reply, if every key and value is
/// text-shaped.
pub open spec fn texts_of_pairs(
    ps: Seq<(DbValue, DbValue)>,
) -> Option<Seq<(Seq<char>, Seq<char>)>>
    decreases ps.len(),
{
    if ps.len() == 0 {
        Option::Some(Seq::<(Seq<char>, Seq<char>)>::empty())
    } else {
        match (text_of(ps[0].0), text_of(ps[0].1)) {
            (Option::Some(k), Option::Some(v)) => match texts_of_pairs(ps.drop_first()) {
                Option::Some(rest) => Option::Some(seq![(k, v)] + rest),
                Option::None => Option::None,
            },
            _ => Option::None,
        }
    }
}

/// Reads the text out of a text-shaped scalar reply.
pub fn text_value(v: &DbValue) -> (r: Option<String>)
    ensures
        r is Some <==> text_of(*v) is Some,
        r matches Some(s) ==> text_of(*v) == Option::Some(s@),
{
    match v {
        DbValue::BulkString(bytes) => bytes_to_string(bytes),
        DbValue::SimpleString(s) => Option::Some(s.clone()),
        DbValue::VerbatimString(s) => Option::Some(s.clone()),
        _ => Option::None,
    }
}

/// Reads the texts of a list of replies; nothing if any element is not
/// text-shaped.
pub fn text_list(vs: &Vec<DbValue>) -> (r: Option<Vec<String>>)
    ensures
        match texts_of(vs@) {
            Option::Some(ts) => r matches Some(out) && out.deep_view() == ts,
            Option::None => r is None,
        },
{
    let mut out: Vec<String> = Vec::new();
    let n = vs.len();
    proof {
        assert(vs@.skip(0) =~= vs@);
        assert(out.deep_view() =~= Seq::<Seq<char>>::empty());
    }
    for i in 0..n
        invariant
            n == vs@.len(),
            out.deep_view().len() == i,
            match texts_of(vs@.skip(i as int)) {
                Option::Some(rest) => texts_of(vs@) == Option::Some(
                    out.deep_view().add(rest),
                ),
                Option::None => texts_of(vs@) is None,
            },
    {
        proof {
            assert(vs@.skip(i as int)[0] == vs@[i as int]);
            assert(vs@.skip(i as int).drop_first() =~= vs@.skip(i as int + 1));
        }
        match text_value(&vs[i]) {
            Option::Some(s) => {
                let ghost old_out = out.deep_view();
                out.push(s);
                proof {
                    assert(out.deep_view() =~= old_out.push(s@));
                    if let Option::Some(rest) = texts_of(vs@.skip(i as int)) {
                        if let Option::Some(rest2) = texts_of(vs@.skip(i as int + 1)) {
                            assert(rest == seq![s@] + rest2);
                            assert(seq![s@] + rest2 == seq![s@].add(rest2));
                            assert(old_out.add(seq![s@].add(rest2)) =~= old_out.push(s@).add(
                                rest2,
                            ));
                        }
                    }
                }
            },
            Option::None => {
                return Option::None;
            },
        }
    }
    proof {
        assert(vs@.skip(n as int) =~= Seq::<DbValue>::empty());
        if let Option::Some(rest) = texts_of(vs@.skip(n as int)) {
            assert(out.deep_view().add(rest) =~= out.deep_view());
        }
    }
    Option::Some(out)
}

/// Reads the text pairs of a mapping reply; nothing if any side of any
/// pair is not text-shaped.
pub fn text_pairs(ps: &Vec<(DbValue, DbValue)>) -> (r: Option<Vec<(String, String)>>)
    ensures
        match texts_of_pairs(ps@) {
            Option::Some(ts) => r matches Some(out) && out.deep_view() == ts,
            Option::None => r is None,
        },
{
    let mut out: Vec<(String, String)> = Vec::new();
    let n = ps.len();
    proof {
        assert(ps@.skip(0) =~= ps@);
        assert(out.deep_view() =~= Seq::<(Seq<char>, Seq<char>)>::empty());
    }
    for i in 0..n
        invariant
            n == ps@.len(),
            out.deep_view().len() == i,
            match texts_of_pairs(ps@.skip(i as int)) {
                Option::Some(rest) => texts_of_pairs(ps@) == Option::Some(
                    out.deep_view().add(rest),
                ),
                Option::None => texts_of_pairs(ps@) is None,
            },
    {
        proof {
            assert(ps@.skip(i as int)[0] == ps@[i as int]);
            assert(ps@.skip(i as int).drop_first() =~= ps@.skip(i as int + 1));
        }
        let pair = &ps[i];
        let k = text_value(&pair.0);
        let v = text_value(&pair.1);
        match (k, v) {
            (Option::Some(ks), Option::Some(vs)) => {
                let ghost old_out = out.deep_view();
                out.push((ks, vs));
                proof {
                    assert(out.deep_view() =~= old_out.push(
                        (out@[i as int].0@, out@[i as int].1@),
                    ));
                    if let Option::Some(rest) = texts_of_pairs(ps@.skip(i as int)) {
                        if let Option::Some(rest2) = texts_of_pairs(ps@.skip(i as int + 1)) {
                            assert(seq![(out@[i as int].0@, out@[i as int].1@)] + rest2
                                == seq![(out@[i as int].0@, out@[i as int].1@)].add(rest2));
                            assert(old_out.add(
                                seq![(out@[i as int].0@, out@[i as int].1@)].add(rest2),
                            ) =~= old_out.push((out@[i as int].0@, out@[i as int].1@)).add(rest2));
                        }
                    }
                }
            },
            _ => {
                return Option::None;
            },
        }
    }
    proof {
        assert(ps@.skip(n as int) =~= Seq::<(DbValue, DbValue)>::empty());
        if let Option::Some(rest) = texts_of_pairs(ps@.skip(n as int)) {
            assert(out.deep_view().add(rest) =~= out.deep_view());
        }
    }
    Option::Some(out)
}

/// Merges the normalizations of the elements of a collection reply,
/// left to right, starting from no data.
fn normalize_items(vs: &Vec<DbValue>) -> (r: Result<FetchResult, FetcherError>)
    ensures
        norm_matches(normalized_fold(none_v(), vs@), r),
    decreases vs@,
{
    let mut acc = FetchResult::none();
    let n = vs.len();
    proof {
        assert(vs@.skip(0) =~= vs@);
    }
    for i in 0..n
        invariant
            n == vs@.len(),
            normalized_fold(none_v(), vs@) == normalized_fold(acc@, vs@.skip(i as int)),
    {
        proof {
            assert(vs@.skip(i as int)[0] == vs@[i as int]);
            assert(vs@.skip(i as int).drop_first() =~= vs@.skip(i as int + 1));
        }
        match normalize(&vs[i]) {
            Ok(t) => {
                acc = FetchResult::merge(&acc, &t);
            },
            Err(e) => {
                return Err(e);
            },
        }
    }
    proof {
        assert(vs@.skip(n as int) =~= Seq::<DbValue>::empty());
    }
    Ok(acc)
}

/// Joins each pair of a mapping reply, key first, and merges the pairs'
/// joined tables, left to right, starting from no data.
fn normalize_pairs(ps: &Vec<(DbValue, DbValue)>) -> (r: Result<FetchResult, FetcherError>)
    ensures
        norm_matches(normalized_pairs_fold(none_v(), ps@), r),
    decreases ps@,
{
    let mut acc = FetchResult::none();
    let n = ps.len();
    proof {
        assert(ps@.skip(0) =~= ps@);
    }
    for i in 0..n
        invariant
            n == ps@.len(),
            normalized_pairs_fold(none_v(), ps@) == normalized_pairs_fold(
                acc@,
                ps@.skip(i as int),
            ),
    {
        proof {
            assert(ps@.skip(i as int)[0] == ps@[i as int]);
            assert(ps@.skip(i as int).drop_first() =~= ps@.skip(i as int + 1));
        }
        let pair = &ps[i];
        match normalize(&pair.0) {
            Ok(tk) => match normalize(&pair.1) {
                Ok(tv) => {
                    let joined = FetchResult::join(&tk, &tv);
                    acc = FetchResult::merge(&acc, &joined);
                },
                Err(e) => {
                    return Err(e);
                },
            },
            Err(e) => {
                return Err(e);
            },
        }
    }
    proof {
        assert(ps@.skip(n as int) =~= Seq::<(DbValue, DbValue)>::empty());
    }
    Ok(acc)
}

} // verus!
