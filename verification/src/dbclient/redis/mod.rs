//! The key-value backend: error model, wire-value model, container-type
//! dispatch and the cursor-driven keyspace scan, all as pure decision
//! logic. The surrounding process performs the network round trips and
//! hands every reply back as a [`value::DbValue`].

pub mod value;

use vstd::prelude::*;

use crate::dbclient::fetcher::key_value_v;
use crate::dbclient::fetcher::merge_v;
use crate::dbclient::fetcher::multiple_v;
use crate::dbclient::fetcher::none_v;
use crate::dbclient::fetcher::FetchRequest;
use crate::dbclient::fetcher::FetchResult;
use crate::dbclient::fetcher::FetcherError;
use crate::dbclient::fetcher::TableView;
use crate::dbclient::query_builder::QueryElement;
use crate::dbclient::redis::value::normalize;
use crate::dbclient::redis::value::normalized;
use crate::dbclient::redis::value::text_of;
use crate::dbclient::redis::value::text_pairs;
use crate::dbclient::redis::value::text_list;
use crate::dbclient::redis::value::text_value;
use crate::dbclient::redis::value::texts_of;
use crate::dbclient::redis::value::texts_of_pairs;
use crate::dbclient::redis::value::DbValue;
use crate::dbclient::redis::value::NormOutcome;
use crate::text::dec_nat;
use crate::text::dec_val;
use crate::text::is_dec_string;
use crate::text::parse_u64;
use crate::text::split_sp;
use crate::text::split_spaces;
use crate::text::u64_to_string;

verus! {

/// A failure reported by, or about, the key-value backend.
#[derive(Debug, PartialEq, Eq, Clone)]
pub enum RedisError {
    /// The backend answered with an error reply carrying this message.
    Server(String),
    /// A reply did not have the shape or text the client can take.
    BadReply,
    /// The connection could not be opened or used; the message names the
    /// cause. Only the live driver constructs this.
    Connection(String),
}

/// How to reach the backend: its connection URI.
pub struct RedisConfig {
    pub uri: String,
}

/// The key-value backend client. Its decision logic is a session: it
/// emits the command to run, and is handed the raw reply back, until a
/// result is done. The live driver owns the connection and the round
/// trips.
pub struct RedisFetcher {
    pub config: RedisConfig,
}

/// The closed set of container types the backend reports for a name.
/// `Missing` stands for the backend's answer for an absent name.
#[derive(Debug, PartialEq, Eq, Structural, Clone, Copy)]
pub enum RedisType {
    Str,
    List,
    SetKind,
    Zset,
    Hash,
    Stream,
    Missing,
}

/// The container type named by the backend's type-introspection answer,
/// or nothing for an unrecognized name.
pub open spec fn redis_type_of(s: Seq<char>) -> Option<RedisType> {
    if s == "string"@ {
        Option::Some(RedisType::Str)
    } else if s == "list"@ {
        Option::Some(RedisType::List)
    } else if s == "set"@ {
        Option::Some(RedisType::SetKind)
    } else if s == "zset"@ {
        Option::Some(RedisType::Zset)
    } else if s == "hash"@ {
        Option::Some(RedisType::Hash)
    } else if s == "stream"@ {
        Option::Some(RedisType::Stream)
    } else if s == "none"@ {
        Option::Some(RedisType::Missing)
    } else {
        Option::None
    }
}

/// Parses the backend's container-type name into the closed set.
pub fn parse_redis_type(s: &String) -> (r: Option<RedisType>)
    ensures
        r == redis_type_of(s@),
{
    if s.eq(&"string".to_owned()) {
        Option::Some(RedisType::Str)
    } else if s.eq(&"list".to_owned()) {
        Option::Some(RedisType::List)
    } else if s.eq(&"set".to_owned()) {
        Option::Some(RedisType::SetKind)
    } else if s.eq(&"zset".to_owned()) {
        Option::Some(RedisType::Zset)
    } else if s.eq(&"hash".to_owned()) {
        Option::Some(RedisType::Hash)
    } else if s.eq(&"stream".to_owned()) {
        Option::Some(RedisType::Stream)
    } else if s.eq(&"none".to_owned()) {
        Option::Some(RedisType::Missing)
    } else {
        Option::None
    }
}

/// The container type read out of a normalized type-introspection reply:
/// the first cell of the last column, parsed; anything else is an
/// invalid query.
pub open spec fn index_type_of(v: Option<TableView>) -> Result<RedisType, FetcherError> {
    match v {
        Option::None => Err(FetcherError::InvalidQuery),
        Option::Some(t) => if t.cols.len() == 0 {
            Err(FetcherError::InvalidQuery)
        } else if t.cols[t.cols.len() - 1].cells.len() == 0 {
            Err(FetcherError::InvalidQuery)
        } else {
            match redis_type_of(t.cols[t.cols.len() - 1].cells[0]) {
                Option::Some(rt) => Ok(rt),
                Option::None => Err(FetcherError::InvalidQuery),
            }
        },
    }
}

/// Reads the container type out of a normalized type-introspection
/// reply: the first value of the last column, parsed into the closed
/// set; a shapeless reply or an unrecognized name is an invalid query.
pub fn get_index_type(type_res: &FetchResult) -> (r: Result<RedisType, FetcherError>)
    ensures
        r == index_type_of(type_res@),
{
    match &type_res.table {
        Option::None => Err(FetcherError::InvalidQuery),
        Option::Some(t) => {
            let ncols = t.columns.len();
            if ncols == 0 {
                return Err(FetcherError::InvalidQuery);
            }
            let col = &t.columns[ncols - 1];
            if col.values.len() == 0 {
                return Err(FetcherError::InvalidQuery);
            }
            match parse_redis_type(&col.values[0]) {
                Option::Some(rt) => Ok(rt),
                Option::None => Err(FetcherError::InvalidQuery),
            }
        },
    }
}

/// The whole-container read for each container type, or nothing for the
/// types this backend leaves out of scope (streams, absent names).
pub open spec fn dispatch_args(rt: RedisType, name: Seq<char>) -> Option<Seq<Seq<char>>> {
    match rt {
        RedisType::Str => Option::Some(seq!["GET"@, name]),
        RedisType::List => Option::Some(seq!["LRANGE"@, name, "0"@, "-1"@]),
        RedisType::SetKind => Option::Some(seq!["SMEMBERS"@, name]),
        RedisType::Zset => Option::Some(seq!["ZRANGE"@, name, "0"@, "-1"@]),
        RedisType::Hash => Option::Some(seq!["HGETALL"@, name]),
        RedisType::Stream => Option::None,
        RedisType::Missing => Option::None,
    }
}

/// Builds the type-appropriate whole-container read command.
fn build_items_query(rt: RedisType, name: &String) -> (r: Option<Vec<String>>)
    ensures
        match dispatch_args(rt, name@) {
            Option::Some(args) => r matches Some(v) && v.deep_view() == args,
            Option::None => r is None,
        },
{
    match rt {
        RedisType::Str => {
            let mut args: Vec<String> = Vec::new();
            args.push("GET".to_owned());
            args.push(name.clone());
            proof {
                assert(args.deep_view() =~= seq!["GET"@, name@]);
            }
            Option::Some(args)
        },
        RedisType::List => {
            let mut args: Vec<String> = Vec::new();
            args.push("LRANGE".to_owned());
            args.push(name.clone());
            args.push("0".to_owned());
            args.push("-1".to_owned());
            proof {
                assert(args.deep_view() =~= seq!["LRANGE"@, name@, "0"@, "-1"@]);
            }
            Option::Some(args)
        },
        RedisType::SetKind => {
            let mut args: Vec<String> = Vec::new();
            args.push("SMEMBERS".to_owned());
            args.push(name.clone());
            proof {
                assert(args.deep_view() =~= seq!["SMEMBERS"@, name@]);
            }
            Option::Some(args)
        },
        RedisType::Zset => {
            let mut args: Vec<String> = Vec::new();
            args.push("ZRANGE".to_owned());
            args.push(name.clone());
            args.push("0".to_owned());
            args.push("-1".to_owned());
            proof {
                assert(args.deep_view() =~= seq!["ZRANGE"@, name@, "0"@, "-1"@]);
            }
            Option::Some(args)
        },
        RedisType::Hash => {
            let mut args: Vec<String> = Vec::new();
            args.push("HGETALL".to_owned());
            args.push(name.clone());
            proof {
                assert(args.deep_view() =~= seq!["HGETALL"@, name@]);
            }
            Option::Some(args)
        },
        RedisType::Stream => Option::None,
        RedisType::Missing => Option::None,
    }
}

/// Where a fetch session stands: which reply the next event carries.
#[derive(Debug, PartialEq, Clone)]
pub enum FetchPhase {
    /// The reply of a verbatim command is next; it normalizes directly.
    RawReply,
    /// The type-introspection reply for this container name is next.
    TypeReply(String),
    /// The whole-container read reply for this container type is next.
    ItemsReply(RedisType),
}

/// One step of a fetch session: either a command to run, with the phase
/// to resume in once its reply is back, or the finished result.
#[derive(Debug, PartialEq)]
pub enum FetchStep {
    Query(Vec<String>, FetchPhase),
    Done(FetchResult),
}

/// What starting a fetch session yields for a request: the first command
/// to issue, or the rejection of a query this backend does not take.
pub open spec fn fetch_start_post(
    request: FetchRequest,
    r: Result<FetchStep, FetcherError>,
) -> bool {
    if request.query@.len() == 0 {
        r matches Err(e) && e == FetcherError::InvalidQuery
    } else {
        match request.query@[0] {
            QueryElement::RawQuery(text) => r matches Ok(st) && (st matches FetchStep::Query(
                args,
                ph,
            ) && args.deep_view() == split_sp(text@) && ph == FetchPhase::RawReply),
            QueryElement::ListAllItemsFrom(name) => r matches Ok(st) && (st
                matches FetchStep::Query(args, ph) && args.deep_view() == seq!["TYPE"@, name@]
                && (ph matches FetchPhase::TypeReply(n) && n@ == name@)),
            QueryElement::AddDatabaseObject(_, _, _) => r matches Err(e) && e
                == FetcherError::InvalidQuery,
        }
    }
}

/// How a finished or failed session step realizes a normalization
/// outcome: a done table for a good fold, and the error taxonomy for the
/// three failure shapes.
pub open spec fn done_matches(n: NormOutcome, r: Result<FetchStep, FetcherError>) -> bool {
    match n {
        NormOutcome::Good(tv) => r matches Ok(st) && (st matches FetchStep::Done(fr) && fr@ == tv),
        NormOutcome::ServerFault(m) => r matches Err(e) && (e matches FetcherError::RedisError(
            re,
        ) && (re matches RedisError::Server(s) && s@ == m)),
        NormOutcome::BadText => r matches Err(e) && e == FetcherError::RedisError(
            RedisError::BadReply,
        ),
        NormOutcome::Unsupported => r matches Err(e) && e == FetcherError::InvalidQuery,
    }
}

/// What resuming a session in the type-introspection phase yields: the
/// reply normalizes, its table names the container type, and the session
/// either issues the type-appropriate read or is done with no data for
/// the out-of-scope types; every failure propagates.
pub open spec fn type_reply_post(
    name: Seq<char>,
    reply: DbValue,
    r: Result<FetchStep, FetcherError>,
) -> bool {
    match normalized(reply) {
        NormOutcome::Good(tv) => match index_type_of(tv) {
            Ok(rt) => match dispatch_args(rt, name) {
                Option::Some(args) => r matches Ok(st) && (st matches FetchStep::Query(a, ph)
                    && a.deep_view() == args && ph == FetchPhase::ItemsReply(rt)),
                Option::None => r matches Ok(st) && (st matches FetchStep::Done(fr) && fr@
                    == none_v()),
            },
            Err(e) => r matches Err(e2) && e2 == e,
        },
        n => done_matches(n, r),
    }
}

/// What resuming a session that awaits a hash read yields: the mapping
/// reply's text pairs become the key/value table; an error reply
/// propagates; any other shape is a bad reply.
pub open spec fn hash_reply_post(reply: DbValue, r: Result<FetchStep, FetcherError>) -> bool {
    match reply {
        DbValue::Mapping(ps) => match texts_of_pairs(ps@) {
            Option::Some(pairs) => r matches Ok(st) && (st matches FetchStep::Done(fr) && fr@
                == Option::Some(key_value_v(pairs))),
            Option::None => r matches Err(e) && e == FetcherError::RedisError(
                RedisError::BadReply,
            ),
        },
        DbValue::ServerError(m) => r matches Err(e) && (e matches FetcherError::RedisError(re)
            && (re matches RedisError::Server(s) && s@ == m@)),
        _ => r matches Err(e) && e == FetcherError::RedisError(RedisError::BadReply),
    }
}

/// What one resume step of a fetch session yields, by phase.
pub open spec fn fetch_resume_post(
    phase: FetchPhase,
    reply: DbValue,
    r: Result<FetchStep, FetcherError>,
) -> bool {
    match phase {
        FetchPhase::RawReply => done_matches(normalized(reply), r),
        FetchPhase::TypeReply(name) => type_reply_post(name@, reply, r),
        FetchPhase::ItemsReply(rt) => if rt == RedisType::Hash {
            hash_reply_post(reply, r)
        } else {
            done_matches(normalized(reply), r)
        },
    }
}

impl RedisFetcher {
    /// Opens a fetch session for a request: branches on the first query
    /// element. Verbatim command text is split on spaces and issued as
    /// is; a whole-container listing starts with type introspection; an
    /// empty query and the unimplemented object-creation element are
    /// rejected as invalid.
    pub fn fetch_start(request: &FetchRequest) -> (r: Result<FetchStep, FetcherError>)
        ensures
            fetch_start_post(*request, r),
    {
        if request.query.len() == 0 {
            return Err(FetcherError::InvalidQuery);
        }
        match &request.query[0] {
            QueryElement::RawQuery(text) => Ok(
                FetchStep::Query(split_spaces(text.as_str()), FetchPhase::RawReply),
            ),
            QueryElement::ListAllItemsFrom(name) => {
                let mut args: Vec<String> = Vec::new();
                args.push("TYPE".to_owned());
                args.push(name.clone());
                proof {
                    assert(args.deep_view() =~= seq!["TYPE"@, name@]);
                }
                Ok(FetchStep::Query(args, FetchPhase::TypeReply(name.clone())))
            },
            QueryElement::AddDatabaseObject(_, _, _) => Err(FetcherError::InvalidQuery),
        }
    }

    /// Resumes a fetch session with the raw reply of the last issued
    /// command and decides the next step: normalize it, dispatch on the
    /// container type it names, or build the key/value table of a hash
    /// read.
    pub fn fetch_resume(phase: FetchPhase, reply: &DbValue) -> (r: Result<FetchStep, FetcherError>)
        ensures
            fetch_resume_post(phase, *reply, r),
    {
        match phase {
            FetchPhase::RawReply => match normalize(reply) {
                Ok(fr) => Ok(FetchStep::Done(fr)),
                Err(e) => Err(e),
            },
            FetchPhase::TypeReply(name) => match normalize(reply) {
                Ok(fr) => match get_index_type(&fr) {
                    Ok(rt) => match build_items_query(rt, &name) {
                        Option::Some(args) => Ok(
                            FetchStep::Query(args, FetchPhase::ItemsReply(rt)),
                        ),
                        Option::None => Ok(FetchStep::Done(FetchResult::none())),
                    },
                    Err(e) => Err(e),
                },
                Err(e) => Err(e),
            },
            FetchPhase::ItemsReply(rt) => {
                if rt == RedisType::Hash {
                    match reply {
                        DbValue::Mapping(ps) => match text_pairs(ps) {
                            Option::Some(pairs) => Ok(
                                FetchStep::Done(FetchResult::key_value(pairs)),
                            ),
                            Option::None => Err(
                                FetcherError::RedisError(RedisError::BadReply),
                            ),
                        },
                        DbValue::ServerError(m) => Err(
                            FetcherError::RedisError(RedisError::Server(m.clone())),
                        ),
                        _ => Err(FetcherError::RedisError(RedisError::BadReply)),
                    }
                } else {
                    match normalize(reply) {
                        Ok(fr) => Ok(FetchStep::Done(fr)),
                        Err(e) => Err(e),
                    }
                }
            },
        }
    }
}

// ---------------------------------------------------------------------
// The keyspace scan session.
// ---------------------------------------------------------------------

/// A running keyspace enumeration: the pages merged so far.
#[derive(Debug, PartialEq)]
pub struct ScanSession {
    pub acc: FetchResult,
}

/// One step of a scan session: the next page command to issue with the
/// session so far, or the finished merged result.
#[derive(Debug, PartialEq)]
pub enum ScanStep {
    Continue(ScanSession, Vec<String>),
    Finished(FetchResult),
}

/// The page command for a cursor: scan from there, matching every name.
pub open spec fn scan_args(cursor: Seq<char>) -> Seq<Seq<char>> {
    seq!["SCAN"@, cursor, "MATCH"@, "*"@]
}

/// The cursor a scan reply element names: a non-negative integer reply,
/// or a decimal text reply that fits the cursor width.
pub open spec fn cursor_of(v: DbValue) -> Option<nat> {
    match v {
        DbValue::Int(i) => if i >= 0 {
            Option::Some(i as nat)
        } else {
            Option::None
        },
        _ => match text_of(v) {
            Option::Some(t) => if is_dec_string(t) && dec_val(t) <= u64::MAX {
                Option::Some(dec_val(t))
            } else {
                Option::None
            },
            Option::None => Option::None,
        },
    }
}

/// The page a scan reply carries: a two-element array of the next cursor
/// and the array of the page's names, every name text-shaped.
pub open spec fn scan_page_of(v: DbValue) -> Option<(nat, Seq<Seq<char>>)> {
    match v {
        DbValue::Array(items) => if items@.len() == 2 {
            match items@[1] {
                DbValue::Array(ks) => match (cursor_of(items@[0]), texts_of(ks@)) {
                    (Option::Some(c), Option::Some(keys)) => Option::Some((c, keys)),
                    _ => Option::None,
                },
                _ => Option::None,
            }
        } else {
            Option::None
        },
        _ => Option::None,
    }
}

/// The running result after merging one page: an empty page normalizes
/// to no data and merges to nothing; a non-empty page merges one more
/// `"result"` column worth of rows.
pub open spec fn scan_merge(acc: Option<TableView>, keys: Seq<Seq<char>>) -> Option<TableView> {
    merge_v(
        acc,
        if keys.len() == 0 {
            none_v()
        } else {
            Option::Some(multiple_v(keys))
        },
    )
}

/// What one scan step yields: the page merges into the running result,
/// and the backend's cursor-zero signal ends the enumeration; an error
/// reply propagates, and a page of another shape is a bad reply.
pub open spec fn scan_step_post(
    sess: ScanSession,
    reply: DbValue,
    r: Result<ScanStep, FetcherError>,
) -> bool {
    match reply {
        DbValue::ServerError(m) => r matches Err(e) && (e matches FetcherError::RedisError(re)
            && (re matches RedisError::Server(s) && s@ == m@)),
        _ => match scan_page_of(reply) {
            Option::Some((c, keys)) => if c == 0 {
                r matches Ok(st) && (st matches ScanStep::Finished(fr) && fr@ == scan_merge(
                    sess.acc@,
                    keys,
                ))
            } else {
                r matches Ok(st) && (st matches ScanStep::Continue(s2, args) && s2.acc@
                    == scan_merge(sess.acc@, keys) && args.deep_view() == scan_args(dec_nat(c)))
            },
            Option::None => r matches Err(e) && e == FetcherError::RedisError(
                RedisError::BadReply,
            ),
        },
    }
}

impl RedisFetcher {
    /// Opens a keyspace enumeration: no data yet, and the first page
    /// command starts at cursor zero.
    pub fn scan_start() -> (r: (ScanSession, Vec<String>))
        ensures
            r.0.acc@ == none_v(),
            r.1.deep_view() == scan_args(dec_nat(0)),
    {
        let mut args: Vec<String> = Vec::new();
        args.push("SCAN".to_owned());
        args.push(u64_to_string(0));
        args.push("MATCH".to_owned());
        args.push("*".to_owned());
        proof {
            assert(args.deep_view() =~= scan_args(dec_nat(0)));
        }
        (ScanSession { acc: FetchResult::none() }, args)
    }

    /// Consumes one scan page reply: merges its names into the running
    /// result and either finishes on the backend's cursor-zero signal or
    /// hands back the next page command.
    pub fn scan_step(sess: ScanSession, reply: &DbValue) -> (r: Result<ScanStep, FetcherError>)
        ensures
            scan_step_post(sess, *reply, r),
    {
        match reply {
            DbValue::ServerError(m) => Err(
                FetcherError::RedisError(RedisError::Server(m.clone())),
            ),
            DbValue::Array(items) => {
                if items.len() != 2 {
                    return Err(FetcherError::RedisError(RedisError::BadReply));
                }
                let cursor = Self::cursor_value(&items[0]);
                match &items[1] {
                    DbValue::Array(ks) => match (cursor, text_list(ks)) {
                        (Option::Some(c), Option::Some(keys)) => {
                            let page = if keys.len() == 0 {
                                FetchResult::none()
                            } else {
                                FetchResult::multiple(keys)
                            };
                            let acc = FetchResult::merge(&sess.acc, &page);
                            if c == 0 {
                                Ok(ScanStep::Finished(acc))
                            } else {
                                let mut args: Vec<String> = Vec::new();
                                args.push("SCAN".to_owned());
                                args.push(u64_to_string(c));
                                args.push("MATCH".to_owned());
                                args.push("*".to_owned());
                                proof {
                                    assert(args.deep_view() =~= scan_args(dec_nat(c as nat)));
                                }
                                Ok(ScanStep::Continue(ScanSession { acc }, args))
                            }
                        },
                        _ => Err(FetcherError::RedisError(RedisError::BadReply)),
                    },
                    _ => Err(FetcherError::RedisError(RedisError::BadReply)),
                }
            },
            _ => Err(FetcherError::RedisError(RedisError::BadReply)),
        }
    }

    /// Reads the cursor a scan reply element names.
    fn cursor_value(v: &DbValue) -> (r: Option<u64>)
        ensures
            r is Some <==> cursor_of(*v) is Some,
            r matches Some(n) ==> cursor_of(*v) == Option::Some(n as nat),
    {
        match v {
            DbValue::Int(i) => if *i >= 0 {
                Option::Some(*i as u64)
            } else {
                Option::None
            },
            _ => match text_value(v) {
                Option::Some(s) => parse_u64(s.as_str()),
                Option::None => Option::None,
            },
        }
    }
}

} // verus!
