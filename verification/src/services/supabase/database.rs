//! Generic CRUD over Supabase's PostgREST interface: the request URLs and
//! what each reply means.

use vstd::prelude::*;

use crate::models::error::{AppError, AppErrorKind};
use crate::string_map::{pairs_of, StringMap};
use crate::text::{concat2, concat3, concat4, owned};
use crate::upstream::{body_or_empty, body_text_or_empty, UpstreamReply};

verus! {

/// The `&key=eq.value` conditions of a list filter, in order.
pub open spec fn filter_query(p: Seq<(Seq<char>, Seq<char>)>) -> Seq<char>
    decreases p.len(),
{
    if p.len() == 0 {
        Seq::<char>::empty()
    } else {
        filter_query(p.drop_last()) + "&"@ + p.last().0 + "=eq."@ + p.last().1
    }
}

/// Generic CRUD client for Supabase PostgreSQL tables.
pub struct SupabaseDatabaseService;

impl SupabaseDatabaseService {
    /// The headers of every database request: the service key as the API
    /// key and as the bearer credential.
    pub fn auth_headers(service_key: &str) -> (r: Vec<(String, String)>)
        ensures
            pairs_of(r@) == seq![
                ("apikey"@, service_key@),
                ("Authorization"@, "Bearer "@ + service_key@),
            ],
    {
        let mut headers: Vec<(String, String)> = Vec::new();
        headers.push((owned("apikey"), owned(service_key)));
        headers.push((owned("Authorization"), concat2("Bearer ", service_key)));
        assert(pairs_of(headers@) =~= seq![
            ("apikey"@, service_key@),
            ("Authorization"@, "Bearer "@ + service_key@),
        ]);
        headers
    }

    /// The REST base of a Supabase project.
    pub fn base_url(supabase_url: &str) -> (r: String)
        ensures
            r@ == supabase_url@ + "/rest/v1"@,
    {
        concat2(supabase_url, "/rest/v1")
    }

    /// The URL listing all rows of `table`, with one equality condition per filter entry.
    pub fn list_url(base: &str, table: &str, filters: Option<&StringMap>) -> (r: String)
        ensures
            r@ == base@ + "/"@ + table@ + "?select=*"@ + match filters {
                Some(f) => filter_query(f.pairs()),
                None => Seq::<char>::empty(),
            },
    {
        let mut url = concat4(base, "/", table, "?select=*");
        match filters {
            Some(f) => {
                let ghost head = url@;
                let n = f.entries.len();
                assert(f.pairs().subrange(0, 0) =~= Seq::<(Seq<char>, Seq<char>)>::empty());
                for i in 0..n
                    invariant
                        n == f.pairs().len(),
                        url@ == head + filter_query(f.pairs().subrange(0, i as int)),
                {
                    assert(f.pairs().subrange(0, i + 1).drop_last() =~= f.pairs().subrange(0, i as int));
                    let part = concat4("&", f.entries[i].0.as_str(), "=eq.", f.entries[i].1.as_str());
                    url.append(part.as_str());
                    assert(url@ =~= head + filter_query(f.pairs().subrange(0, i + 1)));
                }
                assert(f.pairs().subrange(0, n as int) =~= f.pairs());
            },
            None => {},
        }
        url
    }

    /// The URL of the row of `table` with primary key `id`.
    pub fn get_url(base: &str, table: &str, id: &str) -> (r: String)
        ensures
            r@ == base@ + "/"@ + table@ + "?id=eq."@ + id@ + "&select=*"@,
    {
        let head = concat4(base, "/", table, "?id=eq.");
        concat3(head.as_str(), id, "&select=*")
    }

    /// The URL rows of `table` are inserted at.
    pub fn create_url(base: &str, table: &str) -> (r: String)
        ensures
            r@ == base@ + "/"@ + table@,
    {
        concat3(base, "/", table)
    }

    /// The URL that updates or deletes the row of `table` with primary key `id`.
    pub fn row_url(base: &str, table: &str, id: &str) -> (r: String)
        ensures
            r@ == base@ + "/"@ + table@ + "?id=eq."@ + id@,
    {
        let head = concat4(base, "/", table, "?id=eq.");
        concat2(head.as_str(), id)
    }

    /// The answer to a list query: the rows, or an upstream error.
    pub fn list_outcome<T>(reply: UpstreamReply<Vec<T>>) -> (r: Result<Vec<T>, AppError>)
        ensures
            match reply {
                UpstreamReply::SendFailed(e) => r matches Err(err) && err.is(
                    AppErrorKind::ExternalService,
                    "DB query failed: "@ + e@,
                ),
                UpstreamReply::Rejected(_, body) => r matches Err(err) && err.is(
                    AppErrorKind::ExternalService,
                    "DB query failed: "@ + body_or_empty(body),
                ),
                UpstreamReply::Unparsable(e) => r matches Err(err) && err.is(
                    AppErrorKind::ExternalService,
                    "Parse error: "@ + e@,
                ),
                UpstreamReply::Parsed(rows) => r == Ok::<Vec<T>, AppError>(rows),
            },
    {
        match reply {
            UpstreamReply::SendFailed(e) => Err(
                AppError::ExternalService(concat2("DB query failed: ", e.as_str())),
            ),
            UpstreamReply::Rejected(_, body) => {
                let b = body_text_or_empty(&body);
                Err(AppError::ExternalService(concat2("DB query failed: ", b.as_str())))
            },
            UpstreamReply::Unparsable(e) => Err(
                AppError::ExternalService(concat2("Parse error: ", e.as_str())),
            ),
            UpstreamReply::Parsed(rows) => Ok(rows),
        }
    }

    /// The answer to a lookup by key: `None` when PostgREST answers 406 (no
    /// single row), the row, or an upstream error.
    pub fn get_outcome<T>(reply: UpstreamReply<T>) -> (r: Result<Option<T>, AppError>)
        ensures
            match reply {
                UpstreamReply::SendFailed(e) => r matches Err(err) && err.is(
                    AppErrorKind::ExternalService,
                    "DB query failed: "@ + e@,
                ),
                UpstreamReply::Rejected(status, body) => if status == 406 {
                    r == Ok::<Option<T>, AppError>(None)
                } else {
                    r matches Err(err) && err.is(
                        AppErrorKind::ExternalService,
                        "DB query failed: "@ + body_or_empty(body),
                    )
                },
                UpstreamReply::Unparsable(e) => r matches Err(err) && err.is(
                    AppErrorKind::ExternalService,
                    "Parse error: "@ + e@,
                ),
                UpstreamReply::Parsed(row) => r == Ok::<Option<T>, AppError>(Some(row)),
            },
    {
        match reply {
            UpstreamReply::SendFailed(e) => Err(
                AppError::ExternalService(concat2("DB query failed: ", e.as_str())),
            ),
            UpstreamReply::Rejected(status, body) => {
                if status == 406 {
                    return Ok(None);
                }
                let b = body_text_or_empty(&body);
                Err(AppError::ExternalService(concat2("DB query failed: ", b.as_str())))
            },
            UpstreamReply::Unparsable(e) => Err(
                AppError::ExternalService(concat2("Parse error: ", e.as_str())),
            ),
            UpstreamReply::Parsed(row) => Ok(Some(row)),
        }
    }

    /// The answer to an insert: the last returned row, or an upstream error
    /// (also when no row came back).
    pub fn create_outcome<T>(reply: UpstreamReply<Vec<T>>) -> (r: Result<T, AppError>)
        ensures
            match reply {
                UpstreamReply::SendFailed(e) => r matches Err(err) && err.is(
                    AppErrorKind::ExternalService,
                    "DB insert failed: "@ + e@,
                ),
                UpstreamReply::Rejected(_, body) => r matches Err(err) && err.is(
                    AppErrorKind::ExternalService,
                    "DB insert failed: "@ + body_or_empty(body),
                ),
                UpstreamReply::Unparsable(e) => r matches Err(err) && err.is(
                    AppErrorKind::ExternalService,
                    "Parse error: "@ + e@,
                ),
                UpstreamReply::Parsed(rows) => if rows@.len() == 0 {
                    r matches Err(err) && err.is(
                        AppErrorKind::ExternalService,
                        "Insert returned no data"@,
                    )
                } else {
                    r == Ok::<T, AppError>(rows@.last())
                },
            },
    {
        match reply {
            UpstreamReply::SendFailed(e) => Err(
                AppError::ExternalService(concat2("DB insert failed: ", e.as_str())),
            ),
            UpstreamReply::Rejected(_, body) => {
                let b = body_text_or_empty(&body);
                Err(AppError::ExternalService(concat2("DB insert failed: ", b.as_str())))
            },
            UpstreamReply::Unparsable(e) => Err(
                AppError::ExternalService(concat2("Parse error: ", e.as_str())),
            ),
            UpstreamReply::Parsed(rows) => {
                let mut rows = rows;
                match rows.pop() {
                    Some(row) => Ok(row),
                    None => Err(AppError::ExternalService(owned("Insert returned no data"))),
                }
            },
        }
    }

    /// The answer to an update of row `id`: the last returned row, or
    /// `NotFound` when none came back, or an upstream error.
    pub fn update_outcome<T>(reply: UpstreamReply<Vec<T>>, id: &str) -> (r: Result<T, AppError>)
        ensures
            match reply {
                UpstreamReply::SendFailed(e) => r matches Err(err) && err.is(
                    AppErrorKind::ExternalService,
                    "DB update failed: "@ + e@,
                ),
                UpstreamReply::Rejected(_, body) => r matches Err(err) && err.is(
                    AppErrorKind::ExternalService,
                    "DB update failed: "@ + body_or_empty(body),
                ),
                UpstreamReply::Unparsable(e) => r matches Err(err) && err.is(
                    AppErrorKind::ExternalService,
                    "Parse error: "@ + e@,
                ),
                UpstreamReply::Parsed(rows) => if rows@.len() == 0 {
                    r matches Err(err) && err.is(
                        AppErrorKind::NotFound,
                        "Record "@ + id@ + " not found"@,
                    )
                } else {
                    r == Ok::<T, AppError>(rows@.last())
                },
            },
    {
        match reply {
            UpstreamReply::SendFailed(e) => Err(
                AppError::ExternalService(concat2("DB update failed: ", e.as_str())),
            ),
            UpstreamReply::Rejected(_, body) => {
                let b = body_text_or_empty(&body);
                Err(AppError::ExternalService(concat2("DB update failed: ", b.as_str())))
            },
            UpstreamReply::Unparsable(e) => Err(
                AppError::ExternalService(concat2("Parse error: ", e.as_str())),
            ),
            UpstreamReply::Parsed(rows) => {
                let mut rows = rows;
                match rows.pop() {
                    Some(row) => Ok(row),
                    None => Err(AppError::NotFound(concat3("Record ", id, " not found"))),
                }
            },
        }
    }

    /// The answer to a deletion: `true`, or an upstream error.
    pub fn delete_outcome(reply: UpstreamReply<()>) -> (r: Result<bool, AppError>)
        ensures
            match reply {
                UpstreamReply::SendFailed(e) => r matches Err(err) && err.is(
                    AppErrorKind::ExternalService,
                    "DB delete failed: "@ + e@,
                ),
                UpstreamReply::Rejected(_, body) => r matches Err(err) && err.is(
                    AppErrorKind::ExternalService,
                    "DB delete failed: "@ + body_or_empty(body),
                ),
                _ => r == Ok::<bool, AppError>(true),
            },
    {
        match reply {
            UpstreamReply::SendFailed(e) => Err(
                AppError::ExternalService(concat2("DB delete failed: ", e.as_str())),
            ),
            UpstreamReply::Rejected(_, body) => {
                let b = body_text_or_empty(&body);
                Err(AppError::ExternalService(concat2("DB delete failed: ", b.as_str())))
            },
            _ => Ok(true),
        }
    }
}

} // verus!
