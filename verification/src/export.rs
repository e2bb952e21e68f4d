//! The result exporter: a paginated page of a job's stored documents,
//! rendered as a JSON envelope or as a flattened CSV table.
//!
//! Defaults follow the request's purpose: JSON serves paged views (limit
//! 50), CSV serves bulk downloads (limit 5000); the offset defaults to 0.
//! The page is the stored order's subrange `[offset, offset + limit)`,
//! clipped to the stored rows.

use vstd::prelude::*;

use crate::ApiError;
use crate::csv_out::csv_header;
use crate::csv_out::csv_rows;
use crate::csv_out::lemma_csv_rows_prefix_err;
use crate::csv_out::push_line;
use crate::doc::JsonValue;
use crate::flatten::ConversionError;
use crate::flatten::JobResultCsvResponse;
use crate::json_out::json_text;
use crate::json_out::json_text_items;
use crate::status::JobRecord;
use vstd::string::StringExecFns;

verus! {

/// The export format a caller may ask for.
#[derive(Debug, Clone, Copy, PartialEq, Eq, Structural)]
pub enum JobResultResponseFormat {
    Json,
    Csv,
}

/// What a result request carries besides the job id; every part is
/// optional.
#[derive(Debug, Clone, Copy, PartialEq, Eq, Structural)]
pub struct JobResultRequest {
    pub format: Option<JobResultResponseFormat>,
    pub limit: Option<u64>,
    pub offset: Option<u64>,
}

/// An assembled export: the body text and the content type that must
/// accompany it.
#[derive(Debug, Clone, PartialEq, Eq)]
pub struct ExportBody {
    pub content_type: String,
    pub body: String,
}

/// The smaller of two integers.
pub open spec fn min_int(a: int, b: int) -> int {
    if a < b {
        a
    } else {
        b
    }
}

/// The page a limit/offset pair selects from the stored rows.
pub open spec fn page_spec(s: Seq<JsonValue>, limit: int, offset: int) -> Seq<JsonValue> {
    s.subrange(min_int(offset, s.len() as int), min_int(offset + limit, s.len() as int))
}

/// The format the request resolves to: JSON unless CSV was asked for.
pub open spec fn eff_format(req: JobResultRequest) -> JobResultResponseFormat {
    match req.format {
        Some(f) => f,
        None => JobResultResponseFormat::Json,
    }
}

/// The limit the request resolves to: 50 for JSON, 5000 for CSV, unless
/// given.
pub open spec fn eff_limit(req: JobResultRequest) -> int {
    match req.limit {
        Some(l) => l as int,
        None => if eff_format(req) is Json {
            50
        } else {
            5000
        },
    }
}

/// The offset the request resolves to: 0 unless given.
pub open spec fn eff_offset(req: JobResultRequest) -> int {
    match req.offset {
        Some(o) => o as int,
        None => 0,
    }
}

/// The JSON envelope around a page of documents, each rendered verbatim.
pub open spec fn results_envelope(s: Seq<JsonValue>) -> Seq<char> {
    "{\"results\":["@ + json_text_items(s) + "]}"@
}

/// Concatenation of character sequences is associative.
proof fn lemma_concat_assoc(a: Seq<char>, b: Seq<char>, c: Seq<char>)
    ensures
        (a + b) + c == a + (b + c),
{
    assert((a + b) + c =~= a + (b + c));
}

/// The empty sequence is neutral on the right.
proof fn lemma_concat_empty(a: Seq<char>)
    ensures
        a + Seq::<char>::empty() == a,
{
    assert(a + Seq::<char>::empty() =~= a);
}

/// The index range of the page inside the stored rows.
fn page_bounds(len: usize, limit: u64, offset: u64) -> (r: (usize, usize))
    ensures
        r.0 as int == min_int(offset as int, len as int),
        r.1 as int == min_int(offset as int + limit as int, len as int),
        r.0 <= r.1 <= len,
{
    let start = if offset >= len as u64 {
        len
    } else {
        offset as usize
    };
    let remaining = len - start;
    let cap = if limit >= remaining as u64 {
        remaining
    } else {
        limit as usize
    };
    (start, start + cap)
}

/// Renders the selected page of documents verbatim inside the JSON
/// envelope.
pub fn job_result_json(docs: &Vec<JsonValue>, limit: u64, offset: u64) -> (r: String)
    ensures
        r@ == results_envelope(page_spec(docs@, limit as int, offset as int)),
{
    let bounds = page_bounds(docs.len(), limit, offset);
    let start = bounds.0;
    let end = bounds.1;
    let ghost page = page_spec(docs@, limit as int, offset as int);
    proof {
        assert(page =~= docs@.subrange(start as int, end as int));
        reveal_strlit(",");
        assert(","@.len() == 1);
        assert(","@ =~= seq![',']);
    }
    let mut out = String::from_str("{\"results\":[");
    let ghost head = "{\"results\":["@;
    proof {
        assert(page.take(0) =~= Seq::<JsonValue>::empty());
        lemma_concat_empty(head);
        assert(out@ == head + json_text_items(page.take(0)));
    }
    let mut i: usize = start;
    while i < end
        invariant
            start <= i <= end,
            end <= docs@.len(),
            page == docs@.subrange(start as int, end as int),
            ","@ == seq![','],
            head == "{\"results\":["@,
            out@ == head + json_text_items(page.take(i - start)),
        decreases end - i,
    {
        let ghost k = i - start;
        proof {
            assert(page.take(k + 1).drop_last() =~= page.take(k as int));
            assert(page.take(k + 1).last() == page[k as int]);
            assert(page[k as int] == docs@[i as int]);
        }
        let ghost items_pre = json_text_items(page.take(k as int));
        if i > start {
            out.append(",");
            proof {
                lemma_concat_assoc(head, items_pre, ","@);
            }
        }
        docs[i].render_into(&mut out);
        proof {
            if k == 0 {
                lemma_concat_empty(head);
                assert(out@ == head + json_text(page[0]));
                assert(json_text_items(page.take(1)) == json_text(page[0]));
            } else {
                lemma_concat_assoc(head, items_pre + ","@, json_text(docs@[i as int]));
                assert(out@ == head + (items_pre + seq![','] + json_text(page[k as int])));
            }
            assert(out@ == head + json_text_items(page.take(k + 1)));
        }
        i = i + 1;
    }
    out.append("]}");
    proof {
        assert(page.take(end - start) =~= page);
        assert(out@ == results_envelope(page));
    }
    out
}

/// Flattens the selected page of documents into the CSV table: the header
/// and one line per document, or the first document's conversion failure —
/// a page that does not convert whole yields no partial output.
pub fn job_result_csv(docs: &Vec<JsonValue>, limit: u64, offset: u64) -> (r: Result<
    String,
    ConversionError,
>)
    ensures
        ({
            let page = page_spec(docs@, limit as int, offset as int);
            match r {
                Ok(b) => csv_rows(page) is Ok && b@ == csv_header() + csv_rows(page)->Ok_0,
                Err(e) => csv_rows(page) == Err::<Seq<char>, ConversionError>(e),
            }
        }),
{
    let bounds = page_bounds(docs.len(), limit, offset);
    let start = bounds.0;
    let end = bounds.1;
    let ghost page = page_spec(docs@, limit as int, offset as int);
    proof {
        assert(page =~= docs@.subrange(start as int, end as int));
    }
    let mut out = String::from_str(
        "input,is_reachable,misc.is_disposable,misc.is_role_account,mx.accepts_mail,smtp.can_connect,smtp.has_full_inbox,smtp.is_catch_all,smtp.is_deliverable,smtp.is_disabled,syntax.is_valid_syntax,syntax.domain,syntax.username,error\n",
    );
    proof {
        assert(page.take(0) =~= Seq::<JsonValue>::empty());
        lemma_concat_empty(csv_header());
        assert(out@ == csv_header() + csv_rows(page.take(0))->Ok_0);
    }
    let mut i: usize = start;
    while i < end
        invariant
            start <= i <= end,
            end <= docs@.len(),
            page == docs@.subrange(start as int, end as int),
            page == page_spec(docs@, limit as int, offset as int),
            csv_rows(page.take(i - start)) is Ok,
            out@ == csv_header() + csv_rows(page.take(i - start))->Ok_0,
        decreases end - i,
    {
        let ghost k = i - start;
        proof {
            assert(page.take(k + 1).drop_last() =~= page.take(k as int));
            assert(page.take(k + 1).last() == page[k as int]);
            assert(page[k as int] == docs@[i as int]);
        }
        match JobResultCsvResponse::try_from_doc(&docs[i]) {
            Err(e) => {
                proof {
                    assert(csv_rows(page.take(k + 1)) == Err::<Seq<char>, ConversionError>(e));
                    lemma_csv_rows_prefix_err(page, k + 1);
                }
                return Err(e);
            },
            Ok(rec) => {
                let ghost rows_pre = csv_rows(page.take(k as int))->Ok_0;
                push_line(&rec, &mut out);
                proof {
                    lemma_concat_assoc(csv_header(), rows_pre, crate::csv_out::csv_line(rec@));
                    assert(csv_rows(page.take(k + 1)) == Ok::<Seq<char>, ConversionError>(
                        rows_pre + crate::csv_out::csv_line(rec@),
                    ));
                    assert(out@ == csv_header() + csv_rows(page.take(k + 1))->Ok_0);
                }
            },
        }
        i = i + 1;
    }
    proof {
        assert(page.take(end - start) =~= page);
    }
    Ok(out)
}

/// Answers a result request: `NotFound` exactly when the job has no
/// metadata row; otherwise the selected page rendered in the requested
/// format, under its content type — or, for CSV, the failure of the first
/// document that does not flatten.
pub fn job_result(job: Option<&JobRecord>, docs: &Vec<JsonValue>, req: &JobResultRequest) -> (r:
    Result<ExportBody, ApiError>)
    ensures
        job is None <==> r == Err::<ExportBody, ApiError>(ApiError::NotFound),
        job is Some && eff_format(*req) is Json ==> r is Ok && r->Ok_0.content_type@
            == "application/json"@ && r->Ok_0.body@ == results_envelope(
            page_spec(docs@, eff_limit(*req), eff_offset(*req)),
        ),
        job is Some && eff_format(*req) is Csv ==> match csv_rows(
            page_spec(docs@, eff_limit(*req), eff_offset(*req)),
        ) {
            Ok(rows) => r is Ok && r->Ok_0.content_type@ == "text/csv"@ && r->Ok_0.body@
                == csv_header() + rows,
            Err(e) => r == Err::<ExportBody, ApiError>(ApiError::Conversion(e)),
        },
{
    if job.is_none() {
        return Err(ApiError::NotFound);
    }
    let format = match req.format {
        Some(f) => f,
        None => JobResultResponseFormat::Json,
    };
    let offset = match req.offset {
        Some(o) => o,
        None => 0,
    };
    match format {
        JobResultResponseFormat::Json => {
            let limit = match req.limit {
                Some(l) => l,
                None => 50,
            };
            let body = job_result_json(docs, limit, offset);
            Ok(ExportBody { content_type: String::from_str("application/json"), body })
        },
        JobResultResponseFormat::Csv => {
            let limit = match req.limit {
                Some(l) => l,
                None => 5000,
            };
            match job_result_csv(docs, limit, offset) {
                Ok(body) => Ok(ExportBody { content_type: String::from_str("text/csv"), body }),
                Err(e) => Err(ApiError::Conversion(e)),
            }
        },
    }
}

} // verus!
