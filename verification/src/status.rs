//! The job status aggregator: given a job's metadata and its stored result
//! rows, derive the coarse status and the per-category counts.
//!
//! A job is binary running-or-done: `Running` while fewer rows are stored
//! than the job expects, `Completed` otherwise — also when more rows than
//! expected turned up. A row counts toward a category exactly when its
//! `is_reachable` field is the category's string; rows with any other or
//! missing value are processed but belong to no bucket.

use vstd::prelude::*;

use crate::ApiError;
use crate::doc::JsonValue;
use crate::doc::find_entry;
use crate::flatten::opt_str;
use vstd::string::StringExecFns;

verus! {

/// The derived state of a job.
#[derive(Debug, Clone, Copy, PartialEq, Eq, Structural)]
pub enum ValidStatus {
    Running,
    Completed,
}

impl ValidStatus {
    /// The lowercase wire form of the status.
    pub open spec fn text_spec(self) -> Seq<char> {
        match self {
            ValidStatus::Running => "running"@,
            ValidStatus::Completed => "completed"@,
        }
    }

    /// The lowercase wire form of the status.
    pub fn text(&self) -> (r: String)
        ensures
            r@ == self.text_spec(),
    {
        match self {
            ValidStatus::Running => String::from_str("running"),
            ValidStatus::Completed => String::from_str("completed"),
        }
    }
}

/// What a job's metadata row holds: its id, its creation time (as the text
/// the boundary layer renders it to), and how many records it expects.
#[derive(Debug, Clone, PartialEq, Eq)]
pub struct JobRecord {
    pub id: i32,
    pub created_at: String,
    pub total_records: i32,
}

/// Counts of result rows per reachability category.
#[derive(Debug, Clone, Copy, PartialEq, Eq, Structural)]
pub struct JobStatusSummaryResponseBody {
    pub total_safe: i32,
    pub total_risky: i32,
    pub total_invalid: i32,
    pub total_unknown: i32,
}

/// The composite answer to a status request.
#[derive(Debug, Clone, PartialEq, Eq)]
pub struct JobStatusResponseBody {
    pub job_id: i32,
    pub created_at: String,
    pub total_records: i32,
    pub total_processed: i32,
    pub summary: JobStatusSummaryResponseBody,
    pub job_status: ValidStatus,
}

/// The status a processed/expected pair derives to.
pub open spec fn status_of(total_processed: int, total_records: int) -> ValidStatus {
    if total_processed < total_records {
        ValidStatus::Running
    } else {
        ValidStatus::Completed
    }
}

/// Derives the job status: `Running` exactly while fewer rows are processed
/// than expected; the boundary `total_processed == total_records` — and any
/// excess — is `Completed`.
pub fn derive_status(total_processed: i32, total_records: i32) -> (s: ValidStatus)
    ensures
        s == status_of(total_processed as int, total_records as int),
{
    if total_processed < total_records {
        ValidStatus::Running
    } else {
        ValidStatus::Completed
    }
}

/// The `is_reachable` text of a stored row, when the row is an object and
/// the field a string.
pub open spec fn reachable_text(v: JsonValue) -> Option<Seq<char>> {
    if v is Obj {
        opt_str(v->Obj_0@, "is_reachable"@)
    } else {
        None
    }
}

/// The row classifies into the category named `cat`.
pub open spec fn in_category(v: JsonValue, cat: Seq<char>) -> bool {
    reachable_text(v) == Some(cat)
}

/// The row classifies into one of the four recognized categories.
pub open spec fn recognized(v: JsonValue) -> bool {
    in_category(v, "safe"@) || in_category(v, "risky"@) || in_category(v, "invalid"@)
        || in_category(v, "unknown"@)
}

/// How many rows of `s` classify into the category named `cat`.
pub open spec fn count_cat(s: Seq<JsonValue>, cat: Seq<char>) -> int
    decreases s.len(),
{
    if s.len() == 0 {
        0
    } else {
        count_cat(s.drop_last(), cat) + if in_category(s.last(), cat) {
            1int
        } else {
            0int
        }
    }
}

/// A category count lies between zero and the number of rows.
pub proof fn lemma_count_cat_bounds(s: Seq<JsonValue>, cat: Seq<char>)
    ensures
        0 <= count_cat(s, cat) <= s.len(),
    decreases s.len(),
{
    if s.len() > 0 {
        lemma_count_cat_bounds(s.drop_last(), cat);
    }
}

/// Category counts are mutually exclusive: a row contributes to at most one
/// category, the four counts sum to at most the number of rows, and the sum
/// equals it exactly when every row has a recognized `is_reachable` value.
pub proof fn lemma_category_counts(s: Seq<JsonValue>)
    ensures
        forall|i: int, c1: Seq<char>, c2: Seq<char>|
            0 <= i < s.len() && in_category(s[i], c1) && in_category(s[i], c2) ==> c1 == c2,
        count_cat(s, "safe"@) + count_cat(s, "risky"@) + count_cat(s, "invalid"@) + count_cat(
            s,
            "unknown"@,
        ) <= s.len(),
        (count_cat(s, "safe"@) + count_cat(s, "risky"@) + count_cat(s, "invalid"@) + count_cat(
            s,
            "unknown"@,
        ) == s.len()) <==> (forall|i: int| 0 <= i < s.len() ==> recognized(s[i])),
    decreases s.len(),
{
    reveal_strlit("safe");
    reveal_strlit("risky");
    reveal_strlit("invalid");
    reveal_strlit("unknown");
    assert("safe"@.len() == 4 && "risky"@.len() == 5 && "invalid"@.len() == 7 && "unknown"@.len()
        == 7);
    assert("safe"@ != "risky"@ && "safe"@ != "invalid"@ && "safe"@ != "unknown"@);
    assert("risky"@ != "invalid"@ && "risky"@ != "unknown"@);
    assert("invalid"@ != "unknown"@) by {
        assert("invalid"@[0] == 'i' && "unknown"@[0] == 'u');
    }
    if s.len() > 0 {
        let pre = s.drop_last();
        lemma_category_counts(pre);
        assert(forall|i: int| 0 <= i < pre.len() ==> pre[i] == s[i]);
        let sum_pre = count_cat(pre, "safe"@) + count_cat(pre, "risky"@) + count_cat(pre, "invalid"@)
            + count_cat(pre, "unknown"@);
        let sum = count_cat(s, "safe"@) + count_cat(s, "risky"@) + count_cat(s, "invalid"@)
            + count_cat(s, "unknown"@);
        if recognized(s.last()) {
            assert(in_category(s.last(), "safe"@) ==> !in_category(s.last(), "risky"@)
                && !in_category(s.last(), "invalid"@) && !in_category(s.last(), "unknown"@));
            assert(in_category(s.last(), "risky"@) ==> !in_category(s.last(), "invalid"@)
                && !in_category(s.last(), "unknown"@));
            assert(in_category(s.last(), "invalid"@) ==> !in_category(s.last(), "unknown"@));
            assert(sum == sum_pre + 1);
        } else {
            assert(sum == sum_pre);
        }
        if sum == s.len() {
            assert(sum_pre == pre.len() && recognized(s.last()));
        }
        if sum_pre == pre.len() && recognized(s.last()) {
            assert(forall|i: int| 0 <= i < s.len() ==> recognized(s[i]));
        }
    }
}

/// Counts the rows of a page per reachability category, exactly as the
/// store's aggregate query would.
pub fn aggregate_counts(docs: &Vec<JsonValue>) -> (r: JobStatusSummaryResponseBody)
    requires
        docs@.len() <= i32::MAX,
    ensures
        r.total_safe == count_cat(docs@, "safe"@),
        r.total_risky == count_cat(docs@, "risky"@),
        r.total_invalid == count_cat(docs@, "invalid"@),
        r.total_unknown == count_cat(docs@, "unknown"@),
{
    proof {
        reveal_strlit("safe");
        reveal_strlit("risky");
        reveal_strlit("invalid");
        reveal_strlit("unknown");
        assert("safe"@.len() == 4 && "risky"@.len() == 5 && "invalid"@.len() == 7
            && "unknown"@.len() == 7);
        assert("safe"@ != "risky"@ && "safe"@ != "invalid"@ && "safe"@ != "unknown"@);
        assert("risky"@ != "invalid"@ && "risky"@ != "unknown"@);
        assert("invalid"@ != "unknown"@) by {
            assert("invalid"@[0] == 'i' && "unknown"@[0] == 'u');
        }
    }
    let key = String::from_str("is_reachable");
    let safe = String::from_str("safe");
    let risky = String::from_str("risky");
    let invalid = String::from_str("invalid");
    let unknown = String::from_str("unknown");
    let mut total_safe: i32 = 0;
    let mut total_risky: i32 = 0;
    let mut total_invalid: i32 = 0;
    let mut total_unknown: i32 = 0;
    let mut i: usize = 0;
    while i < docs.len()
        invariant
            i <= docs.len(),
            docs@.len() <= i32::MAX,
            safe@ == "safe"@ && risky@ == "risky"@ && invalid@ == "invalid"@ && unknown@
                == "unknown"@,
            key@ == "is_reachable"@,
            total_safe == count_cat(docs@.take(i as int), "safe"@),
            total_risky == count_cat(docs@.take(i as int), "risky"@),
            total_invalid == count_cat(docs@.take(i as int), "invalid"@),
            total_unknown == count_cat(docs@.take(i as int), "unknown"@),
        decreases docs.len() - i,
    {
        proof {
            reveal_strlit("safe");
            reveal_strlit("risky");
            reveal_strlit("invalid");
            reveal_strlit("unknown");
            assert("safe"@.len() == 4 && "risky"@.len() == 5 && "invalid"@.len() == 7
                && "unknown"@.len() == 7);
            assert("invalid"@[0] == 'i' && "unknown"@[0] == 'u');
            lemma_count_cat_bounds(docs@.take(i as int), "safe"@);
            lemma_count_cat_bounds(docs@.take(i as int), "risky"@);
            lemma_count_cat_bounds(docs@.take(i as int), "invalid"@);
            lemma_count_cat_bounds(docs@.take(i as int), "unknown"@);
            assert(docs@.take(i + 1).drop_last() =~= docs@.take(i as int));
            assert(docs@.take(i + 1).last() == docs@[i as int]);
        }
        match &docs[i] {
            JsonValue::Obj(entries) => match find_entry(entries, &key) {
                Some(JsonValue::Str(s)) => {
                    if *s == safe {
                        total_safe = total_safe + 1;
                    } else if *s == risky {
                        total_risky = total_risky + 1;
                    } else if *s == invalid {
                        total_invalid = total_invalid + 1;
                    } else if *s == unknown {
                        total_unknown = total_unknown + 1;
                    }
                },
                _ => {},
            },
            _ => {},
        }
        i = i + 1;
    }
    proof {
        assert(docs@.take(docs@.len() as int) =~= docs@);
    }
    JobStatusSummaryResponseBody { total_safe, total_risky, total_invalid, total_unknown }
}

/// Answers a status request from the job's metadata row (if any) and its
/// stored result rows: `NotFound` exactly when the job has no metadata row,
/// else the composite status body.
pub fn job_status(job: Option<&JobRecord>, docs: &Vec<JsonValue>) -> (r: Result<
    JobStatusResponseBody,
    ApiError,
>)
    requires
        docs@.len() <= i32::MAX,
    ensures
        job is None <==> r == Err::<JobStatusResponseBody, ApiError>(ApiError::NotFound),
        job is Some ==> r is Ok && {
            let b = r->Ok_0;
            &&& b.job_id == job->0.id
            &&& b.created_at@ == job->0.created_at@
            &&& b.total_records == job->0.total_records
            &&& b.total_processed == docs@.len()
            &&& b.summary.total_safe == count_cat(docs@, "safe"@)
            &&& b.summary.total_risky == count_cat(docs@, "risky"@)
            &&& b.summary.total_invalid == count_cat(docs@, "invalid"@)
            &&& b.summary.total_unknown == count_cat(docs@, "unknown"@)
            &&& b.job_status == status_of(docs@.len() as int, job->0.total_records as int)
        },
{
    let rec = match job {
        Some(r) => r,
        None => { return Err(ApiError::NotFound) },
    };
    let summary = aggregate_counts(docs);
    let total_processed: i32 = docs.len() as i32;
    let job_status = derive_status(total_processed, rec.total_records);
    Ok(
        JobStatusResponseBody {
            job_id: rec.id,
            created_at: rec.created_at.clone(),
            total_records: rec.total_records,
            total_processed,
            summary,
            job_status,
        },
    )
}

/// Assembles a status body from the store's aggregate row, as the boundary
/// layer receives it: a missing count defaults to zero instead of reaching
/// the arithmetic.
pub fn assemble_status(
    job: &JobRecord,
    total_processed: Option<i64>,
    safe: Option<i64>,
    risky: Option<i64>,
    invalid: Option<i64>,
    unknown: Option<i64>,
) -> (r: JobStatusResponseBody)
    requires
        0 <= opt_count(total_processed) <= i32::MAX,
        0 <= opt_count(safe) <= i32::MAX,
        0 <= opt_count(risky) <= i32::MAX,
        0 <= opt_count(invalid) <= i32::MAX,
        0 <= opt_count(unknown) <= i32::MAX,
    ensures
        r.job_id == job.id,
        r.created_at@ == job.created_at@,
        r.total_records == job.total_records,
        r.total_processed == opt_count(total_processed),
        r.summary.total_safe == opt_count(safe),
        r.summary.total_risky == opt_count(risky),
        r.summary.total_invalid == opt_count(invalid),
        r.summary.total_unknown == opt_count(unknown),
        r.job_status == status_of(opt_count(total_processed), job.total_records as int),
{
    let tp: i32 = count_or_zero(total_processed) as i32;
    JobStatusResponseBody {
        job_id: job.id,
        created_at: job.created_at.clone(),
        total_records: job.total_records,
        total_processed: tp,
        summary: JobStatusSummaryResponseBody {
            total_safe: count_or_zero(safe) as i32,
            total_risky: count_or_zero(risky) as i32,
            total_invalid: count_or_zero(invalid) as i32,
            total_unknown: count_or_zero(unknown) as i32,
        },
        job_status: derive_status(tp, job.total_records),
    }
}

/// An aggregate count as a number: a missing one counts as zero.
pub open spec fn opt_count(c: Option<i64>) -> int {
    match c {
        Some(n) => n as int,
        None => 0,
    }
}

/// Defaults a missing aggregate count to zero.
fn count_or_zero(c: Option<i64>) -> (r: i64)
    ensures
        r == opt_count(c),
{
    match c {
        Some(n) => n,
        None => 0,
    }
}

} // verus!
