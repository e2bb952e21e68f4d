use bulk_read::ApiError;
use bulk_read::doc::JsonValue;
use bulk_read::export::ExportBody;
use bulk_read::export::JobResultRequest;
use bulk_read::export::JobResultResponseFormat;
use bulk_read::export::job_result;
use bulk_read::export::job_result_csv;
use bulk_read::export::job_result_json;
use bulk_read::flatten::ConversionError;
use bulk_read::flatten::Field;
use bulk_read::flatten::JobResultCsvResponse;
use bulk_read::status::JobRecord;
use bulk_read::status::ValidStatus;
use bulk_read::status::aggregate_counts;
use bulk_read::status::assemble_status;
use bulk_read::status::derive_status;
use bulk_read::status::job_status;

fn s(t: &str) -> JsonValue {
    JsonValue::Str(t.to_string())
}

fn b(v: bool) -> JsonValue {
    JsonValue::Bool(v)
}

fn obj(pairs: Vec<(&str, JsonValue)>) -> JsonValue {
    JsonValue::Obj(pairs.into_iter().map(|(k, v)| (k.to_string(), v)).collect())
}

fn job(id: i32, total_records: i32) -> JobRecord {
    JobRecord {
        id,
        created_at: "2022-03-01T10:00:00+00:00".to_string(),
        total_records,
    }
}

fn reachable_doc(cat: &str) -> JsonValue {
    obj(vec![("is_reachable", s(cat))])
}

const HEADER: &str = "input,is_reachable,misc.is_disposable,misc.is_role_account,mx.accepts_mail,smtp.can_connect,smtp.has_full_inbox,smtp.is_catch_all,smtp.is_deliverable,smtp.is_disabled,syntax.is_valid_syntax,syntax.domain,syntax.username,error\n";

// A full document with every recognized field set.
fn full_doc() -> JsonValue {
    obj(vec![
        ("input", s("someone@example.com")),
        ("is_reachable", s("safe")),
        (
            "misc",
            obj(vec![("is_disposable", b(true)), ("is_role_account", b(false))]),
        ),
        ("mx", obj(vec![("accepts_email", b(true))])),
        (
            "smtp",
            obj(vec![
                ("can_connect_smtp", b(true)),
                ("has_full_inbox", b(false)),
                ("is_catch_all", b(true)),
                ("is_deliverable", b(true)),
                ("is_disabled", b(false)),
            ]),
        ),
        (
            "syntax",
            obj(vec![
                ("is_valid_syntax", b(true)),
                ("username", s("someone")),
                ("domain", s("example.com")),
                ("error", s("late warning")),
            ]),
        ),
    ])
}

#[test]
fn status_running_when_fewer_processed() {
    let docs = vec![reachable_doc("safe"), reachable_doc("risky")];
    let rec = job(7, 3);
    let body = job_status(Some(&rec), &docs).unwrap();
    assert_eq!(body.job_status, ValidStatus::Running);
    assert_eq!(body.total_processed, 2);
    assert_eq!(body.total_records, 3);
    assert_eq!(body.job_id, 7);
    assert_eq!(body.created_at, "2022-03-01T10:00:00+00:00");
}

#[test]
fn status_completed_at_boundary() {
    let docs = vec![
        reachable_doc("safe"),
        reachable_doc("safe"),
        reachable_doc("unknown"),
    ];
    let body = job_status(Some(&job(1, 3)), &docs).unwrap();
    assert_eq!(body.job_status, ValidStatus::Completed);
}

#[test]
fn status_completed_when_excess_processed() {
    let docs = vec![reachable_doc("safe"), reachable_doc("safe")];
    let body = job_status(Some(&job(1, 1)), &docs).unwrap();
    assert_eq!(body.job_status, ValidStatus::Completed);
    assert_eq!(derive_status(2, 1), ValidStatus::Completed);
    assert_eq!(derive_status(0, 1), ValidStatus::Running);
    assert_eq!(derive_status(1, 1), ValidStatus::Completed);
}

#[test]
fn unknown_job_status_is_not_found() {
    let docs = vec![reachable_doc("safe")];
    assert_eq!(job_status(None, &docs).unwrap_err(), ApiError::NotFound);
}

#[test]
fn unknown_job_export_is_not_found() {
    let docs = vec![reachable_doc("safe")];
    let req = JobResultRequest {
        format: Some(JobResultResponseFormat::Csv),
        limit: None,
        offset: None,
    };
    assert_eq!(job_result(None, &docs, &req).unwrap_err(), ApiError::NotFound);
    let req_json = JobResultRequest {
        format: None,
        limit: None,
        offset: None,
    };
    assert_eq!(
        job_result(None, &docs, &req_json).unwrap_err(),
        ApiError::NotFound
    );
}

#[test]
fn category_counts_are_exact_and_bounded() {
    let docs = vec![
        reachable_doc("safe"),
        reachable_doc("risky"),
        reachable_doc("safe"),
        reachable_doc("wat"),
        JsonValue::Arr(vec![]),
        obj(vec![("input", s("x@y.z"))]),
        reachable_doc("invalid"),
        reachable_doc("unknown"),
    ];
    let summary = aggregate_counts(&docs);
    assert_eq!(summary.total_safe, 2);
    assert_eq!(summary.total_risky, 1);
    assert_eq!(summary.total_invalid, 1);
    assert_eq!(summary.total_unknown, 1);
    let sum = summary.total_safe + summary.total_risky + summary.total_invalid
        + summary.total_unknown;
    assert!(sum <= docs.len() as i32);
}

#[test]
fn category_counts_sum_equals_total_when_all_recognized() {
    let docs = vec![
        reachable_doc("safe"),
        reachable_doc("invalid"),
        reachable_doc("unknown"),
        reachable_doc("risky"),
    ];
    let summary = aggregate_counts(&docs);
    let sum = summary.total_safe + summary.total_risky + summary.total_invalid
        + summary.total_unknown;
    assert_eq!(sum, docs.len() as i32);
}

#[test]
fn flattening_is_pure_and_idempotent() {
    let doc = full_doc();
    let once = JobResultCsvResponse::try_from_doc(&doc).unwrap();
    let twice = JobResultCsvResponse::try_from_doc(&doc).unwrap();
    assert_eq!(once, twice);
}

#[test]
fn flattening_full_document_keeps_every_field() {
    let rec = JobResultCsvResponse::try_from_doc(&full_doc()).unwrap();
    assert_eq!(rec.input, "someone@example.com");
    assert_eq!(rec.is_reachable, "safe");
    assert!(rec.misc_is_disposable);
    assert!(!rec.misc_is_role_account);
    assert!(rec.mx_accepts_mail);
    assert!(rec.smtp_can_connect);
    assert!(!rec.smtp_has_full_inbox);
    assert!(rec.smtp_is_catch_all);
    assert!(rec.smtp_is_deliverable);
    assert!(!rec.smtp_is_disabled);
    assert!(rec.syntax_is_valid_syntax);
    assert_eq!(rec.syntax_domain, "example.com");
    assert_eq!(rec.syntax_username, "someone");
    assert_eq!(rec.error, Some("late warning".to_string()));
}

#[test]
fn flattening_minimal_document_defaults_everything_else() {
    let rec = JobResultCsvResponse::try_from_doc(&reachable_doc("safe")).unwrap();
    assert_eq!(rec.input, "");
    assert_eq!(rec.is_reachable, "safe");
    assert!(!rec.misc_is_disposable);
    assert!(!rec.misc_is_role_account);
    assert!(!rec.mx_accepts_mail);
    assert!(!rec.smtp_can_connect);
    assert!(!rec.smtp_has_full_inbox);
    assert!(!rec.smtp_is_catch_all);
    assert!(!rec.smtp_is_deliverable);
    assert!(!rec.smtp_is_disabled);
    assert!(!rec.syntax_is_valid_syntax);
    assert_eq!(rec.syntax_domain, "");
    assert_eq!(rec.syntax_username, "");
    assert_eq!(rec.error, None);
}

#[test]
fn unknown_keys_are_ignored() {
    let doc = obj(vec![
        ("is_reachable", s("risky")),
        ("brand_new_section", obj(vec![("x", b(true))])),
        ("note", JsonValue::Num("42".to_string())),
        ("smtp", obj(vec![("is_deliverable", b(true)), ("extra", s("hi"))])),
    ]);
    let rec = JobResultCsvResponse::try_from_doc(&doc).unwrap();
    assert_eq!(rec.is_reachable, "risky");
    assert!(rec.smtp_is_deliverable);
}

#[test]
fn smtp_error_overwrites_mx_error() {
    let doc = obj(vec![
        ("mx", obj(vec![("error", s("dns timeout"))])),
        ("smtp", obj(vec![("error", s("connection refused"))])),
    ]);
    let rec = JobResultCsvResponse::try_from_doc(&doc).unwrap();
    assert_eq!(rec.error, Some("connection refused".to_string()));
}

#[test]
fn error_collapse_order_is_fixed_not_positional() {
    // smtp written before mx in the document: smtp still wins, because the
    // traversal order misc, mx, smtp, syntax is fixed.
    let doc = obj(vec![
        ("smtp", obj(vec![("error", s("connection refused"))])),
        ("mx", obj(vec![("error", s("dns timeout"))])),
    ]);
    let rec = JobResultCsvResponse::try_from_doc(&doc).unwrap();
    assert_eq!(rec.error, Some("connection refused".to_string()));
    // syntax wins over all three others.
    let doc2 = obj(vec![
        ("syntax", obj(vec![("error", s("bad syntax"))])),
        ("misc", obj(vec![("error", s("misc broke"))])),
        ("smtp", obj(vec![("error", s("smtp broke"))])),
    ]);
    let rec2 = JobResultCsvResponse::try_from_doc(&doc2).unwrap();
    assert_eq!(rec2.error, Some("bad syntax".to_string()));
}

#[test]
fn type_mismatches_abort_with_the_field() {
    let cases = vec![
        (obj(vec![("input", b(true))]), Field::Input),
        (obj(vec![("is_reachable", JsonValue::Null)]), Field::IsReachable),
        (obj(vec![("misc", s("nope"))]), Field::Misc),
        (
            obj(vec![("misc", obj(vec![("is_disposable", s("yes"))]))]),
            Field::MiscIsDisposable,
        ),
        (
            obj(vec![("mx", obj(vec![("accepts_email", JsonValue::Num("1".to_string()))]))]),
            Field::MxAcceptsEmail,
        ),
        (
            obj(vec![("smtp", obj(vec![("is_catch_all", s("x"))]))]),
            Field::SmtpIsCatchAll,
        ),
        (
            obj(vec![("syntax", obj(vec![("username", b(false))]))]),
            Field::SyntaxUsername,
        ),
        (
            obj(vec![("smtp", obj(vec![("error", b(true))]))]),
            Field::SmtpError,
        ),
    ];
    for (doc, field) in cases {
        assert_eq!(
            JobResultCsvResponse::try_from_doc(&doc).unwrap_err(),
            ConversionError::TypeMismatch(field)
        );
    }
}

#[test]
fn non_object_document_is_malformed() {
    assert_eq!(
        JobResultCsvResponse::try_from_doc(&JsonValue::Arr(vec![s("x")])).unwrap_err(),
        ConversionError::MalformedDocument
    );
    assert_eq!(
        JobResultCsvResponse::try_from_doc(&s("just a string")).unwrap_err(),
        ConversionError::MalformedDocument
    );
}

#[test]
fn pagination_returns_exactly_the_window() {
    let docs: Vec<JsonValue> = (1..=5)
        .map(|i| obj(vec![("input", s(&format!("u{}@example.com", i)))]))
        .collect();
    let req = JobResultRequest {
        format: None,
        limit: Some(2),
        offset: Some(1),
    };
    let ExportBody { content_type, body } = job_result(Some(&job(1, 5)), &docs, &req).unwrap();
    assert_eq!(content_type, "application/json");
    assert_eq!(
        body,
        "{\"results\":[{\"input\":\"u2@example.com\"},{\"input\":\"u3@example.com\"}]}"
    );
}

#[test]
fn pagination_clips_to_the_stored_rows() {
    let docs = vec![reachable_doc("safe"), reachable_doc("risky")];
    assert_eq!(job_result_json(&docs, 10, 1), "{\"results\":[{\"is_reachable\":\"risky\"}]}");
    assert_eq!(job_result_json(&docs, 10, 5), "{\"results\":[]}");
    assert_eq!(job_result_json(&docs, 0, 0), "{\"results\":[]}");
}

#[test]
fn csv_export_of_empty_job_is_header_only() {
    let docs: Vec<JsonValue> = vec![];
    let body = job_result_csv(&docs, 5000, 0).unwrap();
    assert_eq!(body, HEADER);
}

#[test]
fn csv_export_renders_rows_after_the_header() {
    let docs = vec![full_doc(), reachable_doc("unknown")];
    let body = job_result_csv(&docs, 5000, 0).unwrap();
    let expect = format!(
        "{}someone@example.com,safe,true,false,true,true,false,true,true,false,true,example.com,someone,late warning\n,unknown,false,false,false,false,false,false,false,false,false,,,\n",
        HEADER
    );
    assert_eq!(body, expect);
}

#[test]
fn malformed_row_fails_csv_export_but_not_json() {
    let docs = vec![
        reachable_doc("safe"),
        JsonValue::Arr(vec![s("not"), s("an"), s("object")]),
        reachable_doc("risky"),
    ];
    let csv_req = JobResultRequest {
        format: Some(JobResultResponseFormat::Csv),
        limit: None,
        offset: None,
    };
    assert_eq!(
        job_result(Some(&job(1, 3)), &docs, &csv_req).unwrap_err(),
        ApiError::Conversion(ConversionError::MalformedDocument)
    );
    let json_req = JobResultRequest {
        format: Some(JobResultResponseFormat::Json),
        limit: None,
        offset: None,
    };
    let out = job_result(Some(&job(1, 3)), &docs, &json_req).unwrap();
    assert_eq!(out.content_type, "application/json");
    assert_eq!(
        out.body,
        "{\"results\":[{\"is_reachable\":\"safe\"},[\"not\",\"an\",\"object\"],{\"is_reachable\":\"risky\"}]}"
    );
}

#[test]
fn conversion_failure_yields_no_partial_csv() {
    // The failing row sits behind two good ones: the whole export still
    // fails with that row's error.
    let docs = vec![
        reachable_doc("safe"),
        reachable_doc("risky"),
        obj(vec![("input", b(false))]),
    ];
    assert_eq!(
        job_result_csv(&docs, 5000, 0).unwrap_err(),
        ConversionError::TypeMismatch(Field::Input)
    );
}

#[test]
fn status_text_is_lowercase() {
    assert_eq!(ValidStatus::Running.text(), "running");
    assert_eq!(ValidStatus::Completed.text(), "completed");
}

#[test]
fn field_paths_are_dotted() {
    assert_eq!(Field::Input.path(), "input");
    assert_eq!(Field::MxAcceptsEmail.path(), "mx.accepts_email");
    assert_eq!(Field::SmtpCanConnect.path(), "smtp.can_connect_smtp");
    assert_eq!(Field::SyntaxError.path(), "syntax.error");
}

#[test]
fn missing_aggregate_counts_default_to_zero() {
    let body = assemble_status(&job(9, 4), None, None, None, None, None);
    assert_eq!(body.total_processed, 0);
    assert_eq!(body.summary.total_safe, 0);
    assert_eq!(body.summary.total_risky, 0);
    assert_eq!(body.summary.total_invalid, 0);
    assert_eq!(body.summary.total_unknown, 0);
    assert_eq!(body.job_status, ValidStatus::Running);
    let done = assemble_status(&job(9, 4), Some(4), Some(1), Some(1), Some(1), Some(1));
    assert_eq!(done.job_status, ValidStatus::Completed);
    assert_eq!(done.total_processed, 4);
    assert_eq!(done.summary.total_safe, 1);
}

#[test]
fn json_default_limit_is_fifty() {
    let docs: Vec<JsonValue> = (0..60).map(|_| reachable_doc("safe")).collect();
    let req = JobResultRequest {
        format: None,
        limit: None,
        offset: None,
    };
    let out = job_result(Some(&job(1, 60)), &docs, &req).unwrap();
    let one = "{\"is_reachable\":\"safe\"}";
    let expect = format!(
        "{{\"results\":[{}]}}",
        (0..50).map(|_| one).collect::<Vec<_>>().join(",")
    );
    assert_eq!(out.body, expect);
}
