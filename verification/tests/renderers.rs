// Cross-checks of the crate's own renderers against the csv and serde_json
// crates: the verified writers must agree with what the surrounding
// ecosystem produces and parses.

use bulk_read::csv_out::push_line;
use bulk_read::doc::JsonValue;
use bulk_read::export::job_result_json;
use bulk_read::flatten::JobResultCsvResponse;

fn record(input: &str, domain: &str, username: &str, error: Option<&str>) -> JobResultCsvResponse {
    JobResultCsvResponse {
        input: input.to_string(),
        is_reachable: "risky".to_string(),
        misc_is_disposable: true,
        misc_is_role_account: false,
        mx_accepts_mail: true,
        smtp_can_connect: false,
        smtp_has_full_inbox: true,
        smtp_is_catch_all: false,
        smtp_is_deliverable: true,
        smtp_is_disabled: false,
        syntax_is_valid_syntax: true,
        syntax_domain: domain.to_string(),
        syntax_username: username.to_string(),
        error: error.map(|e| e.to_string()),
    }
}

fn csv_crate_line(rec: &JobResultCsvResponse) -> String {
    let mut wtr = csv::WriterBuilder::new()
        .has_headers(false)
        .from_writer(vec![]);
    let bool_text = |b: bool| if b { "true" } else { "false" };
    wtr.write_record(&[
        rec.input.as_str(),
        rec.is_reachable.as_str(),
        bool_text(rec.misc_is_disposable),
        bool_text(rec.misc_is_role_account),
        bool_text(rec.mx_accepts_mail),
        bool_text(rec.smtp_can_connect),
        bool_text(rec.smtp_has_full_inbox),
        bool_text(rec.smtp_is_catch_all),
        bool_text(rec.smtp_is_deliverable),
        bool_text(rec.smtp_is_disabled),
        bool_text(rec.syntax_is_valid_syntax),
        rec.syntax_domain.as_str(),
        rec.syntax_username.as_str(),
        rec.error.as_deref().unwrap_or(""),
    ])
    .unwrap();
    String::from_utf8(wtr.into_inner().unwrap()).unwrap()
}

fn library_line(rec: &JobResultCsvResponse) -> String {
    let mut out = String::new();
    push_line(rec, &mut out);
    out
}

#[test]
fn csv_line_matches_the_csv_crate_on_plain_fields() {
    let rec = record("a@b.c", "b.c", "a", None);
    assert_eq!(library_line(&rec), csv_crate_line(&rec));
}

#[test]
fn csv_line_matches_the_csv_crate_on_fields_needing_quotes() {
    let cases = vec![
        record("comma,inside", "b.c", "a", Some("plain")),
        record("quote\"inside", "b.c", "a\"b", None),
        record("line\nbreak", "b.c", "a", Some("cr\rhere")),
        record("both,\"of\nthem", "d,e", "\"", Some("x,y")),
    ];
    for rec in cases {
        assert_eq!(library_line(&rec), csv_crate_line(&rec));
    }
}

#[test]
fn rendered_json_parses_back_to_the_same_value() {
    let doc = JsonValue::Obj(vec![
        ("input".to_string(), JsonValue::Str("x\"y\\z\n\t\u{1}".to_string())),
        ("count".to_string(), JsonValue::Num("42".to_string())),
        ("flag".to_string(), JsonValue::Bool(true)),
        ("nothing".to_string(), JsonValue::Null),
        (
            "nested".to_string(),
            JsonValue::Arr(vec![
                JsonValue::Num("-7".to_string()),
                JsonValue::Obj(vec![("k".to_string(), JsonValue::Str("v".to_string()))]),
            ]),
        ),
    ]);
    let body = job_result_json(&vec![doc], 10, 0);
    let parsed: serde_json::Value = serde_json::from_str(&body).unwrap();

    let mut inner = serde_json::Map::new();
    inner.insert("k".to_string(), serde_json::Value::String("v".to_string()));
    let mut expect_doc = serde_json::Map::new();
    expect_doc.insert(
        "input".to_string(),
        serde_json::Value::String("x\"y\\z\n\t\u{1}".to_string()),
    );
    expect_doc.insert("count".to_string(), serde_json::Value::from(42u64));
    expect_doc.insert("flag".to_string(), serde_json::Value::Bool(true));
    expect_doc.insert("nothing".to_string(), serde_json::Value::Null);
    expect_doc.insert(
        "nested".to_string(),
        serde_json::Value::Array(vec![
            serde_json::Value::from(-7i64),
            serde_json::Value::Object(inner),
        ]),
    );
    let mut envelope = serde_json::Map::new();
    envelope.insert(
        "results".to_string(),
        serde_json::Value::Array(vec![serde_json::Value::Object(expect_doc)]),
    );
    assert_eq!(parsed, serde_json::Value::Object(envelope));
}

#[test]
fn rendered_json_escapes_control_characters() {
    let doc = JsonValue::Str("a\u{1f}b".to_string());
    let body = job_result_json(&vec![doc], 1, 0);
    assert_eq!(body, "{\"results\":[\"a\\u001fb\"]}");
}
