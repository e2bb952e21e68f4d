//! CSV rendering of flat records: the fixed header and one delimited line
//! per record, with standard quoting — a field is wrapped in double quotes,
//! its quotes doubled, exactly when it contains a comma, a quote, or a line
//! break.

use vstd::prelude::*;

use crate::doc::JsonValue;
use crate::flatten::ConversionError;
use crate::flatten::FlatModel;
use crate::flatten::JobResultCsvResponse;
use crate::flatten::flatten_spec;
use vstd::string::StrSliceExecFns;

verus! {

/// A character that forces a CSV field into quotes.
pub open spec fn is_special(c: char) -> bool {
    c == ',' || c == '"' || c == '\n' || c == '\r'
}

/// The field must be quoted.
pub open spec fn needs_quote(s: Seq<char>) -> bool {
    exists|i: int| 0 <= i < s.len() && is_special(s[i])
}

/// The field's text with every double quote doubled.
pub open spec fn doubled(s: Seq<char>) -> Seq<char>
    decreases s.len(),
{
    if s.len() == 0 {
        Seq::empty()
    } else {
        doubled(s.drop_last()) + if s.last() == '"' {
            seq!['"', '"']
        } else {
            seq![s.last()]
        }
    }
}

/// How a string appears as one CSV field.
pub open spec fn csv_field(s: Seq<char>) -> Seq<char> {
    if needs_quote(s) {
        seq!['"'] + doubled(s) + seq!['"']
    } else {
        s
    }
}

/// How a boolean appears as one CSV field.
pub open spec fn bool_text(b: bool) -> Seq<char> {
    if b {
        "true"@
    } else {
        "false"@
    }
}

/// How the optional error appears as one CSV field: empty when absent.
pub open spec fn err_field(e: Option<Seq<char>>) -> Seq<char> {
    match e {
        Some(t) => csv_field(t),
        None => Seq::empty(),
    }
}

/// The header line: the fixed column set, in order, ending in a newline.
pub open spec fn csv_header() -> Seq<char> {
    "input,is_reachable,misc.is_disposable,misc.is_role_account,mx.accepts_mail,smtp.can_connect,smtp.has_full_inbox,smtp.is_catch_all,smtp.is_deliverable,smtp.is_disabled,syntax.is_valid_syntax,syntax.domain,syntax.username,error\n"@
}

/// The first half of a record's line: input through `smtp.has_full_inbox`,
/// each field followed by its comma.
pub open spec fn csv_line_head(m: FlatModel) -> Seq<char> {
    csv_field(m.input) + ","@ + csv_field(m.is_reachable) + ","@ + bool_text(m.misc_is_disposable) + ","@ + bool_text(m.misc_is_role_account) + ","@ + bool_text(m.mx_accepts_mail) + ","@ + bool_text(m.smtp_can_connect) + ","@ + bool_text(m.smtp_has_full_inbox) + ","@
}

/// The second half of a record's line: `smtp.is_catch_all` through the
/// optional error, ending in a newline.
pub open spec fn csv_line_tail(m: FlatModel) -> Seq<char> {
    bool_text(m.smtp_is_catch_all) + ","@ + bool_text(m.smtp_is_deliverable) + ","@ + bool_text(m.smtp_is_disabled) + ","@ + bool_text(m.syntax_is_valid_syntax) + ","@ + csv_field(m.syntax_domain) + ","@ + csv_field(m.syntax_username) + ","@ + err_field(m.error) + "\n"@
}

/// One record's line: its fourteen fields, comma-separated, ending in a
/// newline.
pub open spec fn csv_line(m: FlatModel) -> Seq<char> {
    csv_line_head(m) + csv_line_tail(m)
}

/// The lines of a page of documents: each document flattened in order, or
/// the failure of the first document that does not flatten.
pub open spec fn csv_rows(s: Seq<JsonValue>) -> Result<Seq<char>, ConversionError>
    decreases s.len(),
{
    if s.len() == 0 {
        Ok(Seq::empty())
    } else {
        match csv_rows(s.drop_last()) {
            Err(e) => Err(e),
            Ok(pre) => match flatten_spec(s.last()) {
                Err(e) => Err(e),
                Ok(m) => Ok(pre + csv_line(m)),
            },
        }
    }
}

/// A failure among the first `k` documents is the failure of the whole
/// page.
pub proof fn lemma_csv_rows_prefix_err(s: Seq<JsonValue>, k: int)
    requires
        0 <= k <= s.len(),
        csv_rows(s.take(k)) is Err,
    ensures
        csv_rows(s) == csv_rows(s.take(k)),
    decreases s.len() - k,
{
    if k < s.len() {
        assert(s.take(k + 1).drop_last() =~= s.take(k));
        assert(s.take(k + 1).last() == s[k]);
        lemma_csv_rows_prefix_err(s, k + 1);
    } else {
        assert(s.take(k) =~= s);
    }
}

/// Concatenation of character sequences is associative.
proof fn lemma_concat_assoc(a: Seq<char>, b: Seq<char>, c: Seq<char>)
    ensures
        (a + b) + c == a + (b + c),
{
    assert((a + b) + c =~= a + (b + c));
}

/// The empty sequence is neutral on the right.
proof fn lemma_concat_empty(a: Seq<char>)
    ensures
        a + Seq::<char>::empty() == a,
{
    assert(a + Seq::<char>::empty() =~= a);
}

/// Decides whether the field must be quoted.
fn field_needs_quote(s: &str) -> (r: bool)
    ensures
        r == needs_quote(s@),
{
    let len = s.unicode_len();
    let mut i: usize = 0;
    while i < len
        invariant
            i <= len,
            len == s@.len(),
            forall|j: int| 0 <= j < i ==> !is_special(s@[j]),
        decreases len - i,
    {
        let c = s.get_char(i);
        if c == ',' || c == '"' || c == '\n' || c == '\r' {
            return true;
        }
        i = i + 1;
    }
    false
}

/// Appends the text of `s` with every double quote doubled.
fn push_doubled(s: &str, out: &mut String)
    ensures
        final(out)@ == old(out)@ + doubled(s@),
{
    let ghost pre = out@;
    let len = s.unicode_len();
    let mut i: usize = 0;
    proof {
        assert(s@.take(0) =~= Seq::<char>::empty());
        assert(out@ =~= pre + doubled(s@.take(0)));
    }
    while i < len
        invariant
            i <= len,
            len == s@.len(),
            out@ == pre + doubled(s@.take(i as int)),
        decreases len - i,
    {
        proof {
            assert(s@.take(i + 1).drop_last() =~= s@.take(i as int));
            assert(s@.take(i + 1).last() == s@[i as int]);
        }
        let c = s.get_char(i);
        if c == '"' {
            out.push('"');
            out.push('"');
        } else {
            out.push(c);
        }
        proof {
            assert(out@ =~= pre + doubled(s@.take(i + 1)));
        }
        i = i + 1;
    }
    proof {
        assert(s@.take(len as int) =~= s@);
    }
}

/// Appends the raw text of `s` (no special characters in it).
fn push_raw(s: &str, out: &mut String)
    ensures
        final(out)@ == old(out)@ + s@,
{
    let ghost pre = out@;
    let len = s.unicode_len();
    let mut i: usize = 0;
    proof {
        assert(s@.take(0) =~= Seq::<char>::empty());
        assert(out@ =~= pre + s@.take(0));
    }
    while i < len
        invariant
            i <= len,
            len == s@.len(),
            out@ == pre + s@.take(i as int),
        decreases len - i,
    {
        let c = s.get_char(i);
        out.push(c);
        proof {
            assert(out@ =~= pre + s@.take(i + 1));
        }
        i = i + 1;
    }
    proof {
        assert(s@.take(len as int) =~= s@);
    }
}

/// Appends one CSV field, quoting it when it needs quoting.
fn push_field(s: &str, out: &mut String)
    ensures
        final(out)@ == old(out)@ + csv_field(s@),
{
    let ghost pre = out@;
    if field_needs_quote(s) {
        out.push('"');
        push_doubled(s, out);
        out.push('"');
        proof {
            assert(out@ =~= pre + csv_field(s@));
        }
    } else {
        push_raw(s, out);
    }
}

/// Appends `true` or `false`.
fn push_bool(b: bool, out: &mut String)
    ensures
        final(out)@ == old(out)@ + bool_text(b),
{
    if b {
        out.append("true");
    } else {
        out.append("false");
    }
}

/// Appends the first half of a record's CSV line.
fn push_line_head(rec: &JobResultCsvResponse, out: &mut String)
    ensures
        final(out)@ == old(out)@ + csv_line_head(rec@),
{
    let ghost pre = out@;
    push_field(rec.input.as_str(), out);
    out.append(",");
    push_field(rec.is_reachable.as_str(), out);
    out.append(",");
    push_bool(rec.misc_is_disposable, out);
    out.append(",");
    push_bool(rec.misc_is_role_account, out);
    out.append(",");
    push_bool(rec.mx_accepts_mail, out);
    out.append(",");
    push_bool(rec.smtp_can_connect, out);
    out.append(",");
    push_bool(rec.smtp_has_full_inbox, out);
    out.append(",");
    proof {
        lemma_concat_assoc(pre, csv_field(rec@.input), ","@);
        lemma_concat_assoc(pre, csv_field(rec@.input) + ","@, csv_field(rec@.is_reachable));
        lemma_concat_assoc(pre, csv_field(rec@.input) + ","@ + csv_field(rec@.is_reachable), ","@);
        lemma_concat_assoc(pre, csv_field(rec@.input) + ","@ + csv_field(rec@.is_reachable) + ","@, bool_text(rec@.misc_is_disposable));
        lemma_concat_assoc(pre, csv_field(rec@.input) + ","@ + csv_field(rec@.is_reachable) + ","@ + bool_text(rec@.misc_is_disposable), ","@);
        lemma_concat_assoc(pre, csv_field(rec@.input) + ","@ + csv_field(rec@.is_reachable) + ","@ + bool_text(rec@.misc_is_disposable) + ","@, bool_text(rec@.misc_is_role_account));
        lemma_concat_assoc(pre, csv_field(rec@.input) + ","@ + csv_field(rec@.is_reachable) + ","@ + bool_text(rec@.misc_is_disposable) + ","@ + bool_text(rec@.misc_is_role_account), ","@);
        lemma_concat_assoc(pre, csv_field(rec@.input) + ","@ + csv_field(rec@.is_reachable) + ","@ + bool_text(rec@.misc_is_disposable) + ","@ + bool_text(rec@.misc_is_role_account) + ","@, bool_text(rec@.mx_accepts_mail));
        lemma_concat_assoc(pre, csv_field(rec@.input) + ","@ + csv_field(rec@.is_reachable) + ","@ + bool_text(rec@.misc_is_disposable) + ","@ + bool_text(rec@.misc_is_role_account) + ","@ + bool_text(rec@.mx_accepts_mail), ","@);
        lemma_concat_assoc(pre, csv_field(rec@.input) + ","@ + csv_field(rec@.is_reachable) + ","@ + bool_text(rec@.misc_is_disposable) + ","@ + bool_text(rec@.misc_is_role_account) + ","@ + bool_text(rec@.mx_accepts_mail) + ","@, bool_text(rec@.smtp_can_connect));
        lemma_concat_assoc(pre, csv_field(rec@.input) + ","@ + csv_field(rec@.is_reachable) + ","@ + bool_text(rec@.misc_is_disposable) + ","@ + bool_text(rec@.misc_is_role_account) + ","@ + bool_text(rec@.mx_accepts_mail) + ","@ + bool_text(rec@.smtp_can_connect), ","@);
        lemma_concat_assoc(pre, csv_field(rec@.input) + ","@ + csv_field(rec@.is_reachable) + ","@ + bool_text(rec@.misc_is_disposable) + ","@ + bool_text(rec@.misc_is_role_account) + ","@ + bool_text(rec@.mx_accepts_mail) + ","@ + bool_text(rec@.smtp_can_connect) + ","@, bool_text(rec@.smtp_has_full_inbox));
        lemma_concat_assoc(pre, csv_field(rec@.input) + ","@ + csv_field(rec@.is_reachable) + ","@ + bool_text(rec@.misc_is_disposable) + ","@ + bool_text(rec@.misc_is_role_account) + ","@ + bool_text(rec@.mx_accepts_mail) + ","@ + bool_text(rec@.smtp_can_connect) + ","@ + bool_text(rec@.smtp_has_full_inbox), ","@);
        assert(out@ == pre + csv_line_head(rec@));
    }
}

/// Appends the second half of a record's CSV line.
fn push_line_tail(rec: &JobResultCsvResponse, out: &mut String)
    ensures
        final(out)@ == old(out)@ + csv_line_tail(rec@),
{
    let ghost pre = out@;
    push_bool(rec.smtp_is_catch_all, out);
    out.append(",");
    push_bool(rec.smtp_is_deliverable, out);
    out.append(",");
    push_bool(rec.smtp_is_disabled, out);
    out.append(",");
    push_bool(rec.syntax_is_valid_syntax, out);
    out.append(",");
    push_field(rec.syntax_domain.as_str(), out);
    out.append(",");
    push_field(rec.syntax_username.as_str(), out);
    out.append(",");
    match &rec.error {
        Some(e) => push_field(e.as_str(), out),
        None => {},
    }
    out.append("\n");
    proof {
        lemma_concat_assoc(pre, bool_text(rec@.smtp_is_catch_all), ","@);
        lemma_concat_assoc(pre, bool_text(rec@.smtp_is_catch_all) + ","@, bool_text(rec@.smtp_is_deliverable));
        lemma_concat_assoc(pre, bool_text(rec@.smtp_is_catch_all) + ","@ + bool_text(rec@.smtp_is_deliverable), ","@);
        lemma_concat_assoc(pre, bool_text(rec@.smtp_is_catch_all) + ","@ + bool_text(rec@.smtp_is_deliverable) + ","@, bool_text(rec@.smtp_is_disabled));
        lemma_concat_assoc(pre, bool_text(rec@.smtp_is_catch_all) + ","@ + bool_text(rec@.smtp_is_deliverable) + ","@ + bool_text(rec@.smtp_is_disabled), ","@);
        lemma_concat_assoc(pre, bool_text(rec@.smtp_is_catch_all) + ","@ + bool_text(rec@.smtp_is_deliverable) + ","@ + bool_text(rec@.smtp_is_disabled) + ","@, bool_text(rec@.syntax_is_valid_syntax));
        lemma_concat_assoc(pre, bool_text(rec@.smtp_is_catch_all) + ","@ + bool_text(rec@.smtp_is_deliverable) + ","@ + bool_text(rec@.smtp_is_disabled) + ","@ + bool_text(rec@.syntax_is_valid_syntax), ","@);
        lemma_concat_assoc(pre, bool_text(rec@.smtp_is_catch_all) + ","@ + bool_text(rec@.smtp_is_deliverable) + ","@ + bool_text(rec@.smtp_is_disabled) + ","@ + bool_text(rec@.syntax_is_valid_syntax) + ","@, csv_field(rec@.syntax_domain));
        lemma_concat_assoc(pre, bool_text(rec@.smtp_is_catch_all) + ","@ + bool_text(rec@.smtp_is_deliverable) + ","@ + bool_text(rec@.smtp_is_disabled) + ","@ + bool_text(rec@.syntax_is_valid_syntax) + ","@ + csv_field(rec@.syntax_domain), ","@);
        lemma_concat_assoc(pre, bool_text(rec@.smtp_is_catch_all) + ","@ + bool_text(rec@.smtp_is_deliverable) + ","@ + bool_text(rec@.smtp_is_disabled) + ","@ + bool_text(rec@.syntax_is_valid_syntax) + ","@ + csv_field(rec@.syntax_domain) + ","@, csv_field(rec@.syntax_username));
        lemma_concat_assoc(pre, bool_text(rec@.smtp_is_catch_all) + ","@ + bool_text(rec@.smtp_is_deliverable) + ","@ + bool_text(rec@.smtp_is_disabled) + ","@ + bool_text(rec@.syntax_is_valid_syntax) + ","@ + csv_field(rec@.syntax_domain) + ","@ + csv_field(rec@.syntax_username), ","@);
        if rec@.error is None {
            lemma_concat_empty(pre + bool_text(rec@.smtp_is_catch_all) + ","@ + bool_text(rec@.smtp_is_deliverable) + ","@ + bool_text(rec@.smtp_is_disabled) + ","@ + bool_text(rec@.syntax_is_valid_syntax) + ","@ + csv_field(rec@.syntax_domain) + ","@ + csv_field(rec@.syntax_username) + ","@);
        }
        lemma_concat_assoc(pre, bool_text(rec@.smtp_is_catch_all) + ","@ + bool_text(rec@.smtp_is_deliverable) + ","@ + bool_text(rec@.smtp_is_disabled) + ","@ + bool_text(rec@.syntax_is_valid_syntax) + ","@ + csv_field(rec@.syntax_domain) + ","@ + csv_field(rec@.syntax_username) + ","@, err_field(rec@.error));
        lemma_concat_assoc(pre, bool_text(rec@.smtp_is_catch_all) + ","@ + bool_text(rec@.smtp_is_deliverable) + ","@ + bool_text(rec@.smtp_is_disabled) + ","@ + bool_text(rec@.syntax_is_valid_syntax) + ","@ + csv_field(rec@.syntax_domain) + ","@ + csv_field(rec@.syntax_username) + ","@ + err_field(rec@.error), "\n"@);
        assert(out@ == pre + csv_line_tail(rec@));
    }
}

/// Appends one record's CSV line.
pub fn push_line(rec: &JobResultCsvResponse, out: &mut String)
    ensures
        final(out)@ == old(out)@ + csv_line(rec@),
{
    let ghost pre = out@;
    push_line_head(rec, out);
    push_line_tail(rec, out);
    proof {
        lemma_concat_assoc(pre, csv_line_head(rec@), csv_line_tail(rec@));
        assert(out@ == pre + csv_line(rec@));
    }
}

} // verus!
