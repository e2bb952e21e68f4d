//! The flattening converter: one semi-structured verification document
//! becomes one fixed-width flat record.
//!
//! The conversion is an ordered extraction pass. The top level must be an
//! object; each recognized field is looked up, type-checked, and written to
//! its slot, in this fixed order: `input`, `is_reachable`, then the sections
//! `misc`, `mx`, `smtp`, `syntax` with their recognized sub-fields. Absent
//! fields keep their zero value (`""`, `false`, no error); unknown keys are
//! ignored; a recognized field of the wrong type aborts the whole conversion.
//! The `error` sub-field may appear in any of the four sections; the one in
//! the section processed last wins. That "last wins, fixed traversal order"
//! rule is kept deliberately, quirk and all: only one error is surfaced per
//! row even when several sections failed independently.

use vstd::prelude::*;

use crate::doc::JsonValue;
use crate::doc::find_entry;
use crate::doc::lookup;
use vstd::string::StringExecFns;

verus! {

/// The recognized field a conversion failure points at.
#[derive(Clone, Copy, Debug, PartialEq, Eq, Structural)]
pub enum Field {
    Input,
    IsReachable,
    Misc,
    MiscIsDisposable,
    MiscIsRoleAccount,
    MiscError,
    Mx,
    MxAcceptsEmail,
    MxError,
    Smtp,
    SmtpCanConnect,
    SmtpHasFullInbox,
    SmtpIsCatchAll,
    SmtpIsDeliverable,
    SmtpIsDisabled,
    SmtpError,
    Syntax,
    SyntaxIsValidSyntax,
    SyntaxUsername,
    SyntaxDomain,
    SyntaxError,
}

impl Field {
    /// The dotted path of the field inside a verification document.
    pub open spec fn path_spec(self) -> Seq<char> {
        match self {
            Field::Input => "input"@,
            Field::IsReachable => "is_reachable"@,
            Field::Misc => "misc"@,
            Field::MiscIsDisposable => "misc.is_disposable"@,
            Field::MiscIsRoleAccount => "misc.is_role_account"@,
            Field::MiscError => "misc.error"@,
            Field::Mx => "mx"@,
            Field::MxAcceptsEmail => "mx.accepts_email"@,
            Field::MxError => "mx.error"@,
            Field::Smtp => "smtp"@,
            Field::SmtpCanConnect => "smtp.can_connect_smtp"@,
            Field::SmtpHasFullInbox => "smtp.has_full_inbox"@,
            Field::SmtpIsCatchAll => "smtp.is_catch_all"@,
            Field::SmtpIsDeliverable => "smtp.is_deliverable"@,
            Field::SmtpIsDisabled => "smtp.is_disabled"@,
            Field::SmtpError => "smtp.error"@,
            Field::Syntax => "syntax"@,
            Field::SyntaxIsValidSyntax => "syntax.is_valid_syntax"@,
            Field::SyntaxUsername => "syntax.username"@,
            Field::SyntaxDomain => "syntax.domain"@,
            Field::SyntaxError => "syntax.error"@,
        }
    }

    /// The dotted path of the field, for error reports.
    pub fn path(&self) -> (r: String)
        ensures
            r@ == self.path_spec(),
    {
        match self {
            Field::Input => String::from_str("input"),
            Field::IsReachable => String::from_str("is_reachable"),
            Field::Misc => String::from_str("misc"),
            Field::MiscIsDisposable => String::from_str("misc.is_disposable"),
            Field::MiscIsRoleAccount => String::from_str("misc.is_role_account"),
            Field::MiscError => String::from_str("misc.error"),
            Field::Mx => String::from_str("mx"),
            Field::MxAcceptsEmail => String::from_str("mx.accepts_email"),
            Field::MxError => String::from_str("mx.error"),
            Field::Smtp => String::from_str("smtp"),
            Field::SmtpCanConnect => String::from_str("smtp.can_connect_smtp"),
            Field::SmtpHasFullInbox => String::from_str("smtp.has_full_inbox"),
            Field::SmtpIsCatchAll => String::from_str("smtp.is_catch_all"),
            Field::SmtpIsDeliverable => String::from_str("smtp.is_deliverable"),
            Field::SmtpIsDisabled => String::from_str("smtp.is_disabled"),
            Field::SmtpError => String::from_str("smtp.error"),
            Field::Syntax => String::from_str("syntax"),
            Field::SyntaxIsValidSyntax => String::from_str("syntax.is_valid_syntax"),
            Field::SyntaxUsername => String::from_str("syntax.username"),
            Field::SyntaxDomain => String::from_str("syntax.domain"),
            Field::SyntaxError => String::from_str("syntax.error"),
        }
    }
}

/// Why flattening a document failed.
#[derive(Clone, Copy, Debug, PartialEq, Eq, Structural)]
pub enum ConversionError {
    /// The top level of the document is not an object.
    MalformedDocument,
    /// A recognized field is present but has the wrong type.
    TypeMismatch(Field),
}

/// The mathematical content of a flat record.
#[verifier::ext_equal]
pub ghost struct FlatModel {
    pub input: Seq<char>,
    pub is_reachable: Seq<char>,
    pub misc_is_disposable: bool,
    pub misc_is_role_account: bool,
    pub mx_accepts_mail: bool,
    pub smtp_can_connect: bool,
    pub smtp_has_full_inbox: bool,
    pub smtp_is_catch_all: bool,
    pub smtp_is_deliverable: bool,
    pub smtp_is_disabled: bool,
    pub syntax_is_valid_syntax: bool,
    pub syntax_domain: Seq<char>,
    pub syntax_username: Seq<char>,
    pub error: Option<Seq<char>>,
}

/// The fixed tabular record a document is flattened into: thirteen typed
/// fields plus one optional error string.
#[derive(Debug, Clone, PartialEq, Eq)]
pub struct JobResultCsvResponse {
    pub input: String,
    pub is_reachable: String,
    pub misc_is_disposable: bool,
    pub misc_is_role_account: bool,
    pub mx_accepts_mail: bool,
    pub smtp_can_connect: bool,
    pub smtp_has_full_inbox: bool,
    pub smtp_is_catch_all: bool,
    pub smtp_is_deliverable: bool,
    pub smtp_is_disabled: bool,
    pub syntax_is_valid_syntax: bool,
    pub syntax_domain: String,
    pub syntax_username: String,
    pub error: Option<String>,
}

impl View for JobResultCsvResponse {
    type V = FlatModel;

    open spec fn view(&self) -> FlatModel {
        FlatModel {
            input: self.input@,
            is_reachable: self.is_reachable@,
            misc_is_disposable: self.misc_is_disposable,
            misc_is_role_account: self.misc_is_role_account,
            mx_accepts_mail: self.mx_accepts_mail,
            smtp_can_connect: self.smtp_can_connect,
            smtp_has_full_inbox: self.smtp_has_full_inbox,
            smtp_is_catch_all: self.smtp_is_catch_all,
            smtp_is_deliverable: self.smtp_is_deliverable,
            smtp_is_disabled: self.smtp_is_disabled,
            syntax_is_valid_syntax: self.syntax_is_valid_syntax,
            syntax_domain: self.syntax_domain@,
            syntax_username: self.syntax_username@,
            error: match self.error {
                Some(s) => Some(s@),
                None => None,
            },
        }
    }
}

/// A recognized string field is present with a non-string value.
pub open spec fn bad_str(es: Seq<(String, JsonValue)>, key: Seq<char>) -> bool {
    match lookup(es, key) {
        Some(v) => !(v is Str),
        None => false,
    }
}

/// The string bound to `key`, or `""` when the key is absent.
pub open spec fn str_or_empty(es: Seq<(String, JsonValue)>, key: Seq<char>) -> Seq<char> {
    match lookup(es, key) {
        Some(v) => if v is Str {
            v->Str_0@
        } else {
            Seq::empty()
        },
        None => Seq::empty(),
    }
}

/// The string bound to `key`, or `None` when the key is absent.
pub open spec fn opt_str(es: Seq<(String, JsonValue)>, key: Seq<char>) -> Option<Seq<char>> {
    match lookup(es, key) {
        Some(v) => if v is Str {
            Some(v->Str_0@)
        } else {
            None
        },
        None => None,
    }
}

/// A recognized boolean field is present with a non-boolean value.
pub open spec fn bad_bool(es: Seq<(String, JsonValue)>, key: Seq<char>) -> bool {
    match lookup(es, key) {
        Some(v) => !(v is Bool),
        None => false,
    }
}

/// The boolean bound to `key`, or `false` when the key is absent.
pub open spec fn bool_or_false(es: Seq<(String, JsonValue)>, key: Seq<char>) -> bool {
    match lookup(es, key) {
        Some(v) => v is Bool && v->Bool_0,
        None => false,
    }
}

/// A recognized section is present but is not an object.
pub open spec fn bad_obj(es: Seq<(String, JsonValue)>, key: Seq<char>) -> bool {
    match lookup(es, key) {
        Some(v) => !(v is Obj),
        None => false,
    }
}

/// The entries of the section named `key`, or no entries when it is absent.
pub open spec fn sub_entries(es: Seq<(String, JsonValue)>, key: Seq<char>) -> Seq<
    (String, JsonValue),
> {
    match lookup(es, key) {
        Some(v) => if v is Obj {
            v->Obj_0@
        } else {
            Seq::empty()
        },
        None => Seq::empty(),
    }
}

/// The collapsed error: each section's `error`, if present, overwrites the
/// previous one, in the fixed order `misc`, `mx`, `smtp`, `syntax`.
pub open spec fn collapsed_error(top: Seq<(String, JsonValue)>) -> Option<Seq<char>> {
    let e1 = opt_str(sub_entries(top, "misc"@), "error"@);
    let e2 = match opt_str(sub_entries(top, "mx"@), "error"@) {
        Some(e) => Some(e),
        None => e1,
    };
    let e3 = match opt_str(sub_entries(top, "smtp"@), "error"@) {
        Some(e) => Some(e),
        None => e2,
    };
    match opt_str(sub_entries(top, "syntax"@), "error"@) {
        Some(e) => Some(e),
        None => e3,
    }
}

/// What flattening a document yields: the flat record, or the first failure
/// of the ordered extraction pass.
pub open spec fn flatten_spec(v: JsonValue) -> Result<FlatModel, ConversionError> {
    if !(v is Obj) {
        Err(ConversionError::MalformedDocument)
    } else {
        let top = v->Obj_0@;
        let misc = sub_entries(top, "misc"@);
        let mx = sub_entries(top, "mx"@);
        let smtp = sub_entries(top, "smtp"@);
        let syntax = sub_entries(top, "syntax"@);
        if bad_str(top, "input"@) {
            Err(ConversionError::TypeMismatch(Field::Input))
        } else if bad_str(top, "is_reachable"@) {
            Err(ConversionError::TypeMismatch(Field::IsReachable))
        } else if bad_obj(top, "misc"@) {
            Err(ConversionError::TypeMismatch(Field::Misc))
        } else if bad_bool(misc, "is_disposable"@) {
            Err(ConversionError::TypeMismatch(Field::MiscIsDisposable))
        } else if bad_bool(misc, "is_role_account"@) {
            Err(ConversionError::TypeMismatch(Field::MiscIsRoleAccount))
        } else if bad_str(misc, "error"@) {
            Err(ConversionError::TypeMismatch(Field::MiscError))
        } else if bad_obj(top, "mx"@) {
            Err(ConversionError::TypeMismatch(Field::Mx))
        } else if bad_bool(mx, "accepts_email"@) {
            Err(ConversionError::TypeMismatch(Field::MxAcceptsEmail))
        } else if bad_str(mx, "error"@) {
            Err(ConversionError::TypeMismatch(Field::MxError))
        } else if bad_obj(top, "smtp"@) {
            Err(ConversionError::TypeMismatch(Field::Smtp))
        } else if bad_bool(smtp, "can_connect_smtp"@) {
            Err(ConversionError::TypeMismatch(Field::SmtpCanConnect))
        } else if bad_bool(smtp, "has_full_inbox"@) {
            Err(ConversionError::TypeMismatch(Field::SmtpHasFullInbox))
        } else if bad_bool(smtp, "is_catch_all"@) {
            Err(ConversionError::TypeMismatch(Field::SmtpIsCatchAll))
        } else if bad_bool(smtp, "is_deliverable"@) {
            Err(ConversionError::TypeMismatch(Field::SmtpIsDeliverable))
        } else if bad_bool(smtp, "is_disabled"@) {
            Err(ConversionError::TypeMismatch(Field::SmtpIsDisabled))
        } else if bad_str(smtp, "error"@) {
            Err(ConversionError::TypeMismatch(Field::SmtpError))
        } else if bad_obj(top, "syntax"@) {
            Err(ConversionError::TypeMismatch(Field::Syntax))
        } else if bad_bool(syntax, "is_valid_syntax"@) {
            Err(ConversionError::TypeMismatch(Field::SyntaxIsValidSyntax))
        } else if bad_str(syntax, "username"@) {
            Err(ConversionError::TypeMismatch(Field::SyntaxUsername))
        } else if bad_str(syntax, "domain"@) {
            Err(ConversionError::TypeMismatch(Field::SyntaxDomain))
        } else if bad_str(syntax, "error"@) {
            Err(ConversionError::TypeMismatch(Field::SyntaxError))
        } else {
            Ok(
                FlatModel {
                    input: str_or_empty(top, "input"@),
                    is_reachable: str_or_empty(top, "is_reachable"@),
                    misc_is_disposable: bool_or_false(misc, "is_disposable"@),
                    misc_is_role_account: bool_or_false(misc, "is_role_account"@),
                    mx_accepts_mail: bool_or_false(mx, "accepts_email"@),
                    smtp_can_connect: bool_or_false(smtp, "can_connect_smtp"@),
                    smtp_has_full_inbox: bool_or_false(smtp, "has_full_inbox"@),
                    smtp_is_catch_all: bool_or_false(smtp, "is_catch_all"@),
                    smtp_is_deliverable: bool_or_false(smtp, "is_deliverable"@),
                    smtp_is_disabled: bool_or_false(smtp, "is_disabled"@),
                    syntax_is_valid_syntax: bool_or_false(syntax, "is_valid_syntax"@),
                    syntax_domain: str_or_empty(syntax, "domain"@),
                    syntax_username: str_or_empty(syntax, "username"@),
                    error: collapsed_error(top),
                },
            )
        }
    }
}

/// Looks up a recognized string field: the string (or `""` when absent), or
/// a type mismatch on `f`.
fn get_str_field(entries: &Vec<(String, JsonValue)>, key: &String, f: Field) -> (r: Result<
    String,
    ConversionError,
>)
    ensures
        bad_str(entries@, key@) ==> r == Err::<String, ConversionError>(
            ConversionError::TypeMismatch(f),
        ),
        !bad_str(entries@, key@) ==> r is Ok && r->Ok_0@ == str_or_empty(entries@, key@),
{
    match find_entry(entries, key) {
        None => Ok(String::new()),
        Some(v) => match v {
            JsonValue::Str(s) => Ok(s.clone()),
            _ => Err(ConversionError::TypeMismatch(f)),
        },
    }
}

/// Looks up a recognized string field that may stay unset: the string when
/// present, `None` when absent, or a type mismatch on `f`.
fn get_opt_str_field(entries: &Vec<(String, JsonValue)>, key: &String, f: Field) -> (r: Result<
    Option<String>,
    ConversionError,
>)
    ensures
        bad_str(entries@, key@) ==> r == Err::<Option<String>, ConversionError>(
            ConversionError::TypeMismatch(f),
        ),
        !bad_str(entries@, key@) ==> r is Ok && match r->Ok_0 {
            Some(s) => opt_str(entries@, key@) == Some(s@),
            None => opt_str(entries@, key@) is None,
        },
{
    match find_entry(entries, key) {
        None => Ok(None),
        Some(v) => match v {
            JsonValue::Str(s) => Ok(Some(s.clone())),
            _ => Err(ConversionError::TypeMismatch(f)),
        },
    }
}

/// Looks up a recognized boolean field: the boolean (or `false` when
/// absent), or a type mismatch on `f`.
fn get_bool_field(entries: &Vec<(String, JsonValue)>, key: &String, f: Field) -> (r: Result<
    bool,
    ConversionError,
>)
    ensures
        bad_bool(entries@, key@) ==> r == Err::<bool, ConversionError>(
            ConversionError::TypeMismatch(f),
        ),
        !bad_bool(entries@, key@) ==> r == Ok::<bool, ConversionError>(
            bool_or_false(entries@, key@),
        ),
{
    match find_entry(entries, key) {
        None => Ok(false),
        Some(v) => match v {
            JsonValue::Bool(b) => Ok(*b),
            _ => Err(ConversionError::TypeMismatch(f)),
        },
    }
}

impl JobResultCsvResponse {
    /// Flattens one verification document, exactly as [`flatten_spec`] says:
    /// the record of the extracted fields, or the first failure of the
    /// ordered extraction pass.
    pub fn try_from_doc(v: &JsonValue) -> (r: Result<JobResultCsvResponse, ConversionError>)
        ensures
            match r {
                Ok(rec) => flatten_spec(*v) == Ok::<FlatModel, ConversionError>(rec@),
                Err(e) => flatten_spec(*v) == Err::<FlatModel, ConversionError>(e),
            },
    {
        let entries = match v {
            JsonValue::Obj(es) => es,
            _ => { return Err(ConversionError::MalformedDocument) },
        };
        let error_key = String::from_str("error");

        let input = match get_str_field(entries, &String::from_str("input"), Field::Input) {
            Ok(s) => s,
            Err(e) => { return Err(e) },
        };
        let is_reachable = match get_str_field(
            entries,
            &String::from_str("is_reachable"),
            Field::IsReachable,
        ) {
            Ok(s) => s,
            Err(e) => { return Err(e) },
        };

        let mut error: Option<String> = None;

        // misc
        let mut misc_is_disposable = false;
        let mut misc_is_role_account = false;
        match find_entry(entries, &String::from_str("misc")) {
            None => {},
            Some(JsonValue::Obj(sub)) => {
                misc_is_disposable = match get_bool_field(
                    sub,
                    &String::from_str("is_disposable"),
                    Field::MiscIsDisposable,
                ) {
                    Ok(b) => b,
                    Err(e) => { return Err(e) },
                };
                misc_is_role_account = match get_bool_field(
                    sub,
                    &String::from_str("is_role_account"),
                    Field::MiscIsRoleAccount,
                ) {
                    Ok(b) => b,
                    Err(e) => { return Err(e) },
                };
                match get_opt_str_field(sub, &error_key, Field::MiscError) {
                    Ok(Some(s)) => error = Some(s),
                    Ok(None) => {},
                    Err(e) => { return Err(e) },
                }
            },
            Some(_) => { return Err(ConversionError::TypeMismatch(Field::Misc)) },
        }

        // mx
        let mut mx_accepts_mail = false;
        match find_entry(entries, &String::from_str("mx")) {
            None => {},
            Some(JsonValue::Obj(sub)) => {
                mx_accepts_mail = match get_bool_field(
                    sub,
                    &String::from_str("accepts_email"),
                    Field::MxAcceptsEmail,
                ) {
                    Ok(b) => b,
                    Err(e) => { return Err(e) },
                };
                match get_opt_str_field(sub, &error_key, Field::MxError) {
                    Ok(Some(s)) => error = Some(s),
                    Ok(None) => {},
                    Err(e) => { return Err(e) },
                }
            },
            Some(_) => { return Err(ConversionError::TypeMismatch(Field::Mx)) },
        }

        // smtp
        let mut smtp_can_connect = false;
        let mut smtp_has_full_inbox = false;
        let mut smtp_is_catch_all = false;
        let mut smtp_is_deliverable = false;
        let mut smtp_is_disabled = false;
        match find_entry(entries, &String::from_str("smtp")) {
            None => {},
            Some(JsonValue::Obj(sub)) => {
                smtp_can_connect = match get_bool_field(
                    sub,
                    &String::from_str("can_connect_smtp"),
                    Field::SmtpCanConnect,
                ) {
                    Ok(b) => b,
                    Err(e) => { return Err(e) },
                };
                smtp_has_full_inbox = match get_bool_field(
                    sub,
                    &String::from_str("has_full_inbox"),
                    Field::SmtpHasFullInbox,
                ) {
                    Ok(b) => b,
                    Err(e) => { return Err(e) },
                };
                smtp_is_catch_all = match get_bool_field(
                    sub,
                    &String::from_str("is_catch_all"),
                    Field::SmtpIsCatchAll,
                ) {
                    Ok(b) => b,
                    Err(e) => { return Err(e) },
                };
                smtp_is_deliverable = match get_bool_field(
                    sub,
                    &String::from_str("is_deliverable"),
                    Field::SmtpIsDeliverable,
                ) {
                    Ok(b) => b,
                    Err(e) => { return Err(e) },
                };
                smtp_is_disabled = match get_bool_field(
                    sub,
                    &String::from_str("is_disabled"),
                    Field::SmtpIsDisabled,
                ) {
                    Ok(b) => b,
                    Err(e) => { return Err(e) },
                };
                match get_opt_str_field(sub, &error_key, Field::SmtpError) {
                    Ok(Some(s)) => error = Some(s),
                    Ok(None) => {},
                    Err(e) => { return Err(e) },
                }
            },
            Some(_) => { return Err(ConversionError::TypeMismatch(Field::Smtp)) },
        }

        // syntax
        let mut syntax_is_valid_syntax = false;
        let mut syntax_domain = String::new();
        let mut syntax_username = String::new();
        match find_entry(entries, &String::from_str("syntax")) {
            None => {},
            Some(JsonValue::Obj(sub)) => {
                syntax_is_valid_syntax = match get_bool_field(
                    sub,
                    &String::from_str("is_valid_syntax"),
                    Field::SyntaxIsValidSyntax,
                ) {
                    Ok(b) => b,
                    Err(e) => { return Err(e) },
                };
                syntax_username = match get_str_field(
                    sub,
                    &String::from_str("username"),
                    Field::SyntaxUsername,
                ) {
                    Ok(s) => s,
                    Err(e) => { return Err(e) },
                };
                syntax_domain = match get_str_field(
                    sub,
                    &String::from_str("domain"),
                    Field::SyntaxDomain,
                ) {
                    Ok(s) => s,
                    Err(e) => { return Err(e) },
                };
                match get_opt_str_field(sub, &error_key, Field::SyntaxError) {
                    Ok(Some(s)) => error = Some(s),
                    Ok(None) => {},
                    Err(e) => { return Err(e) },
                }
            },
            Some(_) => { return Err(ConversionError::TypeMismatch(Field::Syntax)) },
        }

        let rec = JobResultCsvResponse {
            input,
            is_reachable,
            misc_is_disposable,
            misc_is_role_account,
            mx_accepts_mail,
            smtp_can_connect,
            smtp_has_full_inbox,
            smtp_is_catch_all,
            smtp_is_deliverable,
            smtp_is_disabled,
            syntax_is_valid_syntax,
            syntax_domain,
            syntax_username,
            error,
        };
        proof {
            assert(rec@ =~= flatten_spec(*v)->Ok_0);
        }
        Ok(rec)
    }
}

/// The conversion is pure: two flattenings of equal documents agree, so
/// converting the same document twice yields identical flat records.
pub proof fn lemma_flatten_pure(
    d1: JsonValue,
    d2: JsonValue,
    r1: Result<FlatModel, ConversionError>,
    r2: Result<FlatModel, ConversionError>,
)
    requires
        d1 == d2,
        r1 == flatten_spec(d1),
        r2 == flatten_spec(d2),
    ensures
        r1 == r2,
{
}

} // verus!
