//! JSON rendering of document values, for the passthrough export path.
//!
//! The rendering is canonical: no whitespace, object entries in stored
//! order, strings quoted with the usual escapes (`\"`, `\\`, `\n`, `\r`,
//! `\t`, and `\u00XX` for the remaining control characters). Numbers keep
//! the decimal text they were stored with.

use vstd::prelude::*;

use crate::doc::JsonValue;
use vstd::string::StrSliceExecFns;

verus! {

/// The lowercase hex digit of `n`.
pub open spec fn hex_digit(n: int) -> char {
    if n == 0 {
        '0'
    } else if n == 1 {
        '1'
    } else if n == 2 {
        '2'
    } else if n == 3 {
        '3'
    } else if n == 4 {
        '4'
    } else if n == 5 {
        '5'
    } else if n == 6 {
        '6'
    } else if n == 7 {
        '7'
    } else if n == 8 {
        '8'
    } else if n == 9 {
        '9'
    } else if n == 10 {
        'a'
    } else if n == 11 {
        'b'
    } else if n == 12 {
        'c'
    } else if n == 13 {
        'd'
    } else if n == 14 {
        'e'
    } else {
        'f'
    }
}

fn hex_char(n: u32) -> (r: char)
    requires
        n < 16,
    ensures
        r == hex_digit(n as int),
{
    if n == 0 {
        '0'
    } else if n == 1 {
        '1'
    } else if n == 2 {
        '2'
    } else if n == 3 {
        '3'
    } else if n == 4 {
        '4'
    } else if n == 5 {
        '5'
    } else if n == 6 {
        '6'
    } else if n == 7 {
        '7'
    } else if n == 8 {
        '8'
    } else if n == 9 {
        '9'
    } else if n == 10 {
        'a'
    } else if n == 11 {
        'b'
    } else if n == 12 {
        'c'
    } else if n == 13 {
        'd'
    } else if n == 14 {
        'e'
    } else {
        'f'
    }
}

/// How one character appears inside a JSON string literal.
pub open spec fn escaped_char(c: char) -> Seq<char> {
    if c == '"' {
        seq!['\\', '"']
    } else if c == '\\' {
        seq!['\\', '\\']
    } else if c == '\n' {
        seq!['\\', 'n']
    } else if c == '\r' {
        seq!['\\', 'r']
    } else if c == '\t' {
        seq!['\\', 't']
    } else if (c as u32) < 32 {
        seq!['\\', 'u', '0', '0', hex_digit((c as int) / 16), hex_digit((c as int) % 16)]
    } else {
        seq![c]
    }
}

/// How a whole string appears inside a JSON string literal, quotes excluded.
pub open spec fn escaped(s: Seq<char>) -> Seq<char>
    decreases s.len(),
{
    if s.len() == 0 {
        Seq::empty()
    } else {
        escaped(s.drop_last()) + escaped_char(s.last())
    }
}

/// A JSON string literal: the escaped text between double quotes.
pub open spec fn quoted(s: Seq<char>) -> Seq<char> {
    seq!['"'] + escaped(s) + seq!['"']
}

/// The JSON text of a value.
pub open spec fn json_text(v: JsonValue) -> Seq<char>
    decreases v,
{
    match v {
        JsonValue::Null => "null"@,
        JsonValue::Bool(b) => if b {
            "true"@
        } else {
            "false"@
        },
        JsonValue::Num(t) => t@,
        JsonValue::Str(s) => quoted(s@),
        JsonValue::Arr(items) => seq!['['] + json_text_items(items@) + seq![']'],
        JsonValue::Obj(entries) => seq!['{'] + json_text_entries(entries@) + seq!['}'],
    }
}

/// The comma-separated JSON texts of a list of values.
pub open spec fn json_text_items(s: Seq<JsonValue>) -> Seq<char>
    decreases s,
{
    if s.len() == 0 {
        Seq::empty()
    } else if s.len() == 1 {
        json_text(s[0])
    } else {
        json_text_items(s.drop_last()) + seq![','] + json_text(s.last())
    }
}

/// The JSON text of one object entry: quoted key, colon, value.
pub open spec fn entry_text(e: (String, JsonValue)) -> Seq<char>
    decreases e,
{
    quoted(e.0@) + seq![':'] + json_text(e.1)
}

/// The comma-separated JSON texts of an object's entries.
pub open spec fn json_text_entries(s: Seq<(String, JsonValue)>) -> Seq<char>
    decreases s,
{
    if s.len() == 0 {
        Seq::empty()
    } else if s.len() == 1 {
        entry_text(s[0])
    } else {
        json_text_entries(s.drop_last()) + seq![','] + entry_text(s.last())
    }
}

/// Appends the escaped form of `s` to `out`.
fn escape_into(s: &str, out: &mut String)
    ensures
        final(out)@ == old(out)@ + escaped(s@),
{
    let ghost pre = out@;
    let len = s.unicode_len();
    let mut i: usize = 0;
    proof {
        assert(s@.take(0) =~= Seq::<char>::empty());
        assert(out@ =~= pre + escaped(s@.take(0)));
    }
    while i < len
        invariant
            i <= len,
            len == s@.len(),
            out@ == pre + escaped(s@.take(i as int)),
        decreases len - i,
    {
        proof {
            assert(s@.take(i + 1).drop_last() =~= s@.take(i as int));
            assert(s@.take(i + 1).last() == s@[i as int]);
        }
        let c = s.get_char(i);
        if c == '"' {
            out.push('\\');
            out.push('"');
        } else if c == '\\' {
            out.push('\\');
            out.push('\\');
        } else if c == '\n' {
            out.push('\\');
            out.push('n');
        } else if c == '\r' {
            out.push('\\');
            out.push('r');
        } else if c == '\t' {
            out.push('\\');
            out.push('t');
        } else if (c as u32) < 32 {
            let code = c as u32;
            out.push('\\');
            out.push('u');
            out.push('0');
            out.push('0');
            out.push(hex_char(code / 16));
            out.push(hex_char(code % 16));
        } else {
            out.push(c);
        }
        proof {
            assert(out@ =~= pre + escaped(s@.take(i + 1)));
        }
        i = i + 1;
    }
    proof {
        assert(s@.take(len as int) =~= s@);
    }
}

impl JsonValue {
    /// Appends the JSON text of the value to `out`.
    pub fn render_into(&self, out: &mut String)
        ensures
            final(out)@ == old(out)@ + json_text(*self),
        decreases *self,
    {
        match self {
            JsonValue::Null => {
                out.append("null");
            },
            JsonValue::Bool(b) => {
                if *b {
                    out.append("true");
                } else {
                    out.append("false");
                }
            },
            JsonValue::Num(t) => {
                out.append(t.as_str());
            },
            JsonValue::Str(s) => {
                let ghost pre = out@;
                out.push('"');
                escape_into(s.as_str(), out);
                out.push('"');
                proof {
                    assert(out@ =~= pre + quoted(s@));
                }
            },
            JsonValue::Arr(items) => {
                let ghost pre = out@;
                out.push('[');
                proof {
                    assert(out@ =~= pre + seq!['['] + json_text_items(items@.take(0)));
                }
                let mut i: usize = 0;
                while i < items.len()
                    invariant
                        i <= items@.len(),
                        out@ == pre + seq!['['] + json_text_items(items@.take(i as int)),
                        *self == JsonValue::Arr(*items),
                    decreases items@.len() - i,
                {
                    proof {
                        assert(items@.take(i + 1).drop_last() =~= items@.take(i as int));
                        assert(items@.take(i + 1).last() == items@[i as int]);
                        assert(decreases_to!(*self => self->Arr_0));
                        assert(self->Arr_0 == *items);
                        assert(decreases_to!(*items => items@));
                        assert(decreases_to!(items@ => items@[i as int]));
                    }
                    if i > 0 {
                        out.push(',');
                    }
                    items[i].render_into(out);
                    proof {
                        assert(out@ =~= pre + seq!['['] + json_text_items(items@.take(i + 1)));
                    }
                    i = i + 1;
                }
                out.push(']');
                proof {
                    assert(items@.take(items@.len() as int) =~= items@);
                    assert(out@ =~= pre + json_text(*self));
                }
            },
            JsonValue::Obj(entries) => {
                let ghost pre = out@;
                out.push('{');
                proof {
                    assert(out@ =~= pre + seq!['{'] + json_text_entries(entries@.take(0)));
                }
                let mut i: usize = 0;
                while i < entries.len()
                    invariant
                        i <= entries@.len(),
                        out@ == pre + seq!['{'] + json_text_entries(entries@.take(i as int)),
                        *self == JsonValue::Obj(*entries),
                    decreases entries@.len() - i,
                {
                    proof {
                        assert(entries@.take(i + 1).drop_last() =~= entries@.take(i as int));
                        assert(entries@.take(i + 1).last() == entries@[i as int]);
                        assert(decreases_to!(*self => self->Obj_0));
                        assert(self->Obj_0 == *entries);
                        assert(decreases_to!(*entries => entries@));
                        assert(decreases_to!(entries@ => entries@[i as int]));
                        assert(decreases_to!(entries@[i as int] => entries@[i as int].1));
                    }
                    if i > 0 {
                        out.push(',');
                    }
                    let ghost mid = out@;
                    out.push('"');
                    escape_into(entries[i].0.as_str(), out);
                    out.push('"');
                    out.push(':');
                    proof {
                        assert(out@ =~= mid + quoted(entries@[i as int].0@) + seq![':']);
                    }
                    entries[i].1.render_into(out);
                    proof {
                        assert(out@ =~= mid + entry_text(entries@[i as int]));
                        assert(out@ =~= pre + seq!['{'] + json_text_entries(entries@.take(i + 1)));
                    }
                    i = i + 1;
                }
                out.push('}');
                proof {
                    assert(entries@.take(entries@.len() as int) =~= entries@);
                    assert(out@ =~= pre + json_text(*self));
                }
            },
        }
    }

    /// The JSON text of the value.
    pub fn render(&self) -> (r: String)
        ensures
            r@ == json_text(*self),
    {
        let mut out = String::new();
        self.render_into(&mut out);
        out
    }
}

} // verus!
