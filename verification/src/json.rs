//! Pretty-printed JSON for a configuration: two-space indentation, one
//! key per line, string escaping as JSON requires (quote, backslash, and
//! control characters; short escapes for backspace, tab, line feed, form
//! feed and carriage return, `\u00XX` for the rest).

use vstd::prelude::*;
use crate::config::{Config, ConfigValue, EntryModel, ValueModel, texts_of};
use crate::text::{
    bool_str, bool_text, dec_int_text, hex_char, hex_digit_str, joined_texts, push_char,
    push_i32_dec,
};

verus! {

/// The encoding of one character inside a JSON string literal.
pub open spec fn json_escape_char(c: char) -> Seq<char> {
    if c == '"' {
        "\\\""@
    } else if c == '\\' {
        "\\\\"@
    } else if c == '\u{08}' {
        "\\b"@
    } else if c == '\t' {
        "\\t"@
    } else if c == '\n' {
        "\\n"@
    } else if c == '\u{0C}' {
        "\\f"@
    } else if c == '\r' {
        "\\r"@
    } else if (c as u32) < 32 {
        "\\u00"@ + seq![hex_char(((c as u32) / 16) as int), hex_char(((c as u32) % 16) as int)]
    } else {
        seq![c]
    }
}

/// The body of a JSON string literal: every character escaped as required.
pub open spec fn json_escaped(s: Seq<char>) -> Seq<char>
    decreases s.len(),
{
    if s.len() == 0 {
        Seq::<char>::empty()
    } else {
        json_escaped(s.drop_last()) + json_escape_char(s.last())
    }
}

/// A JSON string literal: the escaped body between double quotes.
pub open spec fn json_quoted(s: Seq<char>) -> Seq<char> {
    "\""@ + json_escaped(s) + "\""@
}

/// One array element line, indented below an object value.
pub open spec fn json_item_text(s: Seq<char>) -> Seq<char> {
    "    "@ + json_quoted(s)
}

/// The element lines of a string array, in order.
pub open spec fn json_array_items(items: Seq<Seq<char>>) -> Seq<Seq<char>> {
    Seq::new(items.len(), |i: int| json_item_text(items[i]))
}

/// A string array as an object value: empty brackets, or one element per
/// line with the closing bracket indented one level.
pub open spec fn json_array_text(items: Seq<Seq<char>>) -> Seq<char> {
    if items.len() == 0 {
        "[]"@
    } else {
        "[\n"@ + joined_texts(json_array_items(items), ",\n"@) + "\n  ]"@
    }
}

/// The encoding of one policy value.
pub open spec fn json_value_text(v: ValueModel) -> Seq<char> {
    match v {
        ValueModel::Bool(b) => bool_text(b),
        ValueModel::Text(s) => json_quoted(s),
        ValueModel::Integer(n) => dec_int_text(n),
        ValueModel::TextList(items) => json_array_text(items),
    }
}

/// One object entry line: the quoted key, a colon, and the value.
pub open spec fn json_entry_text(e: EntryModel) -> Seq<char> {
    "  "@ + json_quoted(e.key) + ": "@ + json_value_text(e.value)
}

/// The entry lines of an object, in entry order.
pub open spec fn json_entry_texts(entries: Seq<EntryModel>) -> Seq<Seq<char>> {
    Seq::new(entries.len(), |i: int| json_entry_text(entries[i]))
}

/// A whole configuration as a pretty-printed JSON object.
pub open spec fn json_object_text(entries: Seq<EntryModel>) -> Seq<char> {
    if entries.len() == 0 {
        "{}"@
    } else {
        "{\n"@ + joined_texts(json_entry_texts(entries), ",\n"@) + "\n}"@
    }
}

/// Appends the escaped body of a JSON string literal.
pub fn push_json_escaped(out: &mut String, s: &str)
    ensures
        final(out)@ == old(out)@ + json_escaped(s@),
{
    let n = s.unicode_len();
    let mut i: usize = 0;
    while i < n
        invariant
            n == s@.len(),
            0 <= i <= n,
            out@ == old(out)@ + json_escaped(s@.take(i as int)),
        decreases n - i,
    {
        let c = s.get_char(i);
        if c == '"' {
            out.append("\\\"");
        } else if c == '\\' {
            out.append("\\\\");
        } else if c == '\u{08}' {
            out.append("\\b");
        } else if c == '\t' {
            out.append("\\t");
        } else if c == '\n' {
            out.append("\\n");
        } else if c == '\u{0C}' {
            out.append("\\f");
        } else if c == '\r' {
            out.append("\\r");
        } else {
            let code = c as u32;
            if code < 32 {
                out.append("\\u00");
                out.append(hex_digit_str(code / 16));
                out.append(hex_digit_str(code % 16));
            } else {
                push_char(out, c);
            }
        }
        proof {
            assert(s@.take(i + 1).drop_last() =~= s@.take(i as int));
            assert(s@.take(i + 1).last() == s@[i as int]);
            assert(out@ =~= old(out)@ + json_escaped(s@.take(i + 1)));
        }
        i += 1;
    }
    proof {
        assert(s@.take(n as int) =~= s@);
    }
}

/// Appends a JSON string literal.
pub fn push_json_quoted(out: &mut String, s: &str)
    ensures
        final(out)@ == old(out)@ + json_quoted(s@),
{
    out.append("\"");
    push_json_escaped(out, s);
    out.append("\"");
    proof {
        assert(out@ =~= old(out)@ + json_quoted(s@));
    }
}

/// Appends a string array value.
pub fn push_json_array(out: &mut String, items: &Vec<String>)
    ensures
        final(out)@ == old(out)@ + json_array_text(texts_of(items@)),
{
    let ghost texts = texts_of(items@);
    let ghost frags = json_array_items(texts);
    if items.len() == 0 {
        out.append("[]");
        return;
    }
    out.append("[\n");
    let mut i: usize = 0;
    while i < items.len()
        invariant
            texts == texts_of(items@),
            frags == json_array_items(texts),
            frags.len() == items@.len(),
            0 < items@.len(),
            0 <= i <= items@.len(),
            i == 0 ==> out@ == old(out)@ + "[\n"@,
            i > 0 ==> out@ == old(out)@ + "[\n"@ + joined_texts(frags.take(i as int), ",\n"@),
        decreases items@.len() - i,
    {
        let ghost pre = out@;
        if i > 0 {
            out.append(",\n");
        }
        out.append("    ");
        push_json_quoted(out, items[i].as_str());
        proof {
            assert(frags.take(i + 1) =~= frags.take(i as int).push(frags[i as int]));
            crate::text::lemma_joined_texts_push(frags.take(i as int), ",\n"@, frags[i as int]);
            assert(frags[i as int] == json_item_text(texts[i as int]));
            assert(out@ =~= old(out)@ + "[\n"@ + joined_texts(frags.take(i + 1), ",\n"@));
        }
        i += 1;
    }
    out.append("\n  ]");
    proof {
        assert(frags.take(items@.len() as int) =~= frags);
        assert(out@ =~= old(out)@ + json_array_text(texts));
    }
}

/// Appends the encoding of one policy value.
pub fn push_json_value(out: &mut String, v: &ConfigValue)
    ensures
        final(out)@ == old(out)@ + json_value_text(v@),
{
    match v {
        ConfigValue::Bool(b) => out.append(bool_str(*b)),
        ConfigValue::Text(s) => push_json_quoted(out, s.as_str()),
        ConfigValue::Integer(n) => push_i32_dec(out, *n),
        ConfigValue::TextList(items) => push_json_array(out, items),
    }
}

/// Appends the whole configuration as a pretty-printed JSON object.
pub fn push_json_object(out: &mut String, config: &Config)
    ensures
        final(out)@ == old(out)@ + json_object_text(config@),
{
    let ghost frags = json_entry_texts(config@);
    let n = config.len();
    if n == 0 {
        out.append("{}");
        return;
    }
    out.append("{\n");
    let mut i: usize = 0;
    while i < n
        invariant
            frags == json_entry_texts(config@),
            frags.len() == config@.len(),
            n == config@.len(),
            0 < n,
            0 <= i <= n,
            i == 0 ==> out@ == old(out)@ + "{\n"@,
            i > 0 ==> out@ == old(out)@ + "{\n"@ + joined_texts(frags.take(i as int), ",\n"@),
        decreases n - i,
    {
        let ghost pre = out@;
        if i > 0 {
            out.append(",\n");
        }
        let entry = config.entry(i);
        out.append("  ");
        push_json_quoted(out, entry.key.as_str());
        out.append(": ");
        push_json_value(out, &entry.value);
        proof {
            assert(frags.take(i + 1) =~= frags.take(i as int).push(frags[i as int]));
            crate::text::lemma_joined_texts_push(frags.take(i as int), ",\n"@, frags[i as int]);
            assert(frags[i as int] == json_entry_text(config@[i as int]));
            assert(out@ =~= old(out)@ + "{\n"@ + joined_texts(frags.take(i + 1), ",\n"@));
        }
        i += 1;
    }
    out.append("\n}");
    proof {
        assert(frags.take(n as int) =~= frags);
        assert(out@ =~= old(out)@ + json_object_text(config@));
    }
}

/// The whole configuration as a pretty-printed JSON document.
pub fn to_pretty_string(config: &Config) -> (r: String)
    ensures
        r@ == json_object_text(config@),
{
    let mut out = String::new();
    push_json_object(&mut out, config);
    proof {
        assert(out@ =~= json_object_text(config@));
    }
    out
}

} // verus!
