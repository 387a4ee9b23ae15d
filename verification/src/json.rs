//! The export serializer: renders a normalized record as one canonical JSON
//! document. The output is a pure function of the record, so repeated calls
//! on the same input yield byte-identical text. Absent optional fields are
//! rendered as an explicit `null`, keeping them distinct from empty strings.

use vstd::prelude::*;

use crate::meta::{DirMeta, DirMetaView, MediaMeta, MediaMetaView};

verus! {

/// The lowercase hexadecimal digit of a value below sixteen.
pub open spec fn hex_digit(n: int) -> Seq<char> {
    if n == 0 {
        "0"@
    } else if n == 1 {
        "1"@
    } else if n == 2 {
        "2"@
    } else if n == 3 {
        "3"@
    } else if n == 4 {
        "4"@
    } else if n == 5 {
        "5"@
    } else if n == 6 {
        "6"@
    } else if n == 7 {
        "7"@
    } else if n == 8 {
        "8"@
    } else if n == 9 {
        "9"@
    } else if n == 10 {
        "a"@
    } else if n == 11 {
        "b"@
    } else if n == 12 {
        "c"@
    } else if n == 13 {
        "d"@
    } else if n == 14 {
        "e"@
    } else {
        "f"@
    }
}

/// How one character appears inside a JSON string literal: quote and
/// backslash are escaped, the common control characters get their short
/// escapes, any other control character becomes a `\u00` escape, and every
/// remaining character stands for itself.
pub open spec fn escaped_char(c: char) -> Seq<char> {
    if c == '"' {
        "\\\""@
    } else if c == '\\' {
        "\\\\"@
    } else if c == '\n' {
        "\\n"@
    } else if c == '\r' {
        "\\r"@
    } else if c == '\t' {
        "\\t"@
    } else if (c as u32) < 32 {
        "\\u00"@ + hex_digit((c as u32) as int / 16) + hex_digit((c as u32) as int % 16)
    } else {
        seq![c]
    }
}

/// The body of a JSON string literal holding the given text.
pub open spec fn escaped_text(s: Seq<char>) -> Seq<char>
    decreases s.len(),
{
    if s.len() == 0 {
        Seq::<char>::empty()
    } else {
        escaped_text(s.drop_last()) + escaped_char(s.last())
    }
}

/// A JSON string literal holding the given text.
pub open spec fn json_string(s: Seq<char>) -> Seq<char> {
    "\""@ + escaped_text(s) + "\""@
}

/// An optional string as JSON: an explicit `null` when absent.
pub open spec fn json_opt_string(o: Option<Seq<char>>) -> Seq<char> {
    match o {
        Option::None => "null"@,
        Option::Some(s) => json_string(s),
    }
}

/// A boolean as JSON.
pub open spec fn json_bool(b: bool) -> Seq<char> {
    if b {
        "true"@
    } else {
        "false"@
    }
}

/// The decimal digit of a value below ten.
pub open spec fn dec_digit(n: int) -> Seq<char> {
    if n == 0 {
        "0"@
    } else if n == 1 {
        "1"@
    } else if n == 2 {
        "2"@
    } else if n == 3 {
        "3"@
    } else if n == 4 {
        "4"@
    } else if n == 5 {
        "5"@
    } else if n == 6 {
        "6"@
    } else if n == 7 {
        "7"@
    } else if n == 8 {
        "8"@
    } else {
        "9"@
    }
}

/// The decimal rendering of a non-negative number, without leading zeros
/// (a single `0` for zero itself).
pub open spec fn dec_text(n: int) -> Seq<char>
    recommends
        n >= 0,
    decreases n,
{
    if n < 10 {
        dec_digit(n)
    } else {
        dec_text(n / 10) + dec_digit(n % 10)
    }
}

/// The canonical JSON document of a normalized directory record.
pub open spec fn dir_json(m: DirMetaView) -> Seq<char> {
    "{\"path\":"@ + json_string(m.path) + ",\"disk_size\":"@ + json_string(m.disk_size)
        + ",\"num_files\":"@ + dec_text(m.num_files as int) + "}"@
}

/// The canonical JSON document of a normalized media record.
pub open spec fn media_json(m: MediaMetaView) -> Seq<char> {
    "{\"file_name\":"@ + json_string(m.file_name) + ",\"title\":"@ + json_opt_string(m.title)
        + ",\"author\":"@ + json_opt_string(m.author) + ",\"duration\":"@ + json_opt_string(
        m.duration,
    ) + ",\"media_date\":"@ + json_opt_string(m.media_date) + ",\"stats\":"@ + json_opt_string(
        m.stats,
    ) + ",\"display_extra\":"@ + json_bool(m.display_extra) + ",\"extra\":"@ + json_opt_string(
        m.extra,
    ) + "}"@
}

/// Appends the lowercase hexadecimal digit of a value below sixteen.
fn append_hex_digit(out: &mut String, n: u32)
    requires
        n < 16,
    ensures
        final(out)@ == old(out)@ + hex_digit(n as int),
{
    if n == 0 {
        out.append("0");
    } else if n == 1 {
        out.append("1");
    } else if n == 2 {
        out.append("2");
    } else if n == 3 {
        out.append("3");
    } else if n == 4 {
        out.append("4");
    } else if n == 5 {
        out.append("5");
    } else if n == 6 {
        out.append("6");
    } else if n == 7 {
        out.append("7");
    } else if n == 8 {
        out.append("8");
    } else if n == 9 {
        out.append("9");
    } else if n == 10 {
        out.append("a");
    } else if n == 11 {
        out.append("b");
    } else if n == 12 {
        out.append("c");
    } else if n == 13 {
        out.append("d");
    } else if n == 14 {
        out.append("e");
    } else {
        out.append("f");
    }
}

/// Appends the escaped body of a JSON string literal holding the text.
fn append_escaped(out: &mut String, s: &str)
    ensures
        final(out)@ == old(out)@ + escaped_text(s@),
{
    let ghost start: Seq<char> = old(out)@;
    let n = s.unicode_len();
    let mut i: usize = 0;
    while i < n
        invariant
            i <= n,
            n == s@.len(),
            out@ == start + escaped_text(s@.take(i as int)),
        decreases n - i,
    {
        let c = s.get_char(i);
        if c == '"' {
            out.append("\\\"");
        } else if c == '\\' {
            out.append("\\\\");
        } else if c == '\n' {
            out.append("\\n");
        } else if c == '\r' {
            out.append("\\r");
        } else if c == '\t' {
            out.append("\\t");
        } else if (c as u32) < 32 {
            let code = c as u32;
            out.append("\\u00");
            append_hex_digit(out, code / 16);
            append_hex_digit(out, code % 16);
            proof {
                assert(out@ =~= start + escaped_text(s@.take(i as int)) + escaped_char(c));
            }
        } else {
            let piece = s.substring_char(i, i + 1);
            proof {
                assert(piece@ =~= seq![s@[i as int]]);
            }
            out.append(piece);
        }
        proof {
            assert(s@.take(i + 1 as int).drop_last() =~= s@.take(i as int));
            assert(s@.take(i + 1 as int).last() == s@[i as int]);
            assert(out@ =~= start + escaped_text(s@.take(i + 1 as int)));
        }
        i = i + 1;
    }
    proof {
        assert(s@.take(n as int) =~= s@);
    }
}

/// Appends a JSON string literal holding the text.
fn append_json_string(out: &mut String, s: &str)
    ensures
        final(out)@ == old(out)@ + json_string(s@),
{
    let ghost start: Seq<char> = old(out)@;
    out.append("\"");
    append_escaped(out, s);
    out.append("\"");
    proof {
        assert(out@ =~= start + json_string(s@));
    }
}

/// Appends an optional string as JSON, an explicit `null` when absent.
fn append_json_opt_string(out: &mut String, o: &Option<String>)
    ensures
        final(out)@ == old(out)@ + json_opt_string(o.deep_view()),
{
    match o {
        Option::None => out.append("null"),
        Option::Some(s) => append_json_string(out, s.as_str()),
    }
}

/// The decimal rendering of a number, without leading zeros.
fn dec_string(n: u64) -> (s: String)
    ensures
        s@ == dec_text(n as int),
    decreases n,
{
    if n < 10 {
        String::from_str(dec_digit_str(n))
    } else {
        let mut s = dec_string(n / 10);
        s.append(dec_digit_str(n % 10));
        s
    }
}

/// The decimal digit of a value below ten.
fn dec_digit_str(n: u64) -> (s: &'static str)
    requires
        n < 10,
    ensures
        s@ == dec_digit(n as int),
{
    if n == 0 {
        "0"
    } else if n == 1 {
        "1"
    } else if n == 2 {
        "2"
    } else if n == 3 {
        "3"
    } else if n == 4 {
        "4"
    } else if n == 5 {
        "5"
    } else if n == 6 {
        "6"
    } else if n == 7 {
        "7"
    } else if n == 8 {
        "8"
    } else {
        "9"
    }
}

/// Serializes a normalized directory record into its canonical JSON
/// document.
pub fn serialize_dir(m: &DirMeta) -> (s: String)
    ensures
        s@ == dir_json(m@),
{
    let mut out = String::new();
    out.append("{\"path\":");
    append_json_string(&mut out, m.path.as_str());
    out.append(",\"disk_size\":");
    append_json_string(&mut out, m.disk_size.as_str());
    out.append(",\"num_files\":");
    let count = dec_string(m.num_files);
    out.append(count.as_str());
    out.append("}");
    proof {
        assert(out@ =~= dir_json(m@));
    }
    out
}

/// Serializes a normalized media record into its canonical JSON document.
pub fn serialize_media(m: &MediaMeta) -> (s: String)
    ensures
        s@ == media_json(m@),
{
    let mut out = String::new();
    out.append("{\"file_name\":");
    append_json_string(&mut out, m.file_name.as_str());
    out.append(",\"title\":");
    append_json_opt_string(&mut out, &m.title);
    out.append(",\"author\":");
    append_json_opt_string(&mut out, &m.author);
    out.append(",\"duration\":");
    append_json_opt_string(&mut out, &m.duration);
    out.append(",\"media_date\":");
    append_json_opt_string(&mut out, &m.media_date);
    out.append(",\"stats\":");
    append_json_opt_string(&mut out, &m.stats);
    out.append(",\"display_extra\":");
    if m.display_extra {
        out.append("true");
    } else {
        out.append("false");
    }
    out.append(",\"extra\":");
    append_json_opt_string(&mut out, &m.extra);
    out.append("}");
    proof {
        assert(out@ =~= media_json(m@));
    }
    out
}

} // verus!
