//! The input of a tool, as it is shown to the user who is to permit it.

use crate::json::{parse, parsed_text, plain, pretty, pretty_text, Json, JsonView, DEPTH_LIMIT};
use crate::text::{chars_of, string_of, trim, trimmed};
use vstd::prelude::*;

verus! {

/// Whether `c` is a hexadecimal digit.
pub open spec fn hex_char(c: char) -> bool {
    '0' <= c <= '9' || 'a' <= c <= 'f' || 'A' <= c <= 'F'
}

/// The value of a hexadecimal digit.
pub open spec fn hex_value(c: char) -> int {
    if '0' <= c <= '9' {
        c as int - 48
    } else if 'a' <= c <= 'f' {
        c as int - 87
    } else {
        c as int - 55
    }
}

/// Whether `s` has an escape `\uXXXX` at `i`.
pub open spec fn escape_at(s: Seq<char>, i: int) -> bool {
    &&& 0 <= i
    &&& i + 6 <= s.len()
    &&& s[i] == '\\'
    &&& s[i + 1] == 'u'
    &&& hex_char(s[i + 2])
    &&& hex_char(s[i + 3])
    &&& hex_char(s[i + 4])
    &&& hex_char(s[i + 5])
}

/// The code that the escape at `i` stands for.
pub open spec fn escape_code(s: Seq<char>, i: int) -> int {
    hex_value(s[i + 2]) * 4096 + hex_value(s[i + 3]) * 256 + hex_value(s[i + 4]) * 16 + hex_value(
        s[i + 5],
    )
}

/// Whether `s` has an escape at `i` that stands for a printable ASCII character.
pub open spec fn printable_escape_at(s: Seq<char>, i: int) -> bool {
    escape_at(s, i) && 0x20 <= escape_code(s, i) <= 0x7E
}

/// `s` from `i` on, with the character in place of each escape that stands for a
/// printable ASCII character, read from left to right.
pub open spec fn decoded_from(s: Seq<char>, i: int) -> Seq<char>
    decreases s.len() - i,
{
    if i < 0 || i >= s.len() {
        Seq::empty()
    } else if printable_escape_at(s, i) {
        seq![escape_code(s, i) as char] + decoded_from(s, i + 6)
    } else {
        seq![s[i]] + decoded_from(s, i + 1)
    }
}

/// `s` with the character in place of each escape that stands for a printable
/// ASCII character; everything else stays as it is.
pub open spec fn decoded(s: Seq<char>) -> Seq<char> {
    decoded_from(s, 0)
}

fn hex_value_of(c: char) -> (out: Option<u32>)
    ensures
        match out {
            Some(v) => hex_char(c) && v == hex_value(c) && v < 16,
            None => !hex_char(c),
        },
{
    if '0' <= c && c <= '9' {
        Some(c as u32 - 48)
    } else if 'a' <= c && c <= 'f' {
        Some(c as u32 - 87)
    } else if 'A' <= c && c <= 'F' {
        Some(c as u32 - 55)
    } else {
        None
    }
}

/// The printable ASCII character that the escape at `i` stands for, where there
/// is one.
fn printable_escape_of(chars: &Vec<char>, i: usize) -> (out: Option<char>)
    requires
        i < chars@.len(),
    ensures
        match out {
            Some(c) => printable_escape_at(chars@, i as int) && c == escape_code(
                chars@,
                i as int,
            ) as char,
            None => !printable_escape_at(chars@, i as int),
        },
{
    if chars.len() - i < 6 || chars[i] != '\\' || chars[i + 1] != 'u' {
        return None;
    }
    match (
        hex_value_of(chars[i + 2]),
        hex_value_of(chars[i + 3]),
        hex_value_of(chars[i + 4]),
        hex_value_of(chars[i + 5]),
    ) {
        (Some(a), Some(b), Some(c), Some(d)) => {
            let code: u32 = a * 4096 + b * 256 + c * 16 + d;
            if 0x20 <= code && code <= 0x7E {
                Some(code as u8 as char)
            } else {
                None
            }
        },
        _ => None,
    }
}

/// `raw` with the character in place of each escape that stands for a printable
/// ASCII character. A fragment that was cut off inside an escape keeps what is
/// left of it.
pub fn decode_printable_ascii_escapes(raw: &str) -> (out: String)
    ensures
        out@ == decoded(raw@),
{
    let chars = chars_of(raw);
    let mut done: Vec<char> = Vec::new();
    let mut i: usize = 0;
    while i < chars.len()
        invariant
            i <= chars@.len(),
            chars@ == raw@,
            done@ + decoded_from(raw@, i as int) == decoded(raw@),
        decreases chars.len() - i,
    {
        let ghost before = done@;
        match printable_escape_of(&chars, i) {
            Some(c) => {
                done.push(c);
                proof {
                    assert(before + (seq![c] + decoded_from(raw@, i + 6)) =~= done@ + decoded_from(
                        raw@,
                        i + 6,
                    ));
                }
                i = i + 6;
            },
            None => {
                done.push(chars[i]);
                proof {
                    assert(before + (seq![raw@[i as int]] + decoded_from(raw@, i + 1)) =~= done@
                        + decoded_from(raw@, i + 1));
                }
                i = i + 1;
            },
        }
    }
    proof {
        assert(done@ + Seq::<char>::empty() =~= done@);
    }
    string_of(&done)
}

/// What is shown of an input, where reading it gave `document`.
pub open spec fn shown_as(raw: Seq<char>, document: Option<JsonView>) -> Seq<char> {
    if trimmed(raw).len() == 0 {
        Seq::empty()
    } else {
        match document {
            Some(d) => pretty_text(d),
            None => decoded(raw),
        }
    }
}

/// What is shown of an input, where reading it gave `document`: the document
/// indented, or the text itself where it is none.
pub fn show_input(raw: &str, document: Option<Json>) -> (out: String)
    ensures
        out@ == shown_as(
            raw@,
            match document {
                Some(d) => Some(d@),
                None => None,
            },
        ),
        document matches Some(d) ==> trimmed(raw@).len() > 0 && plain(d@, DEPTH_LIMIT as nat)
            ==> parsed_text(out@) == Some(d@),
{
    if trim(raw).as_str().is_empty() {
        return String::new();
    }
    match document {
        Some(d) => pretty(&d),
        None => decode_printable_ascii_escapes(raw),
    }
}

/// The input of a tool, as it is shown: indented where it is a document. What a
/// hook cut off in the middle is no document and is shown as it is, except that
/// escapes of printable characters are undone. What is shown of a document depends on
/// what it says alone, and reads back as the document where that can be read back.
pub fn pretty_tool_input(raw: &str) -> (out: String)
    ensures
        out@ == shown_as(raw@, parsed_text(trimmed(raw@))),
        parsed_text(trimmed(raw@)) matches Some(v) ==> {
            &&& out@ == pretty_text(v)
            &&& plain(v, DEPTH_LIMIT as nat) ==> parsed_text(out@) == Some(v)
        },
{
    let document = parse(trim(raw).as_str());
    show_input(raw, document)
}

proof fn lemma_decoded_from_unchanged(s: Seq<char>, i: int)
    requires
        0 <= i <= s.len(),
        forall|j: int| 0 <= j < s.len() ==> !printable_escape_at(s, j),
    ensures
        decoded_from(s, i) == s.skip(i),
    decreases s.len() - i,
{
    if i < s.len() {
        lemma_decoded_from_unchanged(s, i + 1);
        assert(!printable_escape_at(s, i));
        assert(seq![s[i]] + s.skip(i + 1) =~= s.skip(i));
    } else {
        assert(s.skip(i) =~= Seq::<char>::empty());
    }
}

/// A text without an escape of a printable character is shown as it is.
pub proof fn law_nothing_to_decode(s: Seq<char>)
    requires
        forall|j: int| 0 <= j < s.len() ==> !printable_escape_at(s, j),
    ensures
        decoded(s) == s,
{
    lemma_decoded_from_unchanged(s, 0);
    assert(s.skip(0) =~= s);
}

} // verus!
