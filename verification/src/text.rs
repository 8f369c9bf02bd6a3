//! Text as sequences of characters: trimming, sanitising and capping what
//! agents send before a human reads it, and writing numbers down.

use unicode_segmentation::UnicodeSegmentation;
use vstd::prelude::*;
use vstd::string::*;

verus! {

// ---------------------------------------------------------------------------
// Characters and strings.
// ---------------------------------------------------------------------------

/// The characters of `s`, in order.
pub fn chars_of(s: &str) -> (out: Vec<char>)
    ensures
        out@ == s@,
{
    let mut out: Vec<char> = Vec::new();
    for c in it: s.chars()
        invariant
            it.seq() == s@,
            out@ == s@.take(it.index() as int),
    {
        proof {
            assert(s@.take(it.index() + 1) =~= s@.take(it.index() as int).push(c));
        }
        out.push(c);
    }
    proof {
        assert(s@.take(s@.len() as int) =~= s@);
    }
    out
}

/// Calls `String::from_iter` on the characters: the string holds exactly them,
/// in order.
#[verifier::external_body]
pub(crate) fn string_of(chars: &Vec<char>) -> (out: String)
    ensures
        out@ == chars@,
{
    String::from_iter(chars)
}

/// Whether the two texts hold the same characters.
pub fn same_text(a: &str, b: &str) -> (same: bool)
    ensures
        same == (a@ == b@),
{
    a.to_owned() == b.to_owned()
}

/// Whether `a` is there and is the text `b`.
pub fn same_optional_text(a: &Option<String>, b: &str) -> (same: bool)
    ensures
        same == (a matches Some(x) && x@ == b@),
{
    match a {
        Some(x) => same_text(x.as_str(), b),
        None => false,
    }
}

/// The view of an optional string.
pub open spec fn optional_text(s: Option<String>) -> Option<Seq<char>> {
    match s {
        Some(x) => Some(x@),
        None => None,
    }
}

/// The view of an optional string slice.
pub open spec fn optional_str(s: Option<&str>) -> Option<Seq<char>> {
    match s {
        Some(x) => Some(x@),
        None => None,
    }
}

/// The views of several strings.
pub open spec fn texts(s: Seq<String>) -> Seq<Seq<char>> {
    Seq::new(s.len(), |i: int| s[i]@)
}

/// The view of an optional list of strings.
pub open spec fn optional_texts(s: Option<Vec<String>>) -> Option<Seq<Seq<char>>> {
    match s {
        Some(x) => Some(texts(x@)),
        None => None,
    }
}

/// A copy of several strings.
pub fn copy_texts(s: &Vec<String>) -> (out: Vec<String>)
    ensures
        texts(out@) == texts(s@),
{
    let mut out: Vec<String> = Vec::new();
    let mut i: usize = 0;
    while i < s.len()
        invariant
            i <= s@.len(),
            out@.len() == i,
            forall|j: int| 0 <= j < i ==> (#[trigger] out@[j])@ == s@[j]@,
        decreases s.len() - i,
    {
        out.push(s[i].clone());
        i = i + 1;
    }
    proof {
        assert(texts(out@) =~= texts(s@));
    }
    out
}

/// A copy of several strings, where there are any.
pub fn copy_optional_texts(s: &Option<Vec<String>>) -> (out: Option<Vec<String>>)
    ensures
        optional_texts(out) == optional_texts(*s),
{
    match s {
        Some(x) => Some(copy_texts(x)),
        None => None,
    }
}

/// A copy of an optional string.
pub fn copy_optional_text(s: &Option<String>) -> (out: Option<String>)
    ensures
        optional_text(out) == optional_text(*s),
{
    match s {
        Some(x) => Some(x.clone()),
        None => None,
    }
}

/// The text that the `{:?}` form of a string shows: the string in double quotes,
/// with what cannot be shown escaped.
pub uninterp spec fn quoted(s: Seq<char>) -> Seq<char>;

/// Calls `format!` with `{:?}` on a string. Claimed of it: the result depends on
/// the string alone. Which characters are escaped, and how, is left unsaid.
#[verifier::external_body]
pub(crate) fn quote(s: &str) -> (out: String)
    ensures
        out@ == quoted(s@),
{
    format!("{:?}", s)
}

/// Whether `c` occurs in `s`.
pub fn contains_char(s: &str, c: char) -> (found: bool)
    ensures
        found == s@.contains(c),
{
    let chars = chars_of(s);
    let mut i: usize = 0;
    while i < chars.len()
        invariant
            i <= chars.len(),
            chars@ == s@,
            forall|j: int| 0 <= j < i ==> s@[j] != c,
        decreases chars.len() - i,
    {
        if chars[i] == c {
            proof {
                assert(s@[i as int] == c);
            }
            return true;
        }
        i = i + 1;
    }
    false
}

/// What follows `prefix` in `s`, where `s` begins with it.
pub open spec fn after_prefix(s: Seq<char>, prefix: Seq<char>) -> Option<Seq<char>> {
    if s.len() >= prefix.len() && s.take(prefix.len() as int) == prefix {
        Some(s.skip(prefix.len() as int))
    } else {
        None
    }
}

/// What follows `prefix` in `s`, where `s` begins with it.
pub fn strip_prefix(s: &str, prefix: &str) -> (out: Option<String>)
    ensures
        optional_text(out) == after_prefix(s@, prefix@),
{
    let all = chars_of(s);
    let head = chars_of(prefix);
    if all.len() < head.len() {
        return None;
    }
    let mut i: usize = 0;
    while i < head.len()
        invariant
            i <= head@.len() <= all@.len(),
            all@ == s@,
            head@ == prefix@,
            forall|j: int| 0 <= j < i ==> all@[j] == head@[j],
        decreases head.len() - i,
    {
        if all[i] != head[i] {
            proof {
                assert(s@.take(prefix@.len() as int)[i as int] != prefix@[i as int]);
            }
            return None;
        }
        i = i + 1;
    }
    proof {
        assert(s@.take(prefix@.len() as int) =~= prefix@);
        assert(s@.skip(prefix@.len() as int) =~= s@.subrange(
            prefix@.len() as int,
            s@.len() as int,
        ));
    }
    Some(slice_of(&all, head.len(), all.len()))
}

/// What precedes `suffix` in `s`, where `s` ends with it.
pub open spec fn before_suffix(s: Seq<char>, suffix: Seq<char>) -> Option<Seq<char>> {
    if s.len() >= suffix.len() && s.skip(s.len() - suffix.len()) == suffix {
        Some(s.take(s.len() - suffix.len()))
    } else {
        None
    }
}

/// What precedes `suffix` in `s`, where `s` ends with it.
pub fn strip_suffix(s: &str, suffix: &str) -> (out: Option<String>)
    ensures
        optional_text(out) == before_suffix(s@, suffix@),
{
    let all = chars_of(s);
    let tail = chars_of(suffix);
    if all.len() < tail.len() {
        return None;
    }
    let cut: usize = all.len() - tail.len();
    let mut i: usize = 0;
    while i < tail.len()
        invariant
            i <= tail@.len() <= all@.len(),
            cut == all.len() - tail.len(),
            all@ == s@,
            tail@ == suffix@,
            forall|j: int| 0 <= j < i ==> all@[cut + j] == tail@[j],
        decreases tail.len() - i,
    {
        if all[cut + i] != tail[i] {
            proof {
                assert(s@.skip(cut as int)[i as int] != suffix@[i as int]);
            }
            return None;
        }
        i = i + 1;
    }
    proof {
        assert(s@.skip(cut as int) =~= suffix@);
        assert(s@.take(cut as int) =~= s@.subrange(0, cut as int));
    }
    Some(slice_of(&all, 0, cut))
}

/// Whether `needle` stands somewhere in `s`.
pub open spec fn holds(s: Seq<char>, needle: Seq<char>) -> bool {
    exists|i: int| #[trigger] stands_at(s, needle, i)
}

/// Whether `needle` stands at `i` in `s`.
pub open spec fn stands_at(s: Seq<char>, needle: Seq<char>, i: int) -> bool {
    0 <= i && i + needle.len() <= s.len() && s.subrange(i, i + needle.len()) == needle
}

/// Whether `needle` stands somewhere in `s`.
pub fn contains_text(s: &str, needle: &str) -> (found: bool)
    ensures
        found == holds(s@, needle@),
{
    let all = chars_of(s);
    let part = chars_of(needle);
    if part.len() > all.len() {
        return false;
    }
    let mut i: usize = 0;
    while i <= all.len() - part.len()
        invariant
            i <= all.len() - part.len() + 1,
            part.len() <= all.len(),
            all@ == s@,
            part@ == needle@,
            forall|k: int| 0 <= k < i ==> !stands_at(s@, needle@, k),
        decreases all.len() - part.len() + 1 - i,
    {
        let mut j: usize = 0;
        while j < part.len() && all[i + j] == part[j]
            invariant
                j <= part.len(),
                i + part.len() <= all.len(),
                all@ == s@,
                part@ == needle@,
                forall|k: int| 0 <= k < j ==> s@[i + k] == needle@[k],
            decreases part.len() - j,
        {
            j = j + 1;
        }
        if j == part.len() {
            proof {
                assert(s@.subrange(i as int, i + needle@.len()) =~= needle@);
                assert(stands_at(s@, needle@, i as int));
            }
            return true;
        }
        proof {
            if stands_at(s@, needle@, i as int) {
                assert(s@.subrange(i as int, i + needle@.len())[j as int] == needle@[j as int]);
            }
        }
        if i == all.len() - part.len() {
            return false;
        }
        i = i + 1;
    }
    false
}

/// `c` in lower case, where it is an ASCII letter.
pub open spec fn ascii_lower_char(c: char) -> char {
    if 'A' <= c <= 'Z' {
        (c as int + 32) as char
    } else {
        c
    }
}

/// `s` with its ASCII letters in lower case.
pub open spec fn ascii_lowered(s: Seq<char>) -> Seq<char> {
    s.map_values(|c: char| ascii_lower_char(c))
}

/// `s` with its ASCII letters in lower case.
pub fn ascii_lower(s: &str) -> (out: String)
    ensures
        out@ == ascii_lowered(s@),
{
    let chars = chars_of(s);
    let mut out: Vec<char> = Vec::new();
    let mut i: usize = 0;
    while i < chars.len()
        invariant
            i <= chars@.len(),
            chars@ == s@,
            out@ == ascii_lowered(s@).take(i as int),
        decreases chars.len() - i,
    {
        let c = chars[i];
        let lower: char = if 'A' <= c && c <= 'Z' {
            (c as u8 + 32) as char
        } else {
            c
        };
        out.push(lower);
        i = i + 1;
        proof {
            assert(ascii_lowered(s@).take(i as int) =~= ascii_lowered(s@).take(i - 1).push(lower));
        }
    }
    proof {
        assert(ascii_lowered(s@).take(s@.len() as int) =~= ascii_lowered(s@));
    }
    string_of(&out)
}

/// The parts of `s` between its occurrences of `sep`.
pub open spec fn split_on(s: Seq<char>, sep: char) -> Seq<Seq<char>>
    decreases s.len(),
{
    if s.len() == 0 {
        seq![Seq::empty()]
    } else {
        let parts = split_on(s.drop_last(), sep);
        if s.last() == sep {
            parts.push(Seq::empty())
        } else {
            parts.drop_last().push(parts.last().push(s.last()))
        }
    }
}

/// The parts of `s` between its occurrences of `sep`; there is always one.
pub fn split(s: &str, sep: char) -> (out: Vec<String>)
    ensures
        texts(out@) == split_on(s@, sep),
        out@.len() > 0,
{
    let chars = chars_of(s);
    let mut out: Vec<String> = Vec::new();
    let mut part: Vec<char> = Vec::new();
    let mut i: usize = 0;
    proof {
        assert(texts(out@).push(part@) =~= seq![Seq::<char>::empty()]);
    }
    while i < chars.len()
        invariant
            i <= chars@.len(),
            chars@ == s@,
            texts(out@).push(part@) == split_on(s@.take(i as int), sep),
        decreases chars.len() - i,
    {
        let c = chars[i];
        let ghost before = texts(out@);
        let ghost parts = split_on(s@.take(i as int), sep);
        proof {
            assert(s@.take(i + 1).drop_last() =~= s@.take(i as int));
            assert(parts.drop_last() =~= before);
            assert(parts.last() == part@);
        }
        if c == sep {
            let done = string_of(&part);
            out.push(done);
            part = Vec::new();
            proof {
                assert(texts(out@) =~= before.push(done@));
                assert(part@ =~= Seq::<char>::empty());
            }
        } else {
            part.push(c);
        }
        i = i + 1;
    }
    proof {
        assert(s@.take(s@.len() as int) =~= s@);
    }
    let ghost before = texts(out@);
    let done = string_of(&part);
    out.push(done);
    proof {
        assert(texts(out@) =~= before.push(done@));
    }
    out
}

/// `a` followed by `b`.
pub fn joined(a: &str, b: &str) -> (out: String)
    ensures
        out@ == a@ + b@,
{
    let mut out = a.to_owned();
    out.append(b);
    out
}

// ---------------------------------------------------------------------------
// White space.
// ---------------------------------------------------------------------------

/// The characters with Unicode's `White_Space` property.
pub open spec fn white_space(c: char) -> bool {
    ||| '\u{9}' <= c <= '\u{d}'
    ||| c == '\u{20}'
    ||| c == '\u{85}'
    ||| c == '\u{a0}'
    ||| c == '\u{1680}'
    ||| '\u{2000}' <= c <= '\u{200a}'
    ||| c == '\u{2028}'
    ||| c == '\u{2029}'
    ||| c == '\u{202f}'
    ||| c == '\u{205f}'
    ||| c == '\u{3000}'
}

/// Whether `c` is white space.
pub fn is_white_space(c: char) -> (white: bool)
    ensures
        white == white_space(c),
{
    ('\u{9}' <= c && c <= '\u{d}') || c == '\u{20}' || c == '\u{85}' || c == '\u{a0}' || c
        == '\u{1680}' || ('\u{2000}' <= c && c <= '\u{200a}') || c == '\u{2028}' || c == '\u{2029}'
        || c == '\u{202f}' || c == '\u{205f}' || c == '\u{3000}'
}

/// `s` without its longest suffix of characters for which `drop` holds.
pub open spec fn trim_end_by(s: Seq<char>, drop: spec_fn(char) -> bool) -> Seq<char>
    decreases s.len(),
{
    if s.len() > 0 && drop(s.last()) {
        trim_end_by(s.drop_last(), drop)
    } else {
        s
    }
}

/// `s` without its longest prefix of characters for which `drop` holds.
pub open spec fn trim_start_by(s: Seq<char>, drop: spec_fn(char) -> bool) -> Seq<char>
    decreases s.len(),
{
    if s.len() > 0 && drop(s[0]) {
        trim_start_by(s.subrange(1, s.len() as int), drop)
    } else {
        s
    }
}

/// [`white_space`] as a predicate to trim by.
pub open spec fn white() -> spec_fn(char) -> bool {
    |c: char| white_space(c)
}

/// `s` without white space at either end.
pub open spec fn trimmed(s: Seq<char>) -> Seq<char> {
    trim_start_by(trim_end_by(s, white()), white())
}

proof fn lemma_trim_end_last(s: Seq<char>, drop: spec_fn(char) -> bool)
    ensures
        trim_end_by(s, drop).len() <= s.len(),
        trim_end_by(s, drop) == s.take(trim_end_by(s, drop).len() as int),
        trim_end_by(s, drop).len() > 0 ==> !drop(trim_end_by(s, drop).last()),
    decreases s.len(),
{
    if s.len() > 0 && drop(s.last()) {
        lemma_trim_end_last(s.drop_last(), drop);
        assert(s.drop_last().take(trim_end_by(s, drop).len() as int) =~= s.take(
            trim_end_by(s, drop).len() as int,
        ));
    } else {
        assert(s.take(s.len() as int) =~= s);
    }
}

proof fn lemma_trim_start_first(s: Seq<char>, drop: spec_fn(char) -> bool)
    ensures
        trim_start_by(s, drop).len() <= s.len(),
        trim_start_by(s, drop) == s.skip(s.len() - trim_start_by(s, drop).len()),
        trim_start_by(s, drop).len() > 0 ==> !drop(trim_start_by(s, drop)[0]),
    decreases s.len(),
{
    if s.len() > 0 && drop(s[0]) {
        let rest = s.subrange(1, s.len() as int);
        lemma_trim_start_first(rest, drop);
        let left = trim_start_by(rest, drop);
        assert(rest.skip(rest.len() - left.len()) =~= s.skip(s.len() - left.len()));
    } else {
        assert(s.skip(0) =~= s);
    }
}

/// What is trimmed begins and ends with something else than white space, or is
/// empty.
pub proof fn law_trimmed_ends(s: Seq<char>)
    ensures
        trimmed(s).len() <= s.len(),
        trimmed(s).len() > 0 ==> !white_space(trimmed(s)[0]) && !white_space(trimmed(s).last()),
{
    let front = trim_end_by(s, white());
    lemma_trim_end_last(s, white());
    lemma_trim_start_first(front, white());
    if trimmed(s).len() > 0 {
        assert(trimmed(s).last() == front.last());
    }
}

/// Trimming twice is trimming once.
pub proof fn lemma_trimmed_twice(s: Seq<char>)
    ensures
        trimmed(trimmed(s)) == trimmed(s),
{
    law_trimmed_ends(s);
}

/// `s` without white space at either end.
pub fn trim(s: &str) -> (out: String)
    ensures
        out@ == trimmed(s@),
{
    let chars = chars_of(s);
    let mut end: usize = chars.len();
    proof {
        assert(s@.subrange(0, end as int) =~= s@);
    }
    while end > 0 && is_white_space(chars[end - 1])
        invariant
            chars@ == s@,
            end <= chars.len(),
            trim_end_by(s@, white()) == trim_end_by(s@.subrange(0, end as int), white()),
        decreases end,
    {
        proof {
            assert(s@.subrange(0, end as int).drop_last() =~= s@.subrange(0, end - 1));
        }
        end = end - 1;
    }
    let ghost kept = s@.subrange(0, end as int);
    let mut start: usize = 0;
    proof {
        assert(kept.subrange(0, end as int) =~= kept);
    }
    while start < end && is_white_space(chars[start])
        invariant
            chars@ == s@,
            start <= end <= chars.len(),
            kept == s@.subrange(0, end as int),
            trim_start_by(kept, white()) == trim_start_by(
                kept.subrange(start as int, end as int),
                white(),
            ),
        decreases end - start,
    {
        proof {
            let rest = kept.subrange(start as int, end as int);
            assert(rest.subrange(1, rest.len() as int) =~= kept.subrange(start + 1, end as int));
        }
        start = start + 1;
    }
    proof {
        assert(kept.subrange(start as int, end as int) =~= s@.subrange(start as int, end as int));
    }
    slice_of(&chars, start, end)
}

/// The characters from `from` up to `to`.
pub(crate) fn slice_of(chars: &Vec<char>, from: usize, to: usize) -> (out: String)
    requires
        from <= to <= chars.len(),
    ensures
        out@ == chars@.subrange(from as int, to as int),
{
    let mut part: Vec<char> = Vec::new();
    let mut i: usize = from;
    while i < to
        invariant
            from <= i <= to <= chars.len(),
            part@ == chars@.subrange(from as int, i as int),
        decreases to - i,
    {
        part.push(chars[i]);
        i = i + 1;
        proof {
            assert(chars@.subrange(from as int, i as int) =~= chars@.subrange(
                from as int,
                i - 1,
            ).push(chars@[i - 1]));
        }
    }
    string_of(&part)
}

// ---------------------------------------------------------------------------
// Sanitising.
// ---------------------------------------------------------------------------

/// The characters that embed, override or isolate the direction of text
/// (`U+202A..U+202E`, `U+2066..U+2069`): with them a string can be made to read
/// as something else than its characters say.
pub open spec fn bidi_control(c: char) -> bool {
    '\u{202a}' <= c <= '\u{202e}' || '\u{2066}' <= c <= '\u{2069}'
}

/// `s` without its bidi controls.
pub open spec fn bidi_stripped(s: Seq<char>) -> Seq<char> {
    s.filter(|c: char| !bidi_control(c))
}

/// `s` without its bidi controls; every other character stays, in order.
pub fn strip_bidi_controls(s: &str) -> (out: String)
    ensures
        out@ == bidi_stripped(s@),
{
    let chars = chars_of(s);
    let ghost keep = |c: char| !bidi_control(c);
    let mut kept: Vec<char> = Vec::new();
    let mut i: usize = 0;
    while i < chars.len()
        invariant
            i <= chars.len(),
            chars@ == s@,
            keep == (|c: char| !bidi_control(c)),
            kept@ == s@.take(i as int).filter(keep),
        decreases chars.len() - i,
    {
        let c = chars[i];
        proof {
            assert(s@.take(i + 1) =~= s@.take(i as int).push(c));
            s@.take(i as int).lemma_filter_push(c, keep);
        }
        if !(('\u{202a}' <= c && c <= '\u{202e}') || ('\u{2066}' <= c && c <= '\u{2069}')) {
            kept.push(c);
        }
        i = i + 1;
    }
    proof {
        assert(s@.take(s@.len() as int) =~= s@);
    }
    string_of(&kept)
}

/// Whether `s` holds no bidi control.
pub open spec fn clean(s: Seq<char>) -> bool {
    forall|i: int| 0 <= i < s.len() ==> !bidi_control(#[trigger] s[i])
}

/// What is stripped holds no bidi control, and a text without one is left alone.
pub proof fn law_stripped_is_clean(s: Seq<char>)
    ensures
        clean(bidi_stripped(s)),
        clean(s) ==> bidi_stripped(s) == s,
    decreases s.len(),
{
    reveal(Seq::filter);
    if s.len() > 0 {
        let front = s.drop_last();
        law_stripped_is_clean(front);
        assert forall|i: int| 0 <= i < bidi_stripped(s).len() implies !bidi_control(
            #[trigger] bidi_stripped(s)[i],
        ) by {
            if i < bidi_stripped(front).len() {
                assert(bidi_stripped(s)[i] == bidi_stripped(front)[i]);
            }
        }
        if clean(s) {
            assert forall|i: int| 0 <= i < front.len() implies !bidi_control(
                #[trigger] front[i],
            ) by {
                assert(front[i] == s[i]);
            }
            assert(!bidi_control(s[s.len() - 1]));
            assert(front.push(s.last()) =~= s);
        }
    }
}

/// Cutting a text short brings no bidi control into it.
pub proof fn lemma_shortened_is_clean(s: Seq<char>, out: Seq<char>)
    requires
        clean(s),
        shortened(s, out),
    ensures
        clean(out),
{
    if out != s {
        let n = choose|n: int|
            0 <= n <= s.len() && out == #[trigger] s.take(n).push('\u{2026}');
        assert forall|i: int| 0 <= i < out.len() implies !bidi_control(#[trigger] out[i]) by {
            if i < n {
                assert(out[i] == s[i]);
            }
        }
    }
}

/// Collapsing white space brings no bidi control into a text.
pub proof fn lemma_collapsed_is_clean(s: Seq<char>)
    requires
        clean(s),
    ensures
        clean(collapsed(s)),
    decreases s.len(),
{
    if s.len() > 0 {
        let front = s.drop_last();
        assert forall|i: int| 0 <= i < front.len() implies !bidi_control(#[trigger] front[i]) by {
            assert(front[i] == s[i]);
        }
        lemma_collapsed_is_clean(front);
        assert(!bidi_control(s[s.len() - 1]));
        let words = collapsed(front);
        let out = collapsed(s);
        assert forall|i: int| 0 <= i < out.len() implies !bidi_control(#[trigger] out[i]) by {
            if i < words.len() {
                assert(out[i] == words[i]);
            }
        }
    }
}

/// Whether each white space in `s` is a single space between two words.
pub open spec fn single_spaced(s: Seq<char>) -> bool {
    &&& s.len() > 0 ==> !white_space(s[0]) && !white_space(s.last())
    &&& forall|i: int|
        0 <= i < s.len() && white_space(#[trigger] s[i]) ==> s[i] == ' ' && 0 < i < s.len() - 1
            && !white_space(s[i - 1])
}

/// What is collapsed has single spaces between its words and none around them.
pub proof fn law_collapsed_is_single_spaced(s: Seq<char>)
    ensures
        single_spaced(collapsed(s)),
        collapse_state(s).1 ==> collapsed(s).len() > 0,
    decreases s.len(),
{
    if s.len() > 0 {
        let front = s.drop_last();
        let c = s.last();
        let (words, gap) = collapse_state(front);
        law_collapsed_is_single_spaced(front);
        let out = collapsed(s);
        if !white_space(c) {
            assert forall|i: int| 0 <= i < out.len() && white_space(#[trigger] out[i]) implies out[i]
                == ' ' && 0 < i < out.len() - 1 && !white_space(out[i - 1]) by {
                if i < words.len() {
                    assert(out[i] == words[i]);
                    assert(white_space(words[i]));
                    assert(out[i - 1] == words[i - 1]);
                } else if i == words.len() && gap {
                    assert(out[i - 1] == words.last());
                }
            }
            if words.len() > 0 {
                assert(out[0] == words[0]);
            }
        }
    }
}

/// What `UnicodeSegmentation::graphemes(s, true)` yields: the extended grapheme
/// clusters of `s`.
pub uninterp spec fn grapheme_clusters(s: Seq<char>) -> Seq<Seq<char>>;

/// Calls `UnicodeSegmentation::graphemes` for the extended grapheme clusters of
/// `s`. Claimed of it: the clusters depend on `s` alone, none is empty, and one
/// after the other they make up `s`. Where the boundaries lie is left unsaid.
#[verifier::external_body]
fn graphemes(s: &str) -> (clusters: Vec<String>)
    ensures
        texts(clusters@) == grapheme_clusters(s@),
        texts(clusters@).flatten() == s@,
        forall|i: int| 0 <= i < clusters@.len() ==> #[trigger] clusters@[i]@.len() > 0,
{
    s.graphemes(true).map(|cluster| cluster.to_string()).collect()
}

/// `s` cut to at most `max` grapheme clusters: unchanged where it has no more
/// than that, otherwise its first `max - 1` clusters and an ellipsis.
pub open spec fn grapheme_capped(s: Seq<char>, max: nat) -> Seq<char> {
    let clusters = grapheme_clusters(s);
    if clusters.len() <= max {
        s
    } else {
        clusters.take(max - 1).flatten().push('\u{2026}')
    }
}

/// Whether `out` is `s`, or the beginning of `s` with an ellipsis behind it.
pub open spec fn shortened(s: Seq<char>, out: Seq<char>) -> bool {
    out == s || exists|n: int|
        0 <= n <= s.len() && out == #[trigger] s.take(n).push('\u{2026}')
}

/// `s` cut to at most `max` grapheme clusters, an ellipsis counting as one. What
/// is left of `s` is its beginning, and a text of no more than `max` characters
/// is left alone.
pub fn truncate_graphemes(s: &str, max: usize) -> (out: String)
    requires
        max > 0,
    ensures
        out@ == grapheme_capped(s@, max as nat),
        shortened(s@, out@),
        s@.len() <= max ==> out@ == s@,
{
    let clusters = graphemes(s);
    proof {
        let all = texts(clusters@);
        assert(all == grapheme_clusters(s@));
        assert forall|i: int| 0 <= i < all.len() implies (#[trigger] all[i]).len() > 0 by {
            assert(clusters@[i]@.len() > 0);
        }
        lemma_as_long_as_its_parts(all);
        if all.len() > max {
            let head = all.take(max - 1);
            let tail = all.skip(max - 1);
            assert(all =~= head + tail);
            vstd::seq_lib::lemma_flatten_concat(head, tail);
            let n = head.flatten().len() as int;
            assert(s@.take(n) =~= head.flatten());
            assert(s@.take(n).push('\u{2026}') == head.flatten().push('\u{2026}'));
        }
    }
    cap_clusters(s, &clusters, max)
}

proof fn lemma_as_long_as_its_parts(parts: Seq<Seq<char>>)
    requires
        forall|i: int| 0 <= i < parts.len() ==> (#[trigger] parts[i]).len() > 0,
    ensures
        parts.len() <= parts.flatten().len(),
    decreases parts.len(),
{
    if parts.len() > 0 {
        let rest = parts.drop_first();
        assert forall|i: int| 0 <= i < rest.len() implies (#[trigger] rest[i]).len() > 0 by {
            assert(rest[i] == parts[i + 1]);
        }
        lemma_as_long_as_its_parts(rest);
        assert(parts[0].len() > 0);
    }
}

/// `s`, whose grapheme clusters are `clusters`, cut to at most `max` of them.
pub fn cap_clusters(s: &str, clusters: &Vec<String>, max: usize) -> (out: String)
    requires
        max > 0,
    ensures
        out@ == if clusters@.len() <= max {
            s@
        } else {
            texts(clusters@).take(max - 1).flatten().push('\u{2026}')
        },
{
    if clusters.len() <= max {
        return s.to_owned();
    }
    let mut out = String::new();
    let mut i: usize = 0;
    proof {
        assert(texts(clusters@).take(0) =~= Seq::<Seq<char>>::empty());
        assert(texts(clusters@).take(0).flatten() =~= Seq::<char>::empty());
    }
    while i < max - 1
        invariant
            0 < max < clusters@.len(),
            i <= max - 1,
            out@ == texts(clusters@).take(i as int).flatten(),
        decreases max - i,
    {
        let ghost before = texts(clusters@).take(i as int);
        proof {
            assert(texts(clusters@).take(i + 1) =~= before.push(clusters@[i as int]@));
            before.lemma_flatten_push(clusters@[i as int]@);
        }
        out.append(clusters[i].as_str());
        i = i + 1;
    }
    proof {
        reveal_strlit("\u{2026}");
        assert("\u{2026}"@ =~= seq!['\u{2026}']);
    }
    out.append("\u{2026}");
    proof {
        let head = texts(clusters@).take(max - 1).flatten();
        assert(head + seq!['\u{2026}'] =~= head.push('\u{2026}'));
    }
    out
}

/// What is left of `s` when each run of white space counts as one gap: the
/// words so far with single spaces between them, and whether a gap is open
/// behind them.
pub open spec fn collapse_state(s: Seq<char>) -> (Seq<char>, bool)
    decreases s.len(),
{
    if s.len() == 0 {
        (Seq::empty(), false)
    } else {
        let (words, gap) = collapse_state(s.drop_last());
        let c = s.last();
        if white_space(c) {
            (words, words.len() > 0)
        } else if gap {
            (words.push(' ').push(c), false)
        } else {
            (words.push(c), false)
        }
    }
}

/// The words of `s` with single spaces between them.
pub open spec fn collapsed(s: Seq<char>) -> Seq<char> {
    collapse_state(s).0
}

/// The words of `s` with single spaces between them.
pub fn collapse_white_space(s: &str) -> (out: String)
    ensures
        out@ == collapsed(s@),
{
    let chars = chars_of(s);
    let mut words: Vec<char> = Vec::new();
    let mut gap: bool = false;
    let mut i: usize = 0;
    while i < chars.len()
        invariant
            i <= chars.len(),
            chars@ == s@,
            (words@, gap) == collapse_state(s@.take(i as int)),
        decreases chars.len() - i,
    {
        let c = chars[i];
        proof {
            assert(s@.take(i + 1).drop_last() =~= s@.take(i as int));
        }
        if is_white_space(c) {
            gap = words.len() > 0;
        } else {
            if gap {
                words.push(' ');
            }
            words.push(c);
            gap = false;
        }
        i = i + 1;
    }
    proof {
        assert(s@.take(s@.len() as int) =~= s@);
    }
    string_of(&words)
}

// ---------------------------------------------------------------------------
// Numbers.
// ---------------------------------------------------------------------------

/// The decimal digit for `d`.
pub open spec fn digit(d: nat) -> char {
    (48 + d) as char
}

/// `n` in decimal, without leading zeros.
pub open spec fn decimal(n: nat) -> Seq<char>
    decreases n,
{
    if n < 10 {
        seq![digit(n)]
    } else {
        decimal(n / 10).push(digit(n % 10))
    }
}

/// `n` in decimal, with a minus sign in front of a negative number.
pub open spec fn signed_decimal(n: int) -> Seq<char> {
    if n < 0 {
        seq!['-'] + decimal((-n) as nat)
    } else {
        decimal(n as nat)
    }
}

fn decimal_chars(n: u64) -> (out: Vec<char>)
    ensures
        out@ == decimal(n as nat),
    decreases n,
{
    let d: u8 = (n % 10) as u8;
    let c: char = (48 + d) as char;
    if n < 10 {
        let mut out: Vec<char> = Vec::new();
        out.push(c);
        proof {
            assert(out@ =~= seq![digit(n as nat)]);
        }
        out
    } else {
        let mut out = decimal_chars(n / 10);
        out.push(c);
        out
    }
}

/// `n` in decimal.
pub fn decimal_text(n: u64) -> (out: String)
    ensures
        out@ == decimal(n as nat),
{
    let chars = decimal_chars(n);
    string_of(&chars)
}

/// `n` in decimal, with a minus sign in front of a negative number.
pub fn signed_decimal_text(n: i64) -> (out: String)
    ensures
        out@ == signed_decimal(n as int),
{
    if n < 0 {
        proof {
            reveal_strlit("-");
            assert("-"@ =~= seq!['-']);
        }
        let size: u64 = (-(n as i128)) as u64;
        let mut out = "-".to_owned();
        out.append(decimal_text(size).as_str());
        out
    } else {
        decimal_text(n as u64)
    }
}

/// Whether `c` is one of `0` to `9`.
pub open spec fn is_digit(c: char) -> bool {
    '0' <= c <= '9'
}

/// The value of a sequence of decimal digits.
pub open spec fn digits_value(s: Seq<char>) -> nat
    decreases s.len(),
{
    if s.len() == 0 {
        0
    } else {
        (digits_value(s.drop_last()) * 10 + (s.last() as int - 48)) as nat
    }
}

/// Whether every character of `s` is a digit.
pub open spec fn all_digits(s: Seq<char>) -> bool {
    forall|i: int| 0 <= i < s.len() ==> is_digit(#[trigger] s[i])
}

/// `s` without one plus sign in front.
pub open spec fn unsigned_digits(s: Seq<char>) -> Seq<char> {
    if s.len() > 0 && s[0] == '+' {
        s.subrange(1, s.len() as int)
    } else {
        s
    }
}

/// The number that `s` writes down in decimal, where it does: an optional plus
/// sign, then digits and nothing else, for a number of at most `max`.
pub open spec fn parsed_unsigned(s: Seq<char>, max: nat) -> Option<nat> {
    let digits = unsigned_digits(s);
    if digits.len() > 0 && all_digits(digits) && digits_value(digits) <= max {
        Some(digits_value(digits))
    } else {
        None
    }
}

proof fn lemma_digits_value_grows(s: Seq<char>, n: int)
    requires
        0 <= n <= s.len(),
        all_digits(s),
    ensures
        digits_value(s.take(n)) <= digits_value(s),
    decreases s.len(),
{
    if n == s.len() {
        assert(s.take(n) =~= s);
    } else {
        assert(is_digit(s[s.len() - 1]));
        assert forall|i: int| 0 <= i < s.drop_last().len() implies is_digit(
            #[trigger] s.drop_last()[i],
        ) by {
            assert(is_digit(s[i]));
        }
        lemma_digits_value_grows(s.drop_last(), n);
        assert(s.drop_last().take(n) =~= s.take(n));
    }
}

/// A number is read back from its decimal form, which is made of digits.
pub proof fn lemma_decimal_value(n: nat)
    ensures
        decimal(n).len() > 0,
        all_digits(decimal(n)),
        digits_value(decimal(n)) == n,
    decreases n,
{
    if n < 10 {
        reveal_with_fuel(digits_value, 2);
        assert(decimal(n).drop_last() =~= Seq::<char>::empty());
    } else {
        let front = decimal(n / 10);
        lemma_decimal_value(n / 10);
        assert(decimal(n).drop_last() =~= front);
        assert forall|i: int| 0 <= i < decimal(n).len() implies is_digit(
            #[trigger] decimal(n)[i],
        ) by {
            if i < front.len() {
                assert(decimal(n)[i] == front[i]);
            }
        }
    }
}

/// A number that is written down in decimal is read back as it was.
pub proof fn law_decimal_is_read_back(n: nat, max: nat)
    requires
        n <= max,
    ensures
        parsed_unsigned(decimal(n), max) == Some(n),
{
    lemma_decimal_value(n);
    assert(is_digit(decimal(n)[0]));
}

/// The `u64` that `s` writes down in decimal.
pub fn parse_u64(s: &str) -> (out: Option<u64>)
    ensures
        out matches Some(n) ==> parsed_unsigned(s@, u64::MAX as nat) == Some(n as nat),
        out is None ==> parsed_unsigned(s@, u64::MAX as nat) is None,
{
    let chars = chars_of(s);
    let start: usize = if chars.len() > 0 && chars[0] == '+' {
        1
    } else {
        0
    };
    let ghost digits = unsigned_digits(s@);
    proof {
        assert(digits =~= s@.subrange(start as int, s@.len() as int));
    }
    if start == chars.len() {
        return None;
    }
    let mut value: u64 = 0;
    let mut i: usize = start;
    while i < chars.len()
        invariant
            start <= i <= chars.len(),
            start < chars.len(),
            chars@ == s@,
            digits == unsigned_digits(s@),
            digits == s@.subrange(start as int, s@.len() as int),
            forall|k: int| 0 <= k < i - start ==> is_digit(#[trigger] digits[k]),
            value == digits_value(digits.take(i - start)),
        decreases chars.len() - i,
    {
        let c = chars[i];
        proof {
            assert(digits[i - start] == c);
        }
        if !('0' <= c && c <= '9') {
            return None;
        }
        let d: u64 = (c as u32 - 48) as u64;
        proof {
            let shown = digits.take(i - start + 1);
            assert(shown.drop_last() =~= digits.take(i - start));
            assert(shown.last() == c);
            assert(digits_value(shown) == value * 10 + d);
            if all_digits(digits) {
                lemma_digits_value_grows(digits, i - start + 1);
            }
        }
        if value > (u64::MAX - d) / 10 {
            proof {
                assert(value * 10 + d > u64::MAX);
            }
            return None;
        }
        value = value * 10 + d;
        i = i + 1;
    }
    proof {
        assert(digits.take(digits.len() as int) =~= digits);
    }
    Some(value)
}

/// The `u32` that `s` writes down in decimal.
pub fn parse_u32(s: &str) -> (out: Option<u32>)
    ensures
        out matches Some(n) ==> parsed_unsigned(s@, u32::MAX as nat) == Some(n as nat),
        out is None ==> parsed_unsigned(s@, u32::MAX as nat) is None,
{
    match parse_u64(s) {
        Some(n) => if n <= u32::MAX as u64 {
            Some(n as u32)
        } else {
            None
        },
        None => None,
    }
}

/// Two texts of digits, a dash and something else are the same only where both
/// parts are.
pub proof fn lemma_dash_splits(a: Seq<char>, b: Seq<char>, c: Seq<char>, d: Seq<char>)
    requires
        all_digits(a),
        all_digits(c),
        a + seq!['-'] + b == c + seq!['-'] + d,
    ensures
        a == c,
        b == d,
{
    let x = a + seq!['-'] + b;
    let y = c + seq!['-'] + d;
    if a.len() < c.len() {
        assert(x[a.len() as int] == '-');
        assert(y[a.len() as int] == c[a.len() as int]);
        assert(is_digit(c[a.len() as int]));
    } else if c.len() < a.len() {
        assert(y[c.len() as int] == '-');
        assert(x[c.len() as int] == a[c.len() as int]);
        assert(is_digit(a[c.len() as int]));
    }
    assert(a =~= x.take(a.len() as int));
    assert(c =~= y.take(c.len() as int));
    assert(b =~= x.skip(a.len() as int + 1));
    assert(d =~= y.skip(c.len() as int + 1));
}

/// What is dropped at the end of a text is all of the kind that is dropped.
pub proof fn lemma_trim_end_cuts(s: Seq<char>, drop: spec_fn(char) -> bool) -> (j: int)
    ensures
        0 <= j <= s.len(),
        trim_end_by(s, drop) == s.take(j),
        forall|k: int| j <= k < s.len() ==> drop(#[trigger] s[k]),
    decreases s.len(),
{
    if s.len() > 0 && drop(s.last()) {
        let j = lemma_trim_end_cuts(s.drop_last(), drop);
        assert(s.drop_last().take(j) =~= s.take(j));
        assert forall|k: int| j <= k < s.len() implies drop(#[trigger] s[k]) by {
            if k < s.len() - 1 {
                assert(s.drop_last()[k] == s[k]);
            }
        }
        j
    } else {
        assert(s.take(s.len() as int) =~= s);
        s.len() as int
    }
}

/// What is dropped at the start of a text is all of the kind that is dropped.
pub proof fn lemma_trim_start_cuts(s: Seq<char>, drop: spec_fn(char) -> bool) -> (i: int)
    ensures
        0 <= i <= s.len(),
        trim_start_by(s, drop) == s.skip(i),
        forall|k: int| 0 <= k < i ==> drop(#[trigger] s[k]),
    decreases s.len(),
{
    if s.len() > 0 && drop(s[0]) {
        let rest = s.subrange(1, s.len() as int);
        let i = lemma_trim_start_cuts(rest, drop);
        assert(rest.skip(i) =~= s.skip(i + 1));
        assert forall|k: int| 0 <= k < i + 1 implies drop(#[trigger] s[k]) by {
            if k > 0 {
                assert(rest[k - 1] == s[k]);
            }
        }
        i + 1
    } else {
        assert(s.skip(0) =~= s);
        0
    }
}

/// Trimming cuts white space off both ends of a text and nothing else.
pub proof fn law_trimming_cuts_white_space_alone(s: Seq<char>) -> (r: (int, int))
    ensures
        0 <= r.0 <= r.1 <= s.len(),
        trimmed(s) == s.subrange(r.0, r.1),
        forall|k: int| 0 <= k < s.len() && (k < r.0 || r.1 <= k) ==> white_space(#[trigger] s[k]),
{
    let j = lemma_trim_end_cuts(s, white());
    let front = s.take(j);
    let i = lemma_trim_start_cuts(front, white());
    assert(front.skip(i) =~= s.subrange(i, j));
    assert forall|k: int| 0 <= k < s.len() && (k < i || j <= k) implies white_space(
        #[trigger] s[k],
    ) by {
        if k < i {
            assert(front[k] == s[k]);
            assert(white()(front[k]));
        } else {
            assert(white()(s[k]));
        }
    }
    (i, j)
}

/// A text without white space at its ends is left alone by trimming.
pub proof fn lemma_trimmed_whole(s: Seq<char>)
    requires
        s.len() > 0 ==> !white_space(s[0]) && !white_space(s.last()),
    ensures
        trimmed(s) == s,
{
    if s.len() > 0 {
        assert(!white()(s.last()) && !white()(s[0]));
        assert(trim_end_by(s, white()) == s);
    }
}

/// What the views of optional texts and of lists of texts are.
pub proof fn law_views_hold_the_texts(x: String, s: Seq<String>, v: Vec<String>, i: int)
    ensures
        optional_text(Some(x)) == Some(x@),
        optional_text(None) is None,
        texts(s).len() == s.len(),
        0 <= i < s.len() ==> texts(s)[i] == s[i]@,
        optional_texts(None) is None,
        optional_texts(Some(v)) == Some(texts(v@)),
{
}

/// Splitting loses nothing: the parts with the separator between them make up the text,
/// and no part holds the separator.
pub proof fn law_splitting_loses_nothing(s: Seq<char>, sep: char)
    ensures
        split_on(s, sep).len() > 0,
        rejoined(split_on(s, sep), sep) == s,
        forall|i: int, j: int|
            0 <= i < split_on(s, sep).len() && 0 <= j < split_on(s, sep)[i].len()
                ==> #[trigger] split_on(s, sep)[i][j] != sep,
    decreases s.len(),
{
    if s.len() > 0 {
        let front = s.drop_last();
        law_splitting_loses_nothing(front, sep);
        let parts = split_on(front, sep);
        let now = split_on(s, sep);
        assert(front.push(s.last()) =~= s);
        if s.last() == sep {
            assert(now.drop_last() =~= parts);
            assert(rejoined(now, sep) =~= rejoined(parts, sep).push(sep));
            assert forall|i: int, j: int| 0 <= i < now.len() && 0 <= j < now[i].len() implies
                #[trigger] now[i][j] != sep by {
                assert(now[i] == parts[i]);
            }
        } else {
            assert(now.drop_last() =~= parts.drop_last());
            assert(rejoined(now, sep) =~= rejoined(parts, sep).push(s.last()));
            assert forall|i: int, j: int| 0 <= i < now.len() && 0 <= j < now[i].len() implies
                #[trigger] now[i][j] != sep by {
                if i < now.len() - 1 {
                    assert(now[i] == parts[i]);
                } else if j < parts.last().len() {
                    assert(now[i][j] == parts[i][j]);
                }
            }
        }
    } else {
        assert(rejoined(split_on(s, sep), sep) =~= s);
    }
}

/// The parts with the separator between them.
pub open spec fn rejoined(parts: Seq<Seq<char>>, sep: char) -> Seq<char>
    decreases parts.len(),
{
    if parts.len() == 0 {
        Seq::empty()
    } else if parts.len() == 1 {
        parts[0]
    } else {
        rejoined(parts.drop_last(), sep).push(sep) + parts.last()
    }
}

/// Collapsing takes white space alone: the other characters stay in their order, and a text
/// with single spaces between its words stays as it is.
pub proof fn law_collapsing_leaves_the_words(s: Seq<char>)
    ensures
        collapsed(s).filter(|c: char| !white_space(c)) == s.filter(|c: char| !white_space(c)),
        single_spaced(s) ==> collapsed(s) == s,
{
    lemma_collapsed_filter(s);
    if single_spaced(s) {
        lemma_collapsed_prefix(s, s.len() as int);
        assert(s.take(s.len() as int) =~= s);
    }
}

proof fn lemma_collapsed_filter(s: Seq<char>)
    ensures
        collapsed(s).filter(|c: char| !white_space(c)) == s.filter(|c: char| !white_space(c)),
    decreases s.len(),
{
    reveal(Seq::filter);
    if s.len() > 0 {
        let front = s.drop_last();
        let c = s.last();
        let (words, gap) = collapse_state(front);
        lemma_collapsed_filter(front);
        let p = |c: char| !white_space(c);
        assert(white_space(' '));
        if !white_space(c) {
            assert(words.push(c).drop_last() =~= words);
            assert(words.push(' ').drop_last() =~= words);
            assert(words.push(' ').push(c).drop_last() =~= words.push(' '));
            assert(words.push(' ').filter(p) == words.filter(p));
            assert(words.push(c).filter(p) == words.filter(p).push(c));
            assert(words.push(' ').push(c).filter(p) == words.push(' ').filter(p).push(c));
            assert(s.filter(p) == front.filter(p).push(c));
        } else {
            assert(s.filter(p) == front.filter(p));
        }
    }
}

proof fn lemma_collapsed_prefix(s: Seq<char>, n: int)
    requires
        single_spaced(s),
        0 <= n <= s.len(),
    ensures
        n == 0 || !white_space(s[n - 1]) ==> collapse_state(s.take(n)) == (s.take(n), false),
        n > 0 && white_space(s[n - 1]) ==> n > 1 && collapse_state(s.take(n)) == (
            s.take(n - 1),
            true,
        ),
    decreases n,
{
    if n > 0 {
        lemma_collapsed_prefix(s, n - 1);
        assert(s.take(n).drop_last() =~= s.take(n - 1));
        assert(s.take(n).last() == s[n - 1]);
        assert(s.take(n - 1).push(s[n - 1]) =~= s.take(n));
        if n > 1 {
            assert(s.take(n - 2).push(s[n - 2]) =~= s.take(n - 1));
        }
    } else {
        assert(s.take(0) =~= Seq::empty());
    }
}

/// White space counts once, whatever kind it is, and not at all at the ends.
pub proof fn law_white_space_counts_once(a: Seq<char>, w: char, x: char, b: Seq<char>)
    requires
        white_space(w),
        white_space(x),
    ensures
        collapsed(a.push(w).push(x) + b) == collapsed(a.push(w) + b),
        collapsed(a.push(w) + b) == collapsed(a.push(x) + b),
        collapsed(a.push(w)) == collapsed(a),
        collapsed(seq![w] + b) == collapsed(b),
{
    assert(a.push(w).drop_last() =~= a);
    assert(a.push(x).drop_last() =~= a);
    assert(a.push(w).push(x).drop_last() =~= a.push(w));
    lemma_collapse_goes_on(a.push(w).push(x), a.push(w), b);
    lemma_collapse_goes_on(a.push(w), a.push(x), b);
    assert(seq![w].drop_last() =~= Seq::empty());
    lemma_collapse_goes_on(seq![w], Seq::empty(), b);
    assert(Seq::<char>::empty() + b =~= b);
}

proof fn lemma_collapse_goes_on(s: Seq<char>, t: Seq<char>, b: Seq<char>)
    requires
        collapse_state(s) == collapse_state(t),
    ensures
        collapse_state(s + b) == collapse_state(t + b),
    decreases b.len(),
{
    if b.len() == 0 {
        assert(s + b =~= s && t + b =~= t);
    } else {
        lemma_collapse_goes_on(s, t, b.drop_last());
        assert((s + b).drop_last() =~= s + b.drop_last());
        assert((t + b).drop_last() =~= t + b.drop_last());
    }
}

} // verus!
