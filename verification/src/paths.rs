//! Paths as agents write them: with either separator, and with or without one
//! at the end.

use crate::text::{chars_of, same_text, slice_of, trim, trim_end_by, trimmed};
use vstd::prelude::*;

verus! {

/// Whether `c` separates the parts of a path.
pub open spec fn separator(c: char) -> bool {
    c == '/' || c == '\\'
}

/// `/` in place of either separator.
pub open spec fn forward(c: char) -> char {
    if c == '\\' {
        '/'
    } else {
        c
    }
}

/// A path in the form in which two paths are compared: trimmed, with forward
/// slashes, and with none at the end.
pub open spec fn normal_path(p: Seq<char>) -> Seq<char> {
    trim_end_by(trimmed(p).map_values(|c: char| forward(c)), |c: char| c == '/')
}

/// A path in the form in which two paths are compared.
pub fn norm_path(p: &str) -> (out: String)
    ensures
        out@ == normal_path(p@),
{
    let clean = trim(p);
    let chars = chars_of(clean.as_str());
    let ghost all = trimmed(p@).map_values(|c: char| forward(c));
    let ghost slash = |c: char| c == '/';
    let mut forwards: Vec<char> = Vec::new();
    let mut i: usize = 0;
    while i < chars.len()
        invariant
            i <= chars@.len(),
            chars@ == trimmed(p@),
            all == trimmed(p@).map_values(|c: char| forward(c)),
            forwards@ == all.take(i as int),
        decreases chars.len() - i,
    {
        let c: char = if chars[i] == '\\' {
            '/'
        } else {
            chars[i]
        };
        forwards.push(c);
        i = i + 1;
        proof {
            assert(all.take(i as int) =~= all.take(i - 1).push(c));
        }
    }
    proof {
        assert(all.take(all.len() as int) =~= all);
        assert(all.subrange(0, all.len() as int) =~= all);
    }
    let mut end: usize = forwards.len();
    while end > 0 && forwards[end - 1] == '/'
        invariant
            end <= forwards@.len(),
            forwards@ == all,
            slash == (|c: char| c == '/'),
            trim_end_by(all, slash) == trim_end_by(all.subrange(0, end as int), slash),
        decreases end,
    {
        proof {
            assert(all.subrange(0, end as int).drop_last() =~= all.subrange(0, end - 1));
        }
        end = end - 1;
    }
    slice_of(&forwards, 0, end)
}

/// What follows the last separator.
pub open spec fn last_part(p: Seq<char>) -> Seq<char>
    decreases p.len(),
{
    if p.len() == 0 || separator(p.last()) {
        Seq::empty()
    } else {
        last_part(p.drop_last()).push(p.last())
    }
}

/// The last part of a path, separators at its end left aside.
pub open spec fn base_name(p: Seq<char>) -> Seq<char> {
    last_part(trim_end_by(trimmed(p), |c: char| separator(c)))
}

/// The last part of a path, separators at its end left aside.
pub fn basename(p: &str) -> (out: String)
    ensures
        out@ == base_name(p@),
{
    let clean = trim(p);
    let chars = chars_of(clean.as_str());
    let ghost all = trimmed(p@);
    let ghost sep = |c: char| separator(c);
    let mut end: usize = chars.len();
    proof {
        assert(all.subrange(0, all.len() as int) =~= all);
    }
    while end > 0 && (chars[end - 1] == '/' || chars[end - 1] == '\\')
        invariant
            end <= chars@.len(),
            chars@ == all,
            sep == (|c: char| separator(c)),
            trim_end_by(all, sep) == trim_end_by(all.subrange(0, end as int), sep),
        decreases end,
    {
        proof {
            assert(all.subrange(0, end as int).drop_last() =~= all.subrange(0, end - 1));
        }
        end = end - 1;
    }
    let ghost kept = all.subrange(0, end as int);
    let mut start: usize = end;
    proof {
        assert(kept.subrange(0, end as int) =~= kept);
        assert(last_part(kept) + Seq::<char>::empty() =~= last_part(kept));
        assert(all.subrange(end as int, end as int) =~= Seq::<char>::empty());
    }
    while start > 0 && !(chars[start - 1] == '/' || chars[start - 1] == '\\')
        invariant
            start <= end <= chars@.len(),
            chars@ == all,
            kept == all.subrange(0, end as int),
            last_part(kept) == last_part(kept.subrange(0, start as int)) + all.subrange(
                start as int,
                end as int,
            ),
        decreases start,
    {
        proof {
            let head = kept.subrange(0, start as int);
            assert(head.drop_last() =~= kept.subrange(0, start - 1));
            assert(head.last() == all[start - 1]);
            assert(last_part(head.drop_last()).push(head.last()) + all.subrange(
                start as int,
                end as int,
            ) =~= last_part(kept.subrange(0, start - 1)) + all.subrange(start - 1, end as int));
        }
        start = start - 1;
    }
    proof {
        assert(last_part(kept.subrange(0, start as int)) =~= Seq::<char>::empty());
        assert(Seq::<char>::empty() + all.subrange(start as int, end as int) =~= all.subrange(
            start as int,
            end as int,
        ));
    }
    slice_of(&chars, start, end)
}

/// The text that `str::to_lowercase` makes of a text.
pub uninterp spec fn lowercase(s: Seq<char>) -> Seq<char>;

/// Calls `str::to_lowercase`. Claimed of it: the result depends on the text
/// alone. What each character becomes is left unsaid.
#[verifier::external_body]
fn to_lowercase(s: &str) -> (out: String)
    ensures
        out@ == lowercase(s@),
{
    s.to_lowercase()
}

/// Whether two paths name the same place; where the file system ignores case,
/// so does the comparison.
pub open spec fn same_place(a: Seq<char>, b: Seq<char>, ignore_case: bool) -> bool {
    if ignore_case {
        lowercase(normal_path(a)) == lowercase(normal_path(b))
    } else {
        normal_path(a) == normal_path(b)
    }
}

/// Whether two paths name the same place.
pub fn paths_eq(a: &str, b: &str, ignore_case: bool) -> (same: bool)
    ensures
        same == same_place(a@, b@, ignore_case),
{
    let x = norm_path(a);
    let y = norm_path(b);
    if ignore_case {
        same_text(to_lowercase(x.as_str()).as_str(), to_lowercase(y.as_str()).as_str())
    } else {
        same_text(x.as_str(), y.as_str())
    }
}

/// Naming the same place is an equivalence.
pub proof fn law_same_place_is_an_equivalence(
    a: Seq<char>,
    b: Seq<char>,
    c: Seq<char>,
    ignore_case: bool,
)
    ensures
        same_place(a, a, ignore_case),
        same_place(a, b, ignore_case) ==> same_place(b, a, ignore_case),
        same_place(a, b, ignore_case) && same_place(b, c, ignore_case) ==> same_place(
            a,
            c,
            ignore_case,
        ),
{
}

proof fn lemma_last_part_is_one_part(p: Seq<char>)
    ensures
        forall|i: int| 0 <= i < last_part(p).len() ==> !separator(#[trigger] last_part(p)[i]),
    decreases p.len(),
{
    if p.len() > 0 && !separator(p.last()) {
        let front = last_part(p.drop_last());
        lemma_last_part_is_one_part(p.drop_last());
        assert forall|i: int| 0 <= i < last_part(p).len() implies !separator(
            #[trigger] last_part(p)[i],
        ) by {
            if i < front.len() {
                assert(last_part(p)[i] == front[i]);
            }
        }
    }
}

/// The last part of a path holds no separator.
pub proof fn law_base_name_is_one_part(p: Seq<char>)
    ensures
        forall|i: int| 0 <= i < base_name(p).len() ==> !separator(#[trigger] base_name(p)[i]),
{
    lemma_last_part_is_one_part(trim_end_by(trimmed(p), |c: char| separator(c)));
}

} // verus!
