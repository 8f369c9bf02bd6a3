//! What holds of the deck whatever is done with it.

use crate::deck::{
    ask_at, ask_document, ask_expired, ask_id_of, ask_named, ask_of, by_ask, by_perm, cleared,
    form_document, left_of, lemma_ask_document_fields, lemma_ask_document_is_plain,
    options_document, orphan_of, perm_expired, perm_of, puts, revised, settled_note, shows_ask,
    shows_perm, taken_of, AskFileRecord, PendingAsk, ShellPerm,
};
use crate::files::{law_stem_names_the_file, stem_of};
use crate::ipc::{file_stem_ok, optional_form, AskAnswerKind, AskRow, PermRow};
use crate::json::{optional_text_of, plain, DEPTH_LIMIT};
use crate::lists::{
    lemma_filtered_from, lemma_filtered_keeps, lemma_first_where, lemma_is_first,
    lemma_pairwise_filtered, others,
};
use crate::mcp_server::AskRequestView;
use crate::text::{
    decimal, is_digit, lemma_dash_splits, lemma_decimal_value, optional_text, optional_texts,
};
use vstd::prelude::*;

verus! {

/// Whether no two questions have the same id.
pub open spec fn asks_once(asks: Seq<PendingAsk>) -> bool {
    forall|i: int, j: int|
        0 <= i < j < asks.len() ==> (#[trigger] asks[i]).id@ != (#[trigger] asks[j]).id@
}

/// Revising a question leaves the queue as it is: as many questions, with the
/// same ids in the same order, and all others unchanged.
pub proof fn law_update_keeps_the_queue(
    before: Seq<PendingAsk>,
    i: int,
    after: PendingAsk,
    question: Option<Seq<char>>,
    options: Option<Seq<Seq<char>>>,
    detail: Option<Seq<char>>,
)
    requires
        0 <= i < before.len(),
        revised(before[i], after, question, options, detail),
    ensures
        before.update(i, after).len() == before.len(),
        forall|k: int|
            0 <= k < before.len() ==> (#[trigger] before.update(i, after)[k]).id@ == before[k].id@,
        forall|k: int|
            0 <= k < before.len() && k != i ==> #[trigger] before.update(i, after)[k] == before[k],
        asks_once(before) ==> asks_once(before.update(i, after)),
{
    let changed = before.update(i, after);
    if asks_once(before) {
        assert forall|a: int, b: int| 0 <= a < b < changed.len() implies (#[trigger] changed[a]).id@
            != (#[trigger] changed[b]).id@ by {
            assert(changed[a].id@ == before[a].id@);
            assert(changed[b].id@ == before[b].id@);
        }
    }
}

/// Revising with nothing changes nothing that is shown.
pub proof fn law_empty_update_changes_nothing(before: PendingAsk, after: PendingAsk, row: AskRow)
    requires
        revised(before, after, None, None, None),
        shows_ask(row, before),
    ensures
        shows_ask(row, after),
{
}

/// A question that is taken out, answered or cancelled, is out: with every id on
/// the deck once, its id is not found again, and the other questions stay in
/// their order.
pub proof fn law_taken_once(asks: Seq<PendingAsk>, id: Seq<char>)
    requires
        asks_once(asks),
        ask_at(asks, id) is Some,
    ensures
        ask_at(asks.remove(ask_at(asks, id)->Some_0), id) is None,
        asks_once(asks.remove(ask_at(asks, id)->Some_0)),
        asks.remove(ask_at(asks, id)->Some_0).len() == asks.len() - 1,
{
    let named = |a: PendingAsk| ask_named(a, id);
    lemma_first_where(asks, named);
    let i = ask_at(asks, id)->Some_0;
    let rest = asks.remove(i);
    lemma_first_where(rest, named);
    assert forall|a: int, b: int| 0 <= a < b < rest.len() implies (#[trigger] rest[a]).id@ != (
    #[trigger] rest[b]).id@ by {
        let x = if a < i {
            a
        } else {
            a + 1
        };
        let y = if b < i {
            b
        } else {
            b + 1
        };
        assert(rest[a] == asks[x]);
        assert(rest[b] == asks[y]);
    }
    if ask_at(rest, id) is Some {
        let k = ask_at(rest, id)->Some_0;
        assert(named(rest[k]));
        if k < i {
            assert(rest[k] == asks[k]);
        } else {
            assert(rest[k] == asks[k + 1]);
        }
    }
}

/// A question that never expires is never swept, and neither is one that nobody
/// waits for.
pub proof fn law_persistent_asks_stay(asks: Seq<PendingAsk>, now: u64, i: int)
    requires
        0 <= i < asks.len(),
        asks[i].persistent || asks[i].orphaned,
    ensures
        others(asks, |a: PendingAsk| ask_expired(a, now)).contains(asks[i]),
        !asks.filter(|a: PendingAsk| ask_expired(a, now)).contains(asks[i]),
{
    let expired = |a: PendingAsk| ask_expired(a, now);
    let k = lemma_filtered_keeps(asks, |a: PendingAsk| !expired(a), i);
    let swept = asks.filter(expired);
    if swept.contains(asks[i]) {
        let j = choose|j: int| 0 <= j < swept.len() && swept[j] == asks[i];
        let source = lemma_filtered_from(asks, expired, j);
    }
}

/// A sweep leaves nothing that has expired and takes nothing that has not.
pub proof fn law_sweep_is_exact(
    asks: Seq<PendingAsk>,
    now: u64,
    swept: Seq<PendingAsk>,
    left: Seq<PendingAsk>,
)
    requires
        swept == asks.filter(|a: PendingAsk| ask_expired(a, now)),
        left == others(asks, |a: PendingAsk| ask_expired(a, now)),
    ensures
        forall|i: int| 0 <= i < swept.len() ==> ask_expired(#[trigger] swept[i], now),
        forall|i: int| 0 <= i < left.len() ==> !ask_expired(#[trigger] left[i], now),
        swept.len() + left.len() == asks.len(),
{
    let expired = |a: PendingAsk| ask_expired(a, now);
    let kept = |a: PendingAsk| !expired(a);
    assert forall|i: int| 0 <= i < swept.len() implies ask_expired(#[trigger] swept[i], now) by {
        let k = lemma_filtered_from(asks, expired, i);
    }
    assert forall|i: int| 0 <= i < left.len() implies !ask_expired(#[trigger] left[i], now) by {
        let k = lemma_filtered_from(asks, kept, i);
    }
    lemma_filter_splits(asks, expired);
}

/// The time that a row shows is the time at which the request is swept.
pub proof fn law_shown_expiry_is_the_deadline(row: PermRow, perm: ShellPerm, now: u64)
    requires
        shows_perm(row, perm),
    ensures
        row.expires_at matches Some(at) && perm_expired(perm, now) == (now >= at),
{
}

/// The time that a row shows is the time at which a question expires, unless
/// nobody waits for it; a row without a time is one that never expires.
pub proof fn law_shown_timeout_is_the_deadline(row: AskRow, ask: PendingAsk, now: u64)
    requires
        shows_ask(row, ask),
        !ask.orphaned,
    ensures
        ask_expired(ask, now) == (row.timeout_at matches Some(at) && now >= at),
{
}

/// A question without a time limit never expires; one with a time limit does when
/// the limit has passed, and not before.
pub proof fn law_time_limit_is_kept(
    ask: PendingAsk,
    request: AskRequestView,
    id: Seq<char>,
    put_at: u64,
    now: u64,
)
    requires
        puts(ask, request, id, put_at),
    ensures
        request.timeout_seconds is None ==> !ask_expired(ask, now),
        request.timeout_seconds matches Some(secs) ==> (secs * 1000 <= u64::MAX ==> (ask_expired(
            ask,
            now,
        ) == (now >= put_at + secs * 1000))),
{
}

/// The engine hears of an answer only where one reached the agent.
pub proof fn law_undelivered_is_not_answered(session_id: Option<Seq<char>>, kind: AskAnswerKind)
    ensures
        settled_note(session_id, kind, false) == cleared(session_id),
        settled_note(session_id, AskAnswerKind::Dismissed, true) == cleared(session_id),
        settled_note(session_id, AskAnswerKind::Terminal, true) == cleared(session_id),
{
}

/// A question of an earlier process is shown as such, comes before all that
/// arrived since, and stays until the user dismisses it.
pub proof fn law_orphans_stay(ask: PendingAsk, rec: AskFileRecord, row: AskRow, now: u64)
    requires
        orphan_of(ask, rec),
        shows_ask(row, ask),
    ensures
        row.orphaned,
        row.queued_at == 0,
        !ask_expired(ask, now),
{
}

// ---------------------------------------------------------------------------
// Sessions that are gone.
// ---------------------------------------------------------------------------

proof fn lemma_left_of<T>(
    items: Seq<T>,
    gone: Seq<Seq<char>>,
    of: spec_fn(T, Seq<char>) -> bool,
    i: int,
) -> (k: int)
    requires
        0 <= i < left_of(items, gone, of).len(),
    ensures
        0 <= k < items.len(),
        items[k] == left_of(items, gone, of)[i],
        forall|g: int| 0 <= g < gone.len() ==> !of(items[k], #[trigger] gone[g]),
    decreases gone.len(),
{
    if gone.len() == 0 {
        i
    } else {
        let front = left_of(items, gone.drop_last(), of);
        let last = |x: T| of(x, gone.last());
        let j = lemma_filtered_from(front, |x: T| !last(x), i);
        let k = lemma_left_of(items, gone.drop_last(), of, j);
        assert forall|g: int| 0 <= g < gone.len() implies !of(items[k], #[trigger] gone[g]) by {
            if g < gone.len() - 1 {
                assert(gone[g] == gone.drop_last()[g]);
            }
        }
        k
    }
}

proof fn lemma_still_left<T>(
    items: Seq<T>,
    gone: Seq<Seq<char>>,
    of: spec_fn(T, Seq<char>) -> bool,
    k: int,
) -> (i: int)
    requires
        0 <= k < items.len(),
        forall|g: int| 0 <= g < gone.len() ==> !of(items[k], #[trigger] gone[g]),
    ensures
        0 <= i < left_of(items, gone, of).len(),
        left_of(items, gone, of)[i] == items[k],
    decreases gone.len(),
{
    if gone.len() == 0 {
        k
    } else {
        assert forall|g: int| 0 <= g < gone.drop_last().len() implies !of(
            items[k],
            #[trigger] gone.drop_last()[g],
        ) by {
            assert(gone.drop_last()[g] == gone[g]);
        }
        let j = lemma_still_left(items, gone.drop_last(), of, k);
        let front = left_of(items, gone.drop_last(), of);
        let last = |x: T| of(x, gone.last());
        assert(!of(items[k], gone[gone.len() - 1]));
        lemma_filtered_keeps(front, |x: T| !last(x), j)
    }
}

/// When sessions are gone, no question of theirs is left on the deck, and every
/// other question is.
pub proof fn law_gone_sessions_leave_no_asks(asks: Seq<PendingAsk>, gone: Seq<Seq<char>>)
    ensures
        forall|i: int, g: int|
            0 <= i < left_of(asks, gone, by_ask()).len() && 0 <= g < gone.len() ==> !ask_of(
                #[trigger] left_of(asks, gone, by_ask())[i],
                #[trigger] gone[g],
            ),
        forall|k: int|
            0 <= k < asks.len() && (forall|g: int|
                0 <= g < gone.len() ==> !ask_of(asks[k], #[trigger] gone[g])) ==> left_of(
                asks,
                gone,
                by_ask(),
            ).contains(#[trigger] asks[k]),
{
    let left = left_of(asks, gone, by_ask());
    assert forall|i: int, g: int| 0 <= i < left.len() && 0 <= g < gone.len() implies !ask_of(
        #[trigger] left[i],
        #[trigger] gone[g],
    ) by {
        let k = lemma_left_of(asks, gone, by_ask(), i);
        assert(!by_ask()(asks[k], gone[g]));
    }
    assert forall|k: int|
        0 <= k < asks.len() && (forall|g: int|
            0 <= g < gone.len() ==> !ask_of(asks[k], #[trigger] gone[g])) implies left.contains(
        #[trigger] asks[k],
    ) by {
        assert forall|g: int| 0 <= g < gone.len() implies !by_ask()(asks[k], #[trigger] gone[g]) by {
            assert(!ask_of(asks[k], gone[g]));
        }
        let i = lemma_still_left(asks, gone, by_ask(), k);
    }
}

/// When sessions are gone, no request of theirs is left on the deck, and every
/// other request is.
pub proof fn law_gone_sessions_leave_no_perms(perms: Seq<ShellPerm>, gone: Seq<Seq<char>>)
    ensures
        forall|i: int, g: int|
            0 <= i < left_of(perms, gone, by_perm()).len() && 0 <= g < gone.len() ==> !perm_of(
                #[trigger] left_of(perms, gone, by_perm())[i],
                #[trigger] gone[g],
            ),
        forall|k: int|
            0 <= k < perms.len() && (forall|g: int|
                0 <= g < gone.len() ==> !perm_of(perms[k], #[trigger] gone[g])) ==> left_of(
                perms,
                gone,
                by_perm(),
            ).contains(#[trigger] perms[k]),
{
    let left = left_of(perms, gone, by_perm());
    assert forall|i: int, g: int| 0 <= i < left.len() && 0 <= g < gone.len() implies !perm_of(
        #[trigger] left[i],
        #[trigger] gone[g],
    ) by {
        let k = lemma_left_of(perms, gone, by_perm(), i);
        assert(!by_perm()(perms[k], gone[g]));
    }
    assert forall|k: int|
        0 <= k < perms.len() && (forall|g: int|
            0 <= g < gone.len() ==> !perm_of(perms[k], #[trigger] gone[g])) implies left.contains(
        #[trigger] perms[k],
    ) by {
        assert forall|g: int| 0 <= g < gone.len() implies !by_perm()(
            perms[k],
            #[trigger] gone[g],
        ) by {
            assert(!perm_of(perms[k], gone[g]));
        }
        let i = lemma_still_left(perms, gone, by_perm(), k);
    }
}

proof fn lemma_filter_splits<T>(s: Seq<T>, pred: spec_fn(T) -> bool)
    ensures
        s.filter(pred).len() + others(s, pred).len() == s.len(),
    decreases s.len(),
{
    reveal(Seq::filter);
    if s.len() > 0 {
        lemma_filter_splits(s.drop_last(), pred);
    }
}

/// Nothing is lost: what is taken off the deck with gone sessions and what is
/// left make up what was there.
pub proof fn law_nothing_is_lost<T>(
    items: Seq<T>,
    gone: Seq<Seq<char>>,
    of: spec_fn(T, Seq<char>) -> bool,
)
    ensures
        taken_of(items, gone, of).len() + left_of(items, gone, of).len() == items.len(),
    decreases gone.len(),
{
    if gone.len() > 0 {
        law_nothing_is_lost(items, gone.drop_last(), of);
        lemma_filter_splits(
            left_of(items, gone.drop_last(), of),
            |x: T| of(x, gone.last()),
        );
    }
}

// ---------------------------------------------------------------------------
// Ids.
// ---------------------------------------------------------------------------

/// Two questions that arrive at different times or have different numbers have
/// different ids.
pub proof fn law_ask_ids_differ(now: nat, seq: nat, other_now: nat, other_seq: nat)
    requires
        now != other_now || seq != other_seq,
    ensures
        ask_id_of(now, seq) != ask_id_of(other_now, other_seq),
{
    reveal_strlit("ask-");
    reveal_strlit("-");
    assert("-"@ =~= seq!['-']);
    lemma_decimal_value(now);
    lemma_decimal_value(seq);
    lemma_decimal_value(other_now);
    lemma_decimal_value(other_seq);
    if ask_id_of(now, seq) == ask_id_of(other_now, other_seq) {
        let a = decimal(now) + seq!['-'] + decimal(seq);
        let b = decimal(other_now) + seq!['-'] + decimal(other_seq);
        assert(a =~= ask_id_of(now, seq).skip(4));
        assert(b =~= ask_id_of(other_now, other_seq).skip(4));
        lemma_dash_splits(decimal(now), decimal(seq), decimal(other_now), decimal(other_seq));
    }
}

/// A question with a new id leaves every id on the deck once.
pub proof fn law_submitting_keeps_ids_once(
    before: Seq<PendingAsk>,
    after: Seq<PendingAsk>,
    id: Seq<char>,
)
    requires
        asks_once(before),
        ask_at(before, id) is None,
        after.len() == before.len() + 1,
        after.drop_last() == before,
        after.last().id@ == id,
    ensures
        asks_once(after),
{
    lemma_first_where(before, |a: PendingAsk| ask_named(a, id));
    assert forall|i: int, j: int| 0 <= i < j < after.len() implies (#[trigger] after[i]).id@ != (
    #[trigger] after[j]).id@ by {
        assert(after[i] == before[i]);
        if j < before.len() {
            assert(after[j] == before[j]);
        } else {
            assert(!ask_named(before[i], id));
        }
    }
}

/// Taking questions away by whatever condition leaves every id on the deck once,
/// and so does taking away those of sessions that are gone.
pub proof fn law_taking_away_keeps_ids_once(
    asks: Seq<PendingAsk>,
    pred: spec_fn(PendingAsk) -> bool,
    gone: Seq<Seq<char>>,
)
    requires
        asks_once(asks),
    ensures
        asks_once(others(asks, pred)),
        asks_once(left_of(asks, gone, by_ask())),
    decreases gone.len(),
{
    lemma_pairwise_filtered(asks, other_id(), |a: PendingAsk| !pred(a));
    if gone.len() > 0 {
        law_taking_away_keeps_ids_once(asks, pred, gone.drop_last());
        let last = |a: PendingAsk| by_ask()(a, gone.last());
        lemma_pairwise_filtered(
            left_of(asks, gone.drop_last(), by_ask()),
            other_id(),
            |a: PendingAsk| !last(a),
        );
    }
}

/// Whether two questions have different ids.
pub open spec fn other_id() -> spec_fn(PendingAsk, PendingAsk) -> bool {
    |a: PendingAsk, b: PendingAsk| a.id@ != b.id@
}

/// Whether the questions stand in the order in which they arrived.
pub open spec fn in_order_of_arrival(asks: Seq<PendingAsk>) -> bool {
    forall|i: int, j: int|
        0 <= i < j < asks.len() ==> (#[trigger] asks[i]).enqueued_ms <= (
        #[trigger] asks[j]).enqueued_ms
}

/// Questions stay in the order in which they arrived: when one is put behind those
/// that arrived before it, when one is taken out, and when some are taken away.
pub proof fn law_order_of_arrival_is_kept(
    asks: Seq<PendingAsk>,
    new: PendingAsk,
    i: int,
    pred: spec_fn(PendingAsk) -> bool,
)
    requires
        in_order_of_arrival(asks),
        forall|k: int| 0 <= k < asks.len() ==> (#[trigger] asks[k]).enqueued_ms <= new.enqueued_ms,
        0 <= i < asks.len(),
    ensures
        in_order_of_arrival(asks.push(new)),
        in_order_of_arrival(asks.remove(i)),
        in_order_of_arrival(others(asks, pred)),
{
    let earlier = |a: PendingAsk, b: PendingAsk| a.enqueued_ms <= b.enqueued_ms;
    lemma_pairwise_filtered(asks, earlier, |a: PendingAsk| !pred(a));
    let rest = asks.remove(i);
    assert forall|a: int, b: int| 0 <= a < b < rest.len() implies (#[trigger] rest[a]).enqueued_ms
        <= (#[trigger] rest[b]).enqueued_ms by {
        let x = if a < i {
            a
        } else {
            a + 1
        };
        let y = if b < i {
            b
        } else {
            b + 1
        };
        assert(rest[a] == asks[x]);
        assert(rest[b] == asks[y]);
    }
}

/// An answer finds the question that it is for: with every id on the deck once, a
/// file named after a question leads to that question and no other.
pub proof fn law_an_answer_finds_its_question(asks: Seq<PendingAsk>, i: int)
    requires
        asks_once(asks),
        0 <= i < asks.len(),
        asks[i].id@.len() > 0,
    ensures
        stem_of(asks[i].id@ + ".json"@) == Some(asks[i].id@),
        ask_at(asks, asks[i].id@) == Some(i),
{
    let id = asks[i].id@;
    lemma_is_first(asks, |a: PendingAsk| ask_named(a, id), i);
    law_stem_names_the_file(id);
}

/// Every question can be answered: its id can name a file.
pub proof fn law_ask_ids_name_files(now: nat, seq: nat)
    ensures
        file_stem_ok(ask_id_of(now, seq)),
        stem_of(ask_id_of(now, seq) + ".json"@) == Some(ask_id_of(now, seq)),
{
    let id = ask_id_of(now, seq);
    reveal_strlit("ask-");
    reveal_strlit("-");
    reveal_strlit(".");
    reveal_strlit("..");
    lemma_decimal_value(now);
    lemma_decimal_value(seq);
    assert forall|i: int| 0 <= i < id.len() implies #[trigger] id[i] != '/' && id[i] != '\\' by {
        let n = decimal(now).len() as int;
        if 4 <= i < 4 + n {
            assert(id[i] == decimal(now)[i - 4]);
            assert(is_digit(decimal(now)[i - 4]));
        } else if 4 + n < i {
            assert(id[i] == decimal(seq)[i - 5 - n]);
            assert(is_digit(decimal(seq)[i - 5 - n]));
        }
    }
    law_stem_names_the_file(id);
}

/// What is written down of a question says what it says: read as a document, the
/// file has the question's own fields.
pub proof fn law_the_file_holds_the_question(ask: PendingAsk, created_at_ms: u64)
    ensures
        plain(ask_document(ask, created_at_ms), DEPTH_LIMIT as nat),
        ask_document(ask, created_at_ms).field_text("id"@) == Some(ask.id@),
        ask_document(ask, created_at_ms).field_text("question"@) == Some(ask.question@),
        ask_document(ask, created_at_ms).field("sessionId"@) == Some(
            optional_text_of(optional_text(ask.session_id)),
        ),
        ask_document(ask, created_at_ms).field("project"@) == Some(
            optional_text_of(optional_text(ask.project)),
        ),
        ask_document(ask, created_at_ms).field("options"@) == Some(
            options_document(optional_texts(ask.options)),
        ),
        ask_document(ask, created_at_ms).field("questions"@) == Some(
            form_document(optional_form(ask.questions)),
        ),
        ask_document(ask, created_at_ms).field("detail"@) == Some(
            optional_text_of(optional_text(ask.detail)),
        ),
        ask_document(ask, created_at_ms).field("context"@) == Some(
            optional_text_of(optional_text(ask.context)),
        ),
{
    lemma_ask_document_is_plain(ask, created_at_ms);
    lemma_ask_document_fields(ask, created_at_ms);
}

} // verus!
