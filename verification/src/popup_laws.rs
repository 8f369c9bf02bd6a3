//! What holds of all that the popup shows.

use crate::deck::{ask_to_row, perm_to_row, Deck, PendingAsk, ShellPerm};
use crate::ipc::{
    apply_remove_ask, apply_remove_perm, apply_remove_row, optional_form, recompute_counts,
    tray_color, worst_status, AskRow, Counts, PermRow, SessionRow, SessionStatus, StateSnapshot,
};
use crate::json::{lemma_first_field, lemma_no_field, JsonView};
use crate::lists::{lemma_filtered_from, lemma_filtered_keeps, lemma_first_where, lemma_is_first};
use crate::mcp_server::mcp_command;
use crate::sessions::{map_row, map_status, EngineStatus, SessionView};
use crate::settings::{PopupMode, Settings};
use crate::shell::{snapshot, SessionUsage, ShellFacts};
use crate::text::{optional_text, optional_texts, texts};
use vstd::prelude::*;

verus! {

/// The row of a question shows its id, session, project, text, options, form and details;
/// when it came; when it expires, unless it never does; where it came from, where its
/// session is not known; and whether anybody waits for it.
pub proof fn law_a_question_is_shown(ask: &PendingAsk, row: AskRow)
    requires
        call_ensures(ask_to_row, (ask,), row),
    ensures
        row.id@ == ask.id@,
        row.question@ == ask.question@,
        match ask.options {
            Some(o) => row.options matches Some(p) && texts(p@) == texts(o@),
            None => row.options is None,
        },
        match ask.questions {
            Some(_) => row.questions is Some && optional_form(row.questions) == optional_form(
                ask.questions,
            ),
            None => row.questions is None,
        },
        match ask.detail {
            Some(d) => row.detail matches Some(e) && e@ == d@,
            None => row.detail is None,
        },
        match ask.session_id {
            Some(s) => (row.session_id matches Some(t) && t@ == s@) && row.context is None,
            None => row.session_id is None && optional_text(row.context) == optional_text(
                ask.context,
            ),
        },
        match ask.project {
            Some(p) => row.project matches Some(q) && q@ == p@,
            None => row.project is None,
        },
        ask.persistent ==> row.timeout_at is None,
        !ask.persistent ==> row.timeout_at == Some(ask.timeout_at_ms),
        row.orphaned == ask.orphaned,
        row.queued_at == ask.enqueued_ms,
{
}

/// The row of a permission request shows the tool and its input, who asks, when the
/// request came, and that it expires ninety seconds later.
pub proof fn law_a_prompt_is_shown(perm: &ShellPerm, row: PermRow)
    requires
        call_ensures(perm_to_row, (perm,), row),
    ensures
        row.id@ == perm.id@,
        row.tool_name@ == perm.tool_name@,
        row.tool_input@ == perm.tool_input@,
        match perm.session_id {
            Some(s) => row.session_id matches Some(t) && t@ == s@,
            None => row.session_id is None,
        },
        match perm.project {
            Some(p) => row.project matches Some(q) && q@ == p@,
            None => row.project is None,
        },
        match perm.context {
            Some(c) => row.context matches Some(d) && d@ == c@,
            None => row.context is None,
        },
        row.queued_at == perm.received_ms,
        perm.received_ms + 90_000 <= u64::MAX ==> row.expires_at == Some(
            (perm.received_ms + 90_000) as u64,
        ),
{
}

/// The row of a session shows what the engine knows of it.
pub proof fn law_a_session_is_shown(view: &SessionView, row: SessionRow)
    requires
        call_ensures(map_row, (view,), row),
    ensures
        row.id@ == view.id@ && row.project@ == view.project@ && row.title@ == view.title@ && row.cwd@
            == view.cwd@,
        match view.branch {
            Some(b) => row.branch matches Some(c) && c@ == b@,
            None => row.branch is None,
        },
        row.inferred == view.inferred && row.since_ms == view.since_ms && row.subagents
            == view.subagents && row.age_ms == view.age_ms && row.work_started_ms
            == view.work_started_ms && row.last_work_ms == view.last_work_ms && row.pid == view.pid,
        view.status == EngineStatus::Working ==> row.status == SessionStatus::Working,
        view.status == EngineStatus::WaitingWorkflow ==> row.status
            == SessionStatus::WaitingWorkflow,
        view.status == EngineStatus::Attention ==> row.status == SessionStatus::Attention,
        view.status == EngineStatus::Idle ==> row.status == SessionStatus::Idle,
        view.status == EngineStatus::Dead ==> row.status == SessionStatus::Dead,
        row.ctx_percent is None && row.spend is None && !row.spend_approx && row.subagent_spend is None,
{
}

/// A status is shown as itself.
pub proof fn law_a_status_is_shown_as_itself(status: EngineStatus, out: SessionStatus)
    requires
        call_ensures(map_status, (status,), out),
    ensures
        (out == SessionStatus::Working) == (status == EngineStatus::Working),
        (out == SessionStatus::WaitingWorkflow) == (status == EngineStatus::WaitingWorkflow),
        (out == SessionStatus::Attention) == (status == EngineStatus::Attention),
        (out == SessionStatus::Idle) == (status == EngineStatus::Idle),
        (out == SessionStatus::Dead) == (status == EngineStatus::Dead),
{
}

/// Whether `settings` say `value` of `key`, among the keys without a field.
pub open spec fn stored(settings: Settings, key: Seq<char>, value: JsonView) -> bool {
    exists|i: int| #[trigger]
        crate::json::first_field(settings.extra@, key, i) && settings.extra@[i].1@ == value
}

/// Whether `settings` say nothing of `key`, among the keys without a field.
pub open spec fn not_stored(settings: Settings, key: Seq<char>) -> bool {
    forall|j: int| 0 <= j < settings.extra@.len() ==> (#[trigger] settings.extra@[j]).0@ != key
}

pub proof fn lemma_stored(settings: Settings, key: Seq<char>, value: JsonView)
    ensures
        stored(settings, key, value) ==> JsonView::Object(settings@.extra).field(key) == Some(value),
        not_stored(settings, key) ==> JsonView::Object(settings@.extra).field(key) is None,
{
    if stored(settings, key, value) {
        let i = choose|i: int| #[trigger]
            crate::json::first_field(settings.extra@, key, i) && settings.extra@[i].1@ == value;
        lemma_first_field(settings.extra@, key, i);
    }
    if not_stored(settings, key) {
        lemma_no_field(settings.extra@, key);
    }
}

/// The popup shows a row for every session, question and request, each in its place and
/// as it is shown alone, and the counts as they are.
pub proof fn law_the_popup_shows_everything(
    views: &Vec<SessionView>,
    usage: &Vec<SessionUsage>,
    deck: &Deck,
    settings: &Settings,
    facts: &ShellFacts,
    out: StateSnapshot,
    i: int,
    ask: &PendingAsk,
    ask_row: AskRow,
    perm: &ShellPerm,
    perm_row: PermRow,
    view: &SessionView,
    row: SessionRow,
)
    requires
        call_ensures(snapshot, (views, usage, deck, settings, facts), out),
        call_ensures(ask_to_row, (ask,), ask_row),
        call_ensures(perm_to_row, (perm,), perm_row),
        call_ensures(map_row, (view,), row),
    ensures
        out.sessions@.len() == views@.len(),
        out.asks@.len() == deck.asks@.len(),
        out.perms@.len() == deck.perms@.len(),
        out.counts == facts.counts,
        out.hooks_installed == facts.hooks_installed,
        0 <= i < deck.asks@.len() && *ask == deck.asks@[i] ==> ({
            let shown = out.asks@[i];
            &&& shown.id@ == ask_row.id@
            &&& shown.question@ == ask_row.question@
            &&& optional_texts(shown.options) == optional_texts(ask_row.options)
            &&& optional_form(shown.questions) == optional_form(ask_row.questions)
            &&& optional_text(shown.detail) == optional_text(ask_row.detail)
            &&& optional_text(shown.session_id) == optional_text(ask_row.session_id)
            &&& optional_text(shown.project) == optional_text(ask_row.project)
            &&& optional_text(shown.context) == optional_text(ask_row.context)
            &&& shown.timeout_at == ask_row.timeout_at
            &&& shown.orphaned == ask_row.orphaned
            &&& shown.queued_at == ask_row.queued_at
        }),
        0 <= i < deck.perms@.len() && *perm == deck.perms@[i] ==> ({
            let shown = out.perms@[i];
            &&& shown.id@ == perm_row.id@
            &&& shown.tool_name@ == perm_row.tool_name@
            &&& shown.tool_input@ == perm_row.tool_input@
            &&& optional_text(shown.session_id) == optional_text(perm_row.session_id)
            &&& optional_text(shown.project) == optional_text(perm_row.project)
            &&& optional_text(shown.context) == optional_text(perm_row.context)
            &&& shown.queued_at == perm_row.queued_at
            &&& shown.expires_at == perm_row.expires_at
        }),
        0 <= i < views@.len() && *view == views@[i] ==> ({
            let shown = out.sessions@[i];
            &&& shown.id@ == row.id@ && shown.project@ == row.project@ && shown.title@ == row.title@
                && shown.cwd@ == row.cwd@
            &&& optional_text(shown.branch) == optional_text(row.branch)
            &&& shown.status == row.status
            &&& shown.inferred == row.inferred && shown.since_ms == row.since_ms && shown.subagents
                == row.subagents && shown.age_ms == row.age_ms && shown.work_started_ms
                == row.work_started_ms && shown.last_work_ms == row.last_work_ms && shown.pid
                == row.pid
        }),
{
    if 0 <= i < deck.asks@.len() {
        assert(crate::deck::shows_ask(out.asks@[i], deck.asks@[i]));
    }
    if 0 <= i < deck.perms@.len() {
        assert(crate::deck::shows_perm(out.perms@[i], deck.perms@[i]));
    }
    if 0 <= i < views@.len() {
        assert(crate::sessions::shows_session(out.sessions@[i], views@[i]));
    }
}

/// The tokens of a session are shown where they are known and wanted: how full the
/// context is, and what was spent, unless it is nothing. Where the user does not want
/// them, or they are not known, none are shown. They are wanted unless the user says
/// otherwise.
pub proof fn law_tokens_are_shown_where_wanted(
    views: &Vec<SessionView>,
    usage: &Vec<SessionUsage>,
    deck: &Deck,
    settings: &Settings,
    facts: &ShellFacts,
    out: StateSnapshot,
    i: int,
    u: int,
)
    requires
        call_ensures(snapshot, (views, usage, deck, settings, facts), out),
        0 <= i < views@.len(),
    ensures
        ({
            let row = out.sessions@[i];
            let none = row.ctx_percent is None && row.spend is None && !row.spend_approx
                && row.subagent_spend is None;
            let wanted = not_stored(*settings, "showTokenStats"@) || stored(
                *settings,
                "showTokenStats"@,
                JsonView::Bool(true),
            );
            &&& stored(*settings, "showTokenStats"@, JsonView::Bool(false)) ==> none
            &&& (forall|k: int|
                0 <= k < usage@.len() ==> (#[trigger] usage@[k]).session_id@ != views@[i].id@)
                ==> none
            &&& wanted && 0 <= u < usage@.len() && usage@[u].session_id@ == views@[i].id@ && (
            forall|k: int| 0 <= k < u ==> (#[trigger] usage@[k]).session_id@ != views@[i].id@) ==> {
                &&& row.ctx_percent == usage@[u].ctx_percent
                &&& usage@[u].spend > 0 ==> (row.spend matches Some(t) && t@ == usage@[u].spend_text@)
                    && row.spend_approx == usage@[u].spend_approx
                &&& usage@[u].spend == 0 ==> row.spend is None && !row.spend_approx
                &&& usage@[u].group_spend > 0 ==> (row.subagent_spend matches Some(t) && t@
                    == usage@[u].group_text@)
                &&& usage@[u].group_spend == 0 ==> row.subagent_spend is None
            }
        }),
{
    lemma_stored(*settings, "showTokenStats"@, JsonView::Bool(true));
    lemma_stored(*settings, "showTokenStats"@, JsonView::Bool(false));
    let of = |x: SessionUsage| crate::shell::usage_of(x, views@[i].id@);
    lemma_first_where(usage@, of);
    if 0 <= u < usage@.len() && usage@[u].session_id@ == views@[i].id@ && (forall|k: int|
        0 <= k < u ==> (#[trigger] usage@[k]).session_id@ != views@[i].id@) {
        lemma_is_first(usage@, of, u);
    }
    assert(crate::shell::session_row_of(
        out.sessions@[i],
        views@[i],
        usage@,
        crate::settings::flag_or(JsonView::Object(settings@.extra), "showTokenStats"@, true),
    ));
}

/// The settings are shown as they are set; those without a field of their own have their
/// defaults where nothing is stored. The command that registers the server is shown once
/// the server is there.
pub proof fn law_settings_are_shown_as_they_are(
    views: &Vec<SessionView>,
    usage: &Vec<SessionUsage>,
    deck: &Deck,
    settings: &Settings,
    facts: &ShellFacts,
    out: StateSnapshot,
    cli: &str,
    command: String,
)
    requires
        call_ensures(snapshot, (views, usage, deck, settings, facts), out),
        cli@ == facts.cli@,
        facts.mcp_config matches Some(config) ==> call_ensures(
            mcp_command,
            (cli, &config),
            command,
        ),
    ensures
        out.settings matches Some(s) && {
            &&& s.notify_idle == settings.notify_idle
            &&& s.notify_attention == settings.notify_attention
            &&& s.notify_reminder == settings.notify_reminder
            &&& s.launch_at_login == settings.launch_at_login
            &&& s.onboarding_done == settings.onboarding_done
            &&& s.popup_pinned == settings.popup_pinned
            &&& not_stored(*settings, "takeoverPermissions"@) ==> s.takeover_permissions
            &&& not_stored(*settings, "showTokenStats"@) ==> s.show_token_stats
            &&& not_stored(*settings, "mcpEnabled"@) ==> !s.mcp_enabled
            &&& not_stored(*settings, "popupMode"@) ==> s.popup_mode == PopupMode::List
            &&& stored(*settings, "takeoverPermissions"@, JsonView::Bool(true)) ==> s.takeover_permissions
            &&& stored(*settings, "takeoverPermissions"@, JsonView::Bool(false)) ==> !s.takeover_permissions
            &&& stored(*settings, "showTokenStats"@, JsonView::Bool(true)) ==> s.show_token_stats
            &&& stored(*settings, "showTokenStats"@, JsonView::Bool(false)) ==> !s.show_token_stats
            &&& stored(*settings, "mcpEnabled"@, JsonView::Bool(true)) ==> s.mcp_enabled
            &&& stored(*settings, "mcpEnabled"@, JsonView::Bool(false)) ==> !s.mcp_enabled
            &&& stored(*settings, "popupMode"@, JsonView::Str("lamp"@)) ==> s.popup_mode
                == PopupMode::Lamp
            &&& stored(*settings, "popupMode"@, JsonView::Str("list"@)) ==> s.popup_mode
                == PopupMode::List
            &&& s.mcp_cli_available == facts.mcp_cli_available
            &&& s.data_dir@ == facts.data_dir@
            &&& s.version@ == facts.version@
            &&& facts.mcp_config is None ==> s.mcp_command is None
            &&& facts.mcp_config is Some ==> (s.mcp_command matches Some(c) && c@ == command@)
        },
{
    lemma_stored(*settings, "takeoverPermissions"@, JsonView::Bool(true));
    lemma_stored(*settings, "takeoverPermissions"@, JsonView::Bool(false));
    lemma_stored(*settings, "showTokenStats"@, JsonView::Bool(true));
    lemma_stored(*settings, "showTokenStats"@, JsonView::Bool(false));
    lemma_stored(*settings, "mcpEnabled"@, JsonView::Bool(true));
    lemma_stored(*settings, "mcpEnabled"@, JsonView::Bool(false));
    lemma_stored(*settings, "popupMode"@, JsonView::Str("lamp"@));
    lemma_stored(*settings, "popupMode"@, JsonView::Str("list"@));
    reveal_strlit("lamp");
    reveal_strlit("list");
    assert("lamp"@[1] == 'a' && "list"@[1] == 'i');
}

/// Every session counts once, under its own status.
pub proof fn law_each_session_counts_once(
    front: &[SessionRow],
    row: SessionRow,
    all: &[SessionRow],
    before: Counts,
    after: Counts,
)
    requires
        all@ == front@.push(row),
        call_ensures(recompute_counts, (front,), before),
        call_ensures(recompute_counts, (all,), after),
    ensures
        after.attention - before.attention == if row.status == SessionStatus::Attention {
            1int
        } else {
            0
        },
        after.working - before.working == if row.status == SessionStatus::Working {
            1int
        } else {
            0
        },
        after.waiting - before.waiting == if row.status == SessionStatus::WaitingWorkflow {
            1int
        } else {
            0
        },
        after.idle - before.idle == if row.status == SessionStatus::Idle {
            1int
        } else {
            0
        },
        after.dead - before.dead == if row.status == SessionStatus::Dead {
            1int
        } else {
            0
        },
{
    reveal(Seq::filter);
    assert(all@.drop_last() =~= front@);
}

/// Nothing counts where there is no session.
pub proof fn law_no_session_counts_nothing(none: &[SessionRow], out: Counts)
    requires
        none@.len() == 0,
        call_ensures(recompute_counts, (none,), out),
    ensures
        out.attention == 0 && out.working == 0 && out.waiting == 0 && out.idle == 0 && out.dead == 0,
{
    reveal(Seq::filter);
}

/// Removing the row of a session removes the rows with that id and no others, and counts
/// what is left.
pub proof fn law_a_removed_row_is_gone(
    state: &mut StateSnapshot,
    session_id: &str,
    i: int,
    left: &[SessionRow],
    counts: Counts,
)
    requires
        call_ensures(apply_remove_row, (state, session_id), ()),
        0 <= i < mut_ref_current(state).sessions@.len(),
        left@ == mut_ref_future(state).sessions@,
        call_ensures(recompute_counts, (left,), counts),
    ensures
        mut_ref_current(state).sessions@[i].id@ != session_id@ ==> mut_ref_future(
            state,
        ).sessions@.contains(mut_ref_current(state).sessions@[i]),
        forall|k: int|
            0 <= k < mut_ref_future(state).sessions@.len() ==> (#[trigger] mut_ref_future(
                state,
            ).sessions@[k]).id@ != session_id@,
        mut_ref_future(state).counts == counts,
        mut_ref_future(state).asks == mut_ref_current(state).asks,
        mut_ref_future(state).perms == mut_ref_current(state).perms,
        mut_ref_future(state).settings == mut_ref_current(state).settings,
        mut_ref_future(state).hooks_installed == mut_ref_current(state).hooks_installed,
        mut_ref_future(state).sessions@ == mut_ref_current(state).sessions@.filter(
            |row: SessionRow| row.id@ != session_id@,
        ),
{
    let gone = |row: SessionRow| row.id@ == session_id@;
    let kept = |row: SessionRow| !gone(row);
    let rows = mut_ref_current(state).sessions@;
    crate::lists::lemma_same_filter(rows, kept, |row: SessionRow| row.id@ != session_id@);
    if rows[i].id@ != session_id@ {
        let k = lemma_filtered_keeps(rows, kept, i);
    }
    assert forall|k: int| 0 <= k < mut_ref_future(state).sessions@.len() implies (
    #[trigger] mut_ref_future(state).sessions@[k]).id@ != session_id@ by {
        let source = lemma_filtered_from(rows, kept, k);
    }
}

/// Removing a question from the popup removes the rows with that id and no others.
pub proof fn law_a_removed_question_is_gone(state: &mut StateSnapshot, ask_id: &str, i: int)
    requires
        call_ensures(apply_remove_ask, (state, ask_id), ()),
        0 <= i < mut_ref_current(state).asks@.len(),
    ensures
        mut_ref_current(state).asks@[i].id@ != ask_id@ ==> mut_ref_future(state).asks@.contains(
            mut_ref_current(state).asks@[i],
        ),
        forall|k: int|
            0 <= k < mut_ref_future(state).asks@.len() ==> (#[trigger] mut_ref_future(
                state,
            ).asks@[k]).id@ != ask_id@,
        mut_ref_future(state).sessions == mut_ref_current(state).sessions,
        mut_ref_future(state).perms == mut_ref_current(state).perms,
        mut_ref_future(state).counts == mut_ref_current(state).counts,
        mut_ref_future(state).settings == mut_ref_current(state).settings,
        mut_ref_future(state).hooks_installed == mut_ref_current(state).hooks_installed,
        mut_ref_future(state).asks@ == mut_ref_current(state).asks@.filter(
            |row: AskRow| row.id@ != ask_id@,
        ),
{
    let gone = |row: AskRow| row.id@ == ask_id@;
    let kept = |row: AskRow| !gone(row);
    let rows = mut_ref_current(state).asks@;
    crate::lists::lemma_same_filter(rows, kept, |row: AskRow| row.id@ != ask_id@);
    if rows[i].id@ != ask_id@ {
        let k = lemma_filtered_keeps(rows, kept, i);
    }
    assert forall|k: int| 0 <= k < mut_ref_future(state).asks@.len() implies (
    #[trigger] mut_ref_future(state).asks@[k]).id@ != ask_id@ by {
        let source = lemma_filtered_from(rows, kept, k);
    }
}

/// Removing a permission request from the popup removes the rows with that id and no
/// others.
pub proof fn law_a_removed_prompt_is_gone(state: &mut StateSnapshot, perm_id: &str, i: int)
    requires
        call_ensures(apply_remove_perm, (state, perm_id), ()),
        0 <= i < mut_ref_current(state).perms@.len(),
    ensures
        mut_ref_current(state).perms@[i].id@ != perm_id@ ==> mut_ref_future(state).perms@.contains(
            mut_ref_current(state).perms@[i],
        ),
        forall|k: int|
            0 <= k < mut_ref_future(state).perms@.len() ==> (#[trigger] mut_ref_future(
                state,
            ).perms@[k]).id@ != perm_id@,
        mut_ref_future(state).sessions == mut_ref_current(state).sessions,
        mut_ref_future(state).asks == mut_ref_current(state).asks,
        mut_ref_future(state).counts == mut_ref_current(state).counts,
        mut_ref_future(state).settings == mut_ref_current(state).settings,
        mut_ref_future(state).hooks_installed == mut_ref_current(state).hooks_installed,
        mut_ref_future(state).perms@ == mut_ref_current(state).perms@.filter(
            |row: PermRow| row.id@ != perm_id@,
        ),
{
    let gone = |row: PermRow| row.id@ == perm_id@;
    let kept = |row: PermRow| !gone(row);
    let rows = mut_ref_current(state).perms@;
    crate::lists::lemma_same_filter(rows, kept, |row: PermRow| row.id@ != perm_id@);
    if rows[i].id@ != perm_id@ {
        let k = lemma_filtered_keeps(rows, kept, i);
    }
    assert forall|k: int| 0 <= k < mut_ref_future(state).perms@.len() implies (
    #[trigger] mut_ref_future(state).perms@[k]).id@ != perm_id@ by {
        let source = lemma_filtered_from(rows, kept, k);
    }
}

/// The tray icon is red as soon as one session needs the user, yellow where none does and
/// one works, green where none does either and one is idle, and grey otherwise.
pub proof fn law_the_tray_has_the_worst_colour(
    counts: &Counts,
    out: &'static str,
    status: Option<SessionStatus>,
)
    requires
        call_ensures(tray_color, (counts,), out),
        call_ensures(worst_status, (counts,), status),
    ensures
        counts.attention > 0 ==> out@ == "red"@ && status == Some(SessionStatus::Attention),
        counts.attention == 0 && counts.working + counts.waiting > 0 ==> out@ == "yellow"@ && status
            == Some(SessionStatus::Working),
        counts.attention == 0 && counts.working + counts.waiting == 0 && counts.idle > 0 ==> out@
            == "green"@ && status == Some(SessionStatus::Idle),
        counts.attention == 0 && counts.working + counts.waiting == 0 && counts.idle == 0 ==> out@
            == "gray"@,
        counts.attention == 0 && counts.working + counts.waiting == 0 && counts.idle == 0
            && counts.dead > 0 ==> status == Some(SessionStatus::Dead),
        counts.attention + counts.working + counts.waiting + counts.idle + counts.dead == 0
            ==> status is None,
{
}

} // verus!
