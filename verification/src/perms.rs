//! Permission requests on their way onto the deck.

use crate::deck::{
    optional_note, perm_at, perm_named, toast_project, toast_project_of, Deck, EngineNote, FileRead,
    NoteView, ShellPerm, PERM_INPUT_CAP, PERM_TOOL_NAME_CAP,
};
use crate::files::{json_stem, stem_of};
use crate::json::parsed_text;
use crate::lists::lemma_first_where;
use crate::notify::{ToastKind, ToastRequest};
use crate::sessions::{
    given, match_perm_session, names_session, perm_session, PermFileRecord, SessionView,
};
use crate::text::{
    bidi_stripped, grapheme_capped, joined, optional_text, strip_bidi_controls, trim, trimmed,
    truncate_graphemes,
};
use crate::tool_input::{pretty_tool_input, shown_as};
use vstd::prelude::*;

verus! {

/// A permission request that was read and can go onto the deck.
#[derive(Clone, Debug)]
pub struct PreparedPerm {
    pub id: String,
    pub session_id: Option<String>,
    pub project: Option<String>,
    /// Where the agent runs, where its session is not known.
    pub context: Option<String>,
    pub tool_name: String,
    pub tool_input: String,
    /// The project that the toast names.
    pub toast_project: String,
}

/// What becomes of a request's file.
pub enum PermStep {
    /// It is none.
    Ignore,
    /// It is removed: the request is on the deck already.
    Discard,
    /// It is put aside.
    Quarantine,
    /// It is removed, and the request can go onto the deck.
    Ready(PreparedPerm),
}

/// What becomes of a request.
pub enum Admission {
    /// It is left to the terminal, which the user is looking at.
    Deferred,
    /// It is on the deck: the engine is told, and the toast shown unless the user
    /// has switched such toasts off.
    Admitted { note: Option<EngineNote>, toast: ToastRequest },
}

/// The name of a tool as it is shown: without bidi controls and white space
/// around it, capped, and never empty.
pub open spec fn shown_tool_name(name: Seq<char>) -> Seq<char> {
    let clean = grapheme_capped(
        trimmed(bidi_stripped(trimmed(name))),
        PERM_TOOL_NAME_CAP as nat,
    );
    if clean.len() == 0 {
        "(unknown tool)"@
    } else {
        clean
    }
}

/// The input of a tool as it is shown: indented where it is a document, without
/// bidi controls, and capped.
pub open spec fn shown_tool_input(input: Seq<char>) -> Seq<char> {
    grapheme_capped(
        bidi_stripped(shown_as(input, parsed_text(trimmed(input)))),
        PERM_INPUT_CAP as nat,
    )
}

fn shown_tool_name_of(name: &str) -> (out: String)
    ensures
        out@ == shown_tool_name(name@),
{
    let stripped = strip_bidi_controls(trim(name).as_str());
    let clean = truncate_graphemes(trim(stripped.as_str()).as_str(), PERM_TOOL_NAME_CAP);
    if clean.as_str().is_empty() {
        "(unknown tool)".to_owned()
    } else {
        clean
    }
}

fn shown_tool_input_of(input: &str) -> (out: String)
    ensures
        out@ == shown_tool_input(input@),
{
    let shown = pretty_tool_input(input);
    truncate_graphemes(strip_bidi_controls(shown.as_str()).as_str(), PERM_INPUT_CAP)
}

/// Whether `perm` is the request that `rec` describes.
pub open spec fn prepared(
    perm: PreparedPerm,
    id: Seq<char>,
    rec: PermFileRecord,
    views: Seq<SessionView>,
    ignore_case: bool,
) -> bool {
    &&& perm.id@ == id
    &&& names_session(
        views,
        perm_session(views, rec, ignore_case),
        optional_text(perm.session_id),
        optional_text(perm.project),
    )
    &&& optional_text(perm.context) == if perm_session(views, rec, ignore_case) is Some {
        None
    } else {
        given(optional_text(rec.cwd))
    }
    &&& perm.tool_name@ == shown_tool_name(rec.tool_name@)
    &&& perm.tool_input@ == shown_tool_input(rec.tool_input@)
    &&& perm.toast_project@ == toast_project_of(
        optional_text(perm.project),
        optional_text(rec.cwd),
    )
}

/// What the toast of a request says.
pub open spec fn perm_toast(toast: ToastRequest, perm: PreparedPerm) -> bool {
    &&& toast.kind == ToastKind::Attention
    &&& toast.session_id@ == "perm-"@ + perm.id@
    &&& toast.project@ == perm.toast_project@
    &&& toast.detail@ == "requests permission to run "@ + perm.tool_name@
    &&& toast.assistant_body is None
}

impl Deck {
    /// Decides on a file that may hold a permission request.
    pub fn ingest_perm(
        &self,
        file_name: &str,
        read: FileRead<PermFileRecord>,
        views: &Vec<SessionView>,
        ignore_case: bool,
    ) -> (out: PermStep)
        ensures
            match stem_of(file_name@) {
                None => out is Ignore,
                Some(id) => if perm_at(self.perms@, id) is Some {
                    out is Discard
                } else {
                    match read {
                        FileRead::Unreadable => out is Quarantine,
                        FileRead::Malformed => out is Quarantine,
                        FileRead::Parsed(rec) => out matches PermStep::Ready(perm) && prepared(
                            perm,
                            id,
                            rec,
                            views@,
                            ignore_case,
                        ),
                    }
                },
            },
    {
        let id: String = match json_stem(file_name) {
            Some(id) => id,
            None => {
                return PermStep::Ignore;
            },
        };
        if self.has_perm(id.as_str()) {
            return PermStep::Discard;
        }
        match read {
            FileRead::Unreadable => PermStep::Quarantine,
            FileRead::Malformed => PermStep::Quarantine,
            FileRead::Parsed(rec) => {
                let (session_id, project, context) = match_perm_session(views, &rec, ignore_case);
                let toast_project = toast_project(&project, &rec.cwd);
                PermStep::Ready(
                    PreparedPerm {
                        id,
                        session_id,
                        project,
                        context,
                        tool_name: shown_tool_name_of(rec.tool_name.as_str()),
                        tool_input: shown_tool_input_of(rec.tool_input.as_str()),
                        toast_project,
                    },
                )
            },
        }
    }

    /// Puts a request behind all others, unless the user looks at the session's
    /// terminal: the terminal will ask then.
    pub fn admit_perm(&mut self, perm: PreparedPerm, terminal_in_front: bool, now_ms: u64) -> (out:
        Admission)
        ensures
            final(self).asks == old(self).asks,
            if terminal_in_front {
                out is Deferred && *final(self) == *old(self)
            } else {
                &&& final(self).perms@.len() == old(self).perms@.len() + 1
                &&& final(self).perms@.drop_last() == old(self).perms@
                &&& final(self).perms@.last() == (ShellPerm {
                    id: perm.id,
                    session_id: perm.session_id,
                    project: perm.project,
                    tool_name: perm.tool_name,
                    tool_input: perm.tool_input,
                    context: perm.context,
                    received_ms: now_ms,
                })
                &&& out matches Admission::Admitted { note, toast } && perm_toast(toast, perm)
                    && optional_note(note) == match optional_text(perm.session_id) {
                    Some(id) => Some(NoteView::Pending(id)),
                    None => None,
                }
            },
    {
        if terminal_in_front {
            return Admission::Deferred;
        }
        let note: Option<EngineNote> = match &perm.session_id {
            Some(sid) => Some(EngineNote::Pending(sid.clone())),
            None => None,
        };
        let toast = ToastRequest {
            kind: ToastKind::Attention,
            session_id: joined("perm-", perm.id.as_str()),
            project: perm.toast_project,
            detail: joined("requests permission to run ", perm.tool_name.as_str()),
            assistant_body: None,
        };
        self.perms.push(
            ShellPerm {
                id: perm.id,
                session_id: perm.session_id,
                project: perm.project,
                tool_name: perm.tool_name,
                tool_input: perm.tool_input,
                context: perm.context,
                received_ms: now_ms,
            },
        );
        proof {
            assert(self.perms@.drop_last() =~= old(self).perms@);
        }
        Admission::Admitted { note, toast }
    }
}

/// Whether no two requests have the same id.
pub open spec fn perms_once(perms: Seq<ShellPerm>) -> bool {
    forall|i: int, j: int|
        0 <= i < j < perms.len() ==> (#[trigger] perms[i]).id@ != (#[trigger] perms[j]).id@
}

/// A request that was read while none of its id was on the deck, and is put onto
/// it, leaves every id there once: reading a file twice shows it once.
pub proof fn law_perms_stay_once(before: Seq<ShellPerm>, after: Seq<ShellPerm>, id: Seq<char>)
    requires
        perms_once(before),
        perm_at(before, id) is None,
        after.len() == before.len() + 1,
        after.drop_last() == before,
        after.last().id@ == id,
    ensures
        perms_once(after),
{
    lemma_first_where(before, |p: ShellPerm| perm_named(p, id));
    assert forall|i: int, j: int| 0 <= i < j < after.len() implies (#[trigger] after[i]).id@ != (
    #[trigger] after[j]).id@ by {
        assert(after[i] == before[i]);
        if j < before.len() {
            assert(after[j] == before[j]);
        } else {
            assert(!perm_named(before[i], id));
        }
    }
}

} // verus!
