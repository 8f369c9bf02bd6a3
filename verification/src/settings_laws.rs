//! What holds of the settings, of the names of sessions, and of where the data lie.

use crate::ipc::{SessionStatus, SettingValue};
use crate::json::{parse, parsed_text, plain, pretty, raw_key, Json, JsonView, DEPTH_LIMIT};
use crate::popup_laws::{lemma_stored, not_stored, stored};
use crate::session_names::{names_view, rename_session, session_names_path};
use crate::settings::{
    answers_dir, asks_dir, from_document, hooks_dir, join_path, load, logs_dir, perm_answers_dir,
    perms_dir, platform_data_dir, resolve_data_dir, save, set_setting, settings_path, spool_dir,
    spool_quarantine_dir, strip_bom, to_document, without_bom, Platform, PopupMode, Settings,
};
use crate::shell::{apply_setting_side_effect, SideEffect};
use crate::text::{after_prefix, trimmed};
use vstd::prelude::*;

verus! {

// ---------------------------------------------------------------------------
// Reading the settings.
// ---------------------------------------------------------------------------

/// Whether nothing in `s` has been set: toasts for idle sessions and for attention are on,
/// and everything else is off.
pub open spec fn untouched(s: Settings) -> bool {
    &&& s.notify_idle
    &&& s.notify_attention
    &&& !s.notify_reminder
    &&& !s.launch_at_login
    &&& !s.onboarding_done
    &&& !s.popup_pinned
    &&& forall|k: Seq<char>| !(#[trigger] s@.extra.dom().contains(k))
}

/// Whether `key` has a field of its own.
pub open spec fn has_field(key: Seq<char>) -> bool {
    ||| key == "notifyIdle"@
    ||| key == "notifyAttention"@
    ||| key == "notifyReminder"@
    ||| key == "launchAtLogin"@
    ||| key == "onboardingDone"@
    ||| key == "popupPinned"@
}

proof fn lemma_known_keys()
    ensures
        forall|k: Seq<char>| #[trigger]
            crate::settings::known_keys().contains(k) == has_field(k),
{
}

proof fn lemma_bom(text: Seq<char>)
    ensures
        text.len() > 0 && text[0] == '\u{feff}' ==> without_bom(text) == text.skip(1),
        text.len() == 0 || text[0] != '\u{feff}' ==> without_bom(text) == text,
{
    reveal_strlit("\u{feff}");
    assert("\u{feff}"@.len() == 1 && "\u{feff}"@[0] == '\u{feff}');
    if text.len() > 0 {
        assert(text.take(1)[0] == text[0]);
        if text[0] == '\u{feff}' {
            assert(text.take(1) =~= "\u{feff}"@);
        }
    }
}

/// A byte order mark in front of a text is left out, and nothing else.
pub proof fn law_a_byte_order_mark_is_left_out(text: &str, out: String)
    requires
        call_ensures(strip_bom, (text,), out),
    ensures
        text@.len() > 0 && text@[0] == '\u{feff}' ==> out@ == text@.skip(1),
        text@.len() == 0 || text@[0] != '\u{feff}' ==> out@ == text@,
{
    lemma_bom(text@);
}

/// Without a file, or with one that holds no object, nothing has been set.
pub proof fn law_what_holds_no_settings_sets_none(text: Option<&str>, out: Settings)
    requires
        call_ensures(load, (text,), out),
    ensures
        text is None ==> untouched(out),
        text matches Some(t) ==> (t@.len() == 0 || t@[0] != '\u{feff}') && !(parsed_text(
            t@,
        ) matches Some(JsonView::Object(_))) ==> untouched(out),
{
    if let Some(t) = text {
        lemma_bom(t@);
    }
}

/// The settings are those that the file holds: what it says of a key that has a field,
/// where it says yes or no, and the default where it does not; and every other key as it
/// stands in the file, and no key that does not.
pub proof fn law_the_file_is_read_key_by_key(
    text: &str,
    fields: Map<Seq<char>, JsonView>,
    out: Settings,
    b: bool,
    key: Seq<char>,
)
    requires
        call_ensures(load, (Some(text),), out),
        text@.len() == 0 || text@[0] != '\u{feff}',
        parsed_text(text@) == Some(JsonView::Object(fields)),
    ensures
        said(fields, "notifyIdle"@, b) ==> out.notify_idle == b,
        said(fields, "notifyAttention"@, b) ==> out.notify_attention == b,
        said(fields, "notifyReminder"@, b) ==> out.notify_reminder == b,
        said(fields, "launchAtLogin"@, b) ==> out.launch_at_login == b,
        said(fields, "onboardingDone"@, b) ==> out.onboarding_done == b,
        said(fields, "popupPinned"@, b) ==> out.popup_pinned == b,
        unsaid(fields, "notifyIdle"@) ==> out.notify_idle,
        unsaid(fields, "notifyAttention"@) ==> out.notify_attention,
        unsaid(fields, "notifyReminder"@) ==> !out.notify_reminder,
        unsaid(fields, "launchAtLogin"@) ==> !out.launch_at_login,
        unsaid(fields, "onboardingDone"@) ==> !out.onboarding_done,
        unsaid(fields, "popupPinned"@) ==> !out.popup_pinned,
        has_field(key) ==> !out@.extra.dom().contains(key),
        !has_field(key) ==> out@.extra.dom().contains(key) == fields.dom().contains(key),
        !has_field(key) && fields.dom().contains(key) ==> out@.extra[key] == fields[key],
{
    lemma_bom(text@);
    lemma_known_keys();
}

/// Whether the fields say `b` of `key`.
pub open spec fn said(fields: Map<Seq<char>, JsonView>, key: Seq<char>, b: bool) -> bool {
    fields.dom().contains(key) && fields[key] == JsonView::Bool(b)
}

/// Whether the fields say neither yes nor no of `key`.
pub open spec fn unsaid(fields: Map<Seq<char>, JsonView>, key: Seq<char>) -> bool {
    !fields.dom().contains(key) || !(fields[key] is Bool)
}

/// A byte order mark in front of the file makes no difference.
pub proof fn law_a_byte_order_mark_makes_no_difference(
    text: &str,
    marked: &str,
    out: Settings,
    out_marked: Settings,
)
    requires
        call_ensures(load, (Some(text),), out),
        call_ensures(load, (Some(marked),), out_marked),
        text@.len() == 0 || text@[0] != '\u{feff}',
        marked@ == seq!['\u{feff}'] + text@,
    ensures
        out@ == out_marked@,
{
    lemma_bom(text@);
    lemma_bom(marked@);
    assert(marked@.skip(1) =~= text@);
}

/// A file is read as the document in it is, and written as its document is; a document that
/// is no object holds no settings.
pub proof fn law_files_hold_documents(
    text: &str,
    out: Settings,
    document: Option<Json>,
    read: Settings,
    value: Json,
    held: Option<Settings>,
    alone: Settings,
    settings: &Settings,
    saved: String,
    made: Json,
    written: String,
    names: Vec<(String, String)>,
    read_names: Vec<(String, String)>,
)
    requires
        call_ensures(load, (Some(text),), out),
        text@.len() == 0 || text@[0] != '\u{feff}',
        call_ensures(parse, (text,), document),
        call_ensures(from_document, (document,), read),
        call_ensures(Settings::from_json_value, (value,), held),
        call_ensures(from_document, (Some(value),), alone),
        call_ensures(save, (settings,), saved),
        call_ensures(to_document, (settings,), made),
        call_ensures(pretty, (&made,), written),
        call_ensures(crate::session_names::load, (Some(text),), names),
        call_ensures(crate::session_names::from_document, (document,), read_names),
    ensures
        read@ == out@,
        (held is Some) == (value@ is Object),
        held matches Some(h) ==> h@ == alone@,
        held is None ==> untouched(alone),
        saved@ == written@,
        names_view(names@) == names_view(read_names@),
{
    lemma_bom(text@);
}

// ---------------------------------------------------------------------------
// Setting a key.
// ---------------------------------------------------------------------------

/// Whether a value stands for yes.
pub open spec fn yes(value: SettingValue) -> bool {
    match value {
        SettingValue::Bool(b) => b,
        SettingValue::Text(s) => s@ == "true"@ || s@ == "1"@,
    }
}

/// A value is yes, no, or a text, and stands in a document as such; a text stands for yes
/// where it says so.
pub proof fn law_values_stand_for_themselves(
    value: &SettingValue,
    truth: bool,
    owned: SettingValue,
    document: Json,
    back: Option<SettingValue>,
    other: Json,
    none: Option<SettingValue>,
)
    requires
        call_ensures(SettingValue::as_bool_lossy, (value,), truth),
        call_ensures(SettingValue::into_json, (owned,), document),
        call_ensures(SettingValue::from_json, (document,), back),
        call_ensures(SettingValue::from_json, (other,), none),
    ensures
        truth == yes(*value),
        owned matches SettingValue::Bool(b) ==> document@ == JsonView::Bool(b) && back == Some(
            SettingValue::Bool(b),
        ),
        owned matches SettingValue::Text(s) ==> document@ == JsonView::Str(s@) && (
        back matches Some(SettingValue::Text(t)) && t@ == s@),
        !(other@ is Bool) && !(other@ is Str) ==> none is None,
{
}

/// Setting a key that has a field sets that field to what the value stands for, and
/// nothing else.
pub proof fn law_a_field_is_set_alone(settings: &mut Settings, key: &str, value: SettingValue)
    requires
        call_ensures(Settings::apply, (settings, key, value), ()),
        has_field(key@),
    ensures
        ({
            let before = mut_ref_current(settings)@;
            let after = mut_ref_future(settings)@;
            &&& after.notify_idle == if key@ == "notifyIdle"@ {
                yes(value)
            } else {
                before.notify_idle
            }
            &&& after.notify_attention == if key@ == "notifyAttention"@ {
                yes(value)
            } else {
                before.notify_attention
            }
            &&& after.notify_reminder == if key@ == "notifyReminder"@ {
                yes(value)
            } else {
                before.notify_reminder
            }
            &&& after.launch_at_login == if key@ == "launchAtLogin"@ {
                yes(value)
            } else {
                before.launch_at_login
            }
            &&& after.onboarding_done == if key@ == "onboardingDone"@ {
                yes(value)
            } else {
                before.onboarding_done
            }
            &&& after.popup_pinned == if key@ == "popupPinned"@ {
                yes(value)
            } else {
                before.popup_pinned
            }
            &&& after.extra == before.extra
        }),
{
    lemma_fields_differ();
}

proof fn lemma_fields_differ()
    ensures
        "notifyIdle"@.len() == 10,
        "notifyAttention"@.len() == 15,
        "notifyReminder"@.len() == 14 && "notifyReminder"@[0] == 'n',
        "launchAtLogin"@.len() == 13,
        "onboardingDone"@.len() == 14 && "onboardingDone"@[0] == 'o',
        "popupPinned"@.len() == 11,
{
    reveal_strlit("notifyIdle");
    reveal_strlit("notifyAttention");
    reveal_strlit("notifyReminder");
    reveal_strlit("launchAtLogin");
    reveal_strlit("onboardingDone");
    reveal_strlit("popupPinned");
}

/// Setting any other key stores the value under it, and changes nothing else.
pub proof fn law_any_other_key_is_stored(
    settings: &mut Settings,
    key: &str,
    value: SettingValue,
    other: Seq<char>,
)
    requires
        call_ensures(Settings::apply, (settings, key, value), ()),
        !has_field(key@),
    ensures
        ({
            let before = mut_ref_current(settings)@;
            let after = mut_ref_future(settings)@;
            &&& after.notify_idle == before.notify_idle
            &&& after.notify_attention == before.notify_attention
            &&& after.notify_reminder == before.notify_reminder
            &&& after.launch_at_login == before.launch_at_login
            &&& after.onboarding_done == before.onboarding_done
            &&& after.popup_pinned == before.popup_pinned
            &&& after.extra.dom().contains(key@)
            &&& value matches SettingValue::Bool(b) ==> after.extra[key@] == JsonView::Bool(b)
            &&& value matches SettingValue::Text(s) ==> after.extra[key@] == JsonView::Str(s@)
            &&& other != key@ ==> after.extra.dom().contains(other) == before.extra.dom().contains(
                other,
            ) && after.extra[other] == before.extra[other]
        }),
{
}

/// Whether settings survive being written: no number among them changes on the way, they do
/// not nest too deep, and none is called as raw texts are.
pub open spec fn survive(s: Settings) -> bool {
    &&& forall|k: Seq<char>| #[trigger] s@.extra.dom().contains(k) ==> !has_field(k)
    &&& !s@.extra.dom().contains(raw_key())
    &&& forall|k: Seq<char>|
        s@.extra.dom().contains(k) ==> plain(#[trigger] s@.extra[k], (DEPTH_LIMIT - 1) as nat)
}

/// What is saved is loaded.
pub proof fn law_what_is_saved_is_loaded(
    settings: &Settings,
    saved: String,
    text: &str,
    back: Settings,
)
    requires
        call_ensures(save, (settings,), saved),
        call_ensures(load, (Some(text),), back),
        text@ == saved@,
        survive(*settings),
    ensures
        back@ == settings@,
{
    lemma_known_keys();
}

/// Setting a key in a file is loading the file, setting the key, and saving; and what was
/// set is there when the file is loaded again.
pub proof fn law_a_setting_is_there_when_loaded_again(
    text: Option<&str>,
    key: &str,
    value: SettingValue,
    out: (Settings, String),
    loaded: Settings,
    settings: &mut Settings,
    saved: String,
    again: &str,
    back: Settings,
)
    requires
        call_ensures(set_setting, (text, key, value), out),
        call_ensures(load, (text,), loaded),
        mut_ref_current(settings)@ == loaded@,
        call_ensures(Settings::apply, (settings, key, value), ()),
        call_ensures(save, (&out.0,), saved),
        again@ == out.1@,
        call_ensures(load, (Some(again),), back),
    ensures
        out.0@ == mut_ref_future(settings)@,
        out.1@ == saved@,
        survive(out.0) ==> back@ == out.0@,
        has_field(key@) && survive(loaded) ==> survive(out.0),
        !has_field(key@) && key@ != raw_key() && survive(loaded) ==> survive(out.0),
{
    lemma_known_keys();
    if survive(loaded) && key@ != raw_key() {
        assert(crate::settings::readable(loaded@));
        crate::settings::law_setting_keeps_readable(loaded@, key@, value);
        assert forall|k: Seq<char>| #[trigger] out.0@.extra.dom().contains(k) implies !has_field(
            k,
        ) by {
            assert(!crate::settings::known_keys().contains(k));
        }
    }
    crate::json::lemma_raw_key();
    lemma_fields_differ();
}

/// The settings without a field say what is stored of them, and otherwise: that permission
/// prompts are taken over, tokens shown, agents may not ask, and the popup is a list.
pub proof fn law_settings_without_a_field_are_told(
    settings: &Settings,
    takeover: bool,
    tokens: bool,
    mcp: bool,
    mode: PopupMode,
    b: bool,
    other: JsonView,
)
    requires
        call_ensures(Settings::takeover_permissions, (settings,), takeover),
        call_ensures(Settings::show_token_stats, (settings,), tokens),
        call_ensures(Settings::mcp_enabled, (settings,), mcp),
        call_ensures(Settings::popup_mode, (settings,), mode),
    ensures
        stored(*settings, "takeoverPermissions"@, JsonView::Bool(b)) ==> takeover == b,
        stored(*settings, "showTokenStats"@, JsonView::Bool(b)) ==> tokens == b,
        stored(*settings, "mcpEnabled"@, JsonView::Bool(b)) ==> mcp == b,
        not_stored(*settings, "takeoverPermissions"@) ==> takeover,
        not_stored(*settings, "showTokenStats"@) ==> tokens,
        not_stored(*settings, "mcpEnabled"@) ==> !mcp,
        stored(*settings, "popupMode"@, JsonView::Str("lamp"@)) ==> mode == PopupMode::Lamp,
        stored(*settings, "popupMode"@, JsonView::Str("list"@)) ==> mode == PopupMode::List,
        not_stored(*settings, "popupMode"@) ==> mode == PopupMode::List,
        stored(*settings, "takeoverPermissions"@, other) && !(other is Bool) ==> takeover,
        stored(*settings, "showTokenStats"@, other) && !(other is Bool) ==> tokens,
        stored(*settings, "mcpEnabled"@, other) && !(other is Bool) ==> !mcp,
        stored(*settings, "popupMode"@, other) && other != JsonView::Str("lamp"@) ==> mode
            == PopupMode::List,
{
    lemma_stored(*settings, "takeoverPermissions"@, other);
    lemma_stored(*settings, "showTokenStats"@, other);
    lemma_stored(*settings, "mcpEnabled"@, other);
    lemma_stored(*settings, "popupMode"@, other);
    lemma_stored(*settings, "takeoverPermissions"@, JsonView::Bool(b));
    lemma_stored(*settings, "showTokenStats"@, JsonView::Bool(b));
    lemma_stored(*settings, "mcpEnabled"@, JsonView::Bool(b));
    lemma_stored(*settings, "popupMode"@, JsonView::Str("lamp"@));
    lemma_stored(*settings, "popupMode"@, JsonView::Str("list"@));
    reveal_strlit("lamp");
    reveal_strlit("list");
    assert("lamp"@[1] == 'a' && "list"@[1] == 'i');
}

/// What follows from a change of a key is what that key is for, with what is set now.
pub proof fn law_a_change_has_its_effect(
    key: &str,
    settings: &Settings,
    out: SideEffect,
    takeover: bool,
    mcp: bool,
    mode: PopupMode,
)
    requires
        call_ensures(apply_setting_side_effect, (key, settings), out),
        call_ensures(Settings::takeover_permissions, (settings,), takeover),
        call_ensures(Settings::mcp_enabled, (settings,), mcp),
        call_ensures(Settings::popup_mode, (settings,), mode),
    ensures
        key@ == "launchAtLogin"@ ==> out == (SideEffect::Autostart {
            enable: settings.launch_at_login,
        }),
        key@ == "popupPinned"@ && settings.popup_pinned ==> out == (SideEffect::Pin {
            pinned: true,
            force_list: false,
        }),
        key@ == "popupPinned"@ && !settings.popup_pinned ==> out == (SideEffect::Pin {
            pinned: false,
            force_list: mode == PopupMode::Lamp,
        }),
        key@ == "popupMode"@ ==> out == (SideEffect::Mode { mode }),
        key@ == "mcpEnabled"@ ==> out == (SideEffect::AgentQuestions { enable: mcp }),
        key@ == "takeoverPermissions"@ ==> out == (SideEffect::Takeover { enable: takeover }),
        key@ == "showTokenStats"@ ==> out is RefreshUsage,
        key@ == "notifyIdle"@ || key@ == "notifyAttention"@ || key@ == "notifyReminder"@ || key@
            == "onboardingDone"@ ==> out is Nothing,
{
    lemma_fields_differ();
    reveal_strlit("notifyIdle");
    reveal_strlit("popupMode");
    reveal_strlit("mcpEnabled");
    reveal_strlit("takeoverPermissions");
    reveal_strlit("showTokenStats");
    assert("popupMode"@.len() == 9);
    assert("mcpEnabled"@.len() == 10);
    assert("notifyIdle"@[0] == 'n' && "mcpEnabled"@[0] == 'm');
    assert("takeoverPermissions"@.len() == 19);
    assert("showTokenStats"@.len() == 14);
    assert("showTokenStats"@[0] == 's');
}

/// The modes and the states of a session have their names.
pub proof fn law_modes_and_states_have_their_names(
    mode: PopupMode,
    name: &'static str,
    status: SessionStatus,
    word: &'static str,
)
    requires
        call_ensures(PopupMode::as_str, (mode,), name),
        call_ensures(SessionStatus::as_str, (status,), word),
    ensures
        mode == PopupMode::List ==> name@ == "list"@,
        mode == PopupMode::Lamp ==> name@ == "lamp"@,
        status is Working ==> word@ == "working"@,
        status is WaitingWorkflow ==> word@ == "waitingworkflow"@,
        status is Attention ==> word@ == "attention"@,
        status is Idle ==> word@ == "idle"@,
        status is Dead ==> word@ == "dead"@,
{
}

// ---------------------------------------------------------------------------
// Where the data lie.
// ---------------------------------------------------------------------------

/// Whether a path is a drive and nothing else.
pub open spec fn a_drive(dir: Seq<char>) -> bool {
    dir.len() == 2 && dir[1] == ':' && ('a' <= dir[0] <= 'z' || 'A' <= dir[0] <= 'Z')
}

/// Whether a path is one that Windows takes as it is written.
pub open spec fn as_written(dir: Seq<char>) -> bool {
    dir.len() >= 4 && dir[0] == '\\' && dir[1] == '\\' && dir[2] == '?' && dir[3] == '\\'
}

/// A path leads from the directory to the name by one separator, of the platform's kind
/// where the directory does not end with one.
pub proof fn law_a_path_leads_from_the_directory_to_the_name(
    platform: Platform,
    dir: &str,
    name: &str,
    out: String,
)
    requires
        call_ensures(join_path, (platform, dir, name), out),
    ensures
        dir@.len() == 0 ==> out@ == name@,
        platform != Platform::Windows && dir@.len() > 0 && dir@.last() == '/' ==> out@ == dir@
            + name@,
        platform != Platform::Windows && dir@.len() > 0 && dir@.last() != '/' ==> out@ == dir@.push(
            '/',
        ) + name@,
        platform == Platform::Windows && dir@.len() > 0 && dir@.last() == '\\' ==> out@ == dir@
            + name@,
        platform == Platform::Windows && dir@.len() > 0 && dir@.last() != '\\' && dir@.last() != '/'
            && !a_drive(dir@) ==> out@ == dir@.push('\\') + name@,
        platform == Platform::Windows && dir@.len() > 0 && dir@.last() == '/' && !as_written(dir@)
            ==> out@ == dir@ + name@,
        platform == Platform::Windows && dir@.len() > 0 && dir@.last() == '/' && as_written(dir@)
            ==> out@ == dir@.push('\\') + name@,
        platform == Platform::Windows && a_drive(dir@) ==> out@ == dir@ + name@,
{
    reveal_strlit("\\\\?\\");
    reveal_strlit("/");
    reveal_strlit("\\");
    assert("/"@ =~= seq!['/']);
    assert("\\"@ =~= seq!['\\']);
    assert(dir@.push('/') =~= dir@ + seq!['/']);
    assert(dir@.push('\\') =~= dir@ + seq!['\\']);
    if dir@.len() == 0 {
        assert(dir@ + name@ =~= name@);
    }
    let mark = "\\\\?\\"@;
    assert(mark.len() == 4 && mark[0] == '\\' && mark[1] == '\\' && mark[2] == '?' && mark[3]
        == '\\');
    if after_prefix(dir@, mark) is Some {
        assert(dir@.take(4)[0] == dir@[0] && dir@.take(4)[1] == dir@[1] && dir@.take(4)[2]
            == dir@[2] && dir@.take(4)[3] == dir@[3]);
    }
    if as_written(dir@) {
        assert(dir@.take(4) =~= mark);
    }
}

/// Each kind of file lies in a place of its own below the data root.
pub proof fn law_each_kind_of_file_has_its_place(
    platform: Platform,
    root: &str,
    name: &str,
    at_name: String,
    spool: String,
    quarantine: String,
    asks: String,
    answers: String,
    perms: String,
    perm_answers: String,
    hooks: String,
    logs: String,
    settings: String,
    names: String,
)
    requires
        call_ensures(join_path, (platform, root, name), at_name),
        call_ensures(spool_dir, (platform, root), spool),
        call_ensures(spool_quarantine_dir, (platform, root), quarantine),
        call_ensures(asks_dir, (platform, root), asks),
        call_ensures(answers_dir, (platform, root), answers),
        call_ensures(perms_dir, (platform, root), perms),
        call_ensures(perm_answers_dir, (platform, root), perm_answers),
        call_ensures(hooks_dir, (platform, root), hooks),
        call_ensures(logs_dir, (platform, root), logs),
        call_ensures(settings_path, (platform, root), settings),
        call_ensures(session_names_path, (platform, root), names),
    ensures
        name@ == "spool"@ ==> spool@ == at_name@,
        name@ == "spool-quarantine"@ ==> quarantine@ == at_name@,
        name@ == "asks"@ ==> asks@ == at_name@,
        name@ == "answers"@ ==> answers@ == at_name@,
        name@ == "perms"@ ==> perms@ == at_name@,
        name@ == "perm-answers"@ ==> perm_answers@ == at_name@,
        name@ == "hooks"@ ==> hooks@ == at_name@,
        name@ == "logs"@ ==> logs@ == at_name@,
        name@ == "settings.json"@ ==> settings@ == at_name@,
        name@ == "session-names.json"@ ==> names@ == at_name@,
{
}

/// The data root is the one that is set, where one is; otherwise the platform's, below the
/// user's own directory on Windows and macOS, and else below that for temporary files.
pub proof fn law_the_data_root_is_found(
    platform: Platform,
    user_dir: Option<&str>,
    temp_dir: &str,
    out: String,
    dir: &str,
    name: &str,
    at_name: String,
    chosen: Option<String>,
    resolved: String,
)
    requires
        call_ensures(platform_data_dir, (platform, user_dir, temp_dir), out),
        call_ensures(join_path, (platform, dir, name), at_name),
        call_ensures(resolve_data_dir, (chosen, out), resolved),
    ensures
        platform == Platform::Windows && user_dir is Some && dir@ == user_dir->Some_0@ && name@
            == "quarterdeck"@ ==> out@ == at_name@,
        platform == Platform::MacOs && user_dir is Some && dir@ == user_dir->Some_0@ && name@
            == "Library/Application Support/quarterdeck"@ ==> out@ == at_name@,
        (platform == Platform::Other || user_dir is None) && dir@ == temp_dir@ && name@
            == "quarterdeck"@ ==> out@ == at_name@,
        chosen is None ==> resolved@ == out@,
        chosen matches Some(d) ==> d@.len() == 0 ==> resolved@ == out@,
        chosen matches Some(d) ==> d@.len() > 0 ==> resolved@ == d@,
{
}

// ---------------------------------------------------------------------------
// The names of sessions.
// ---------------------------------------------------------------------------

/// The first entry of a session is the one that counts.
pub proof fn law_the_first_name_counts(names: Seq<(String, String)>, i: int)
    requires
        0 <= i < names.len(),
        forall|j: int| 0 <= j < i ==> (#[trigger] names[j]).0@ != names[i].0@,
    ensures
        names_view(names).dom().contains(names[i].0@),
        names_view(names)[names[i].0@] == names[i].1@,
    decreases i,
{
    if i > 0 {
        let rest = names.subrange(1, names.len() as int);
        assert(rest[i - 1] == names[i]);
        assert(names[0].0@ != names[i].0@);
        assert forall|j: int| 0 <= j < i - 1 implies (#[trigger] rest[j]).0@ != rest[i - 1].0@ by {
            assert(rest[j] == names[j + 1]);
        }
        law_the_first_name_counts(rest, i - 1);
    }
}

/// A session without an entry has no name.
pub proof fn law_no_entry_is_no_name(names: Seq<(String, String)>, id: Seq<char>)
    requires
        forall|j: int| 0 <= j < names.len() ==> (#[trigger] names[j]).0@ != id,
    ensures
        !names_view(names).dom().contains(id),
    decreases names.len(),
{
    if names.len() > 0 {
        let rest = names.subrange(1, names.len() as int);
        assert(names[0].0@ != id);
        assert forall|j: int| 0 <= j < rest.len() implies (#[trigger] rest[j]).0@ != id by {
            assert(rest[j] == names[j + 1]);
        }
        law_no_entry_is_no_name(rest, id);
    }
}

/// A session has the name that the file gives it, without white space around it; where the
/// file gives it none, or nothing but white space, it has none.
pub proof fn law_names_are_read_one_by_one(
    text: &str,
    fields: Map<Seq<char>, JsonView>,
    out: Vec<(String, String)>,
    id: Seq<char>,
)
    requires
        call_ensures(crate::session_names::load, (Some(text),), out),
        text@.len() == 0 || text@[0] != '\u{feff}',
        parsed_text(text@) == Some(JsonView::Object(fields)),
    ensures
        fields.dom().contains(id) && fields[id] is Str && trimmed(fields[id]->Str_0).len() > 0
            ==> names_view(out@).dom().contains(id) && names_view(out@)[id] == trimmed(
            fields[id]->Str_0,
        ),
        fields.dom().contains(id) && fields[id] is Str && trimmed(fields[id]->Str_0).len() == 0
            ==> !names_view(out@).dom().contains(id),
        fields.dom().contains(id) && !(fields[id] is Str) ==> !names_view(out@).dom().contains(id),
        !fields.dom().contains(id) ==> !names_view(out@).dom().contains(id),
{
    lemma_bom(text@);
}

/// Without a file, or with one that holds no object, no session has a name; and a byte
/// order mark makes no difference.
pub proof fn law_what_holds_no_names_gives_none(
    text: Option<&str>,
    out: Vec<(String, String)>,
    plain_text: &str,
    marked: &str,
    out_plain: Vec<(String, String)>,
    out_marked: Vec<(String, String)>,
    id: Seq<char>,
)
    requires
        call_ensures(crate::session_names::load, (text,), out),
        call_ensures(crate::session_names::load, (Some(plain_text),), out_plain),
        call_ensures(crate::session_names::load, (Some(marked),), out_marked),
        plain_text@.len() == 0 || plain_text@[0] != '\u{feff}',
        marked@ == seq!['\u{feff}'] + plain_text@,
    ensures
        text is None ==> !names_view(out@).dom().contains(id),
        !(parsed_text(plain_text@) matches Some(JsonView::Object(_))) ==> !names_view(
            out_plain@,
        ).dom().contains(id),
        names_view(out_plain@) == names_view(out_marked@),
{
    lemma_bom(plain_text@);
    lemma_bom(marked@);
    assert(marked@.skip(1) =~= plain_text@);
}

/// Names that are saved are loaded, as far as they are not blank and have no white space
/// around them.
pub proof fn law_names_that_are_saved_are_loaded(
    names: &Vec<(String, String)>,
    saved: String,
    text: &str,
    back: Vec<(String, String)>,
)
    requires
        call_ensures(crate::session_names::save, (names,), saved),
        call_ensures(crate::session_names::load, (Some(text),), back),
        text@ == saved@,
        forall|id: Seq<char>| #[trigger]
            names_view(names@).dom().contains(id) ==> names_view(names@)[id].len() > 0 && trimmed(
                names_view(names@)[id],
            ) == names_view(names@)[id],
        !names_view(names@).dom().contains(raw_key()),
    ensures
        names_view(back@) == names_view(names@),
{
}

/// A session is renamed to what the user typed without the white space around it, and to
/// nothing where nothing is left.
pub proof fn law_a_session_is_renamed_as_typed(name: &str, out: Option<String>)
    requires
        call_ensures(rename_session, (name,), out),
    ensures
        trimmed(name@).len() == 0 ==> out is None,
        trimmed(name@).len() > 0 ==> (out matches Some(n) && n@ == trimmed(name@)),
{
}

} // verus!
