//! The persisted user settings, and where the data lie.

use crate::ipc::{lossy_bool, setting_json, SettingValue};
use crate::json::{
    field_of, fields_view, lemma_fields_without, lemma_raw_key, parse, parsed_text, plain, pretty,
    pretty_text, raw_key, same_fields, set_field, set_fields, Json, JsonView, DEPTH_LIMIT,
};
use crate::lists::take_where;
use crate::text::{after_prefix, chars_of, joined, optional_str, same_text, strip_prefix};
use vstd::prelude::*;
use vstd::string::*;

verus! {

/// How the popup shows the sessions: the whole list, or a small lamp.
#[derive(Clone, Copy, Debug, PartialEq, Eq, Structural)]
pub enum PopupMode {
    List,
    Lamp,
}

impl PopupMode {
    /// The name under which the mode is stored.
    pub fn as_str(self) -> (out: &'static str)
        ensures
            out@ == mode_name(self),
    {
        match self {
            PopupMode::List => "list",
            PopupMode::Lamp => "lamp",
        }
    }
}

/// The name under which a mode is stored.
pub open spec fn mode_name(mode: PopupMode) -> Seq<char> {
    match mode {
        PopupMode::List => "list"@,
        PopupMode::Lamp => "lamp"@,
    }
}

// ---------------------------------------------------------------------------
// Where the data lie.
// ---------------------------------------------------------------------------

/// The systems that keep their data in different places and write paths differently.
#[derive(Clone, Copy, Debug, PartialEq, Eq, Structural)]
pub enum Platform {
    Windows,
    MacOs,
    Other,
}

/// Whether `dir` is a path that is taken as it is written, of which a slash separates
/// no parts.
pub open spec fn verbatim(platform: Platform, dir: Seq<char>) -> bool {
    platform == Platform::Windows && after_prefix(dir, "\\\\?\\"@) is Some
}

/// Whether the last character of `dir` separates the parts of a path.
pub open spec fn ends_a_part(platform: Platform, dir: Seq<char>) -> bool {
    ||| dir.last() == '/' && !verbatim(platform, dir)
    ||| dir.last() == '\\' && platform == Platform::Windows
}

/// Whether `dir` is a drive and nothing else.
pub open spec fn bare_drive(platform: Platform, dir: Seq<char>) -> bool {
    platform == Platform::Windows && dir.len() == 2 && dir[1] == ':' && ('a' <= dir[0] <= 'z' || 'A'
        <= dir[0] <= 'Z')
}

/// What is written between two parts of a path.
pub open spec fn separator_of(platform: Platform) -> Seq<char> {
    if platform == Platform::Windows {
        "\\"@
    } else {
        "/"@
    }
}

/// The path of `name` in the directory `dir`.
pub open spec fn path_in(platform: Platform, dir: Seq<char>, name: Seq<char>) -> Seq<char> {
    if dir.len() == 0 || ends_a_part(platform, dir) || bare_drive(platform, dir) {
        dir + name
    } else {
        dir + separator_of(platform) + name
    }
}

/// The path of `name` in the directory `dir`.
pub fn join_path(platform: Platform, dir: &str, name: &str) -> (out: String)
    ensures
        out@ == path_in(platform, dir@, name@),
{
    let chars = chars_of(dir);
    let windows = platform == Platform::Windows;
    let n = chars.len();
    let verbatim = windows && strip_prefix(dir, "\\\\?\\").is_some();
    if n == 0 || (chars[n - 1] == '/' && !verbatim) || (windows && chars[n - 1] == '\\') {
        return joined(dir, name);
    }
    if windows && n == 2 && chars[1] == ':' && ('a' <= chars[0] && chars[0] <= 'z' || 'A'
        <= chars[0] && chars[0] <= 'Z') {
        return joined(dir, name);
    }
    let mut out = joined(
        dir,
        if windows {
            "\\"
        } else {
            "/"
        },
    );
    out.append(name);
    out
}

/// The data root of a platform: below the user's own directory for such data
/// where there is one, below the directory for temporary files otherwise.
pub open spec fn platform_root(
    platform: Platform,
    user_dir: Option<Seq<char>>,
    temp_dir: Seq<char>,
) -> Seq<char> {
    match (platform, user_dir) {
        (Platform::Windows, Some(dir)) => path_in(platform, dir, "quarterdeck"@),
        (Platform::MacOs, Some(dir)) => path_in(
            platform,
            dir,
            "Library/Application Support/quarterdeck"@,
        ),
        _ => path_in(platform, temp_dir, "quarterdeck"@),
    }
}

/// The data root of a platform. `user_dir` is `%APPDATA%` on Windows and `$HOME`
/// on macOS.
pub fn platform_data_dir(platform: Platform, user_dir: Option<&str>, temp_dir: &str) -> (out:
    String)
    ensures
        out@ == platform_root(
            platform,
            optional_str(user_dir),
            temp_dir@,
        ),
{
    match (platform, user_dir) {
        (Platform::Windows, Some(dir)) => join_path(platform, dir, "quarterdeck"),
        (Platform::MacOs, Some(dir)) => join_path(platform, dir, "Library/Application Support/quarterdeck"),
        _ => join_path(platform, temp_dir, "quarterdeck"),
    }
}

/// The data root: what is set, unless that is empty, and else the platform's.
pub fn resolve_data_dir(override_dir: Option<String>, platform_dir: String) -> (out: String)
    ensures
        out@ == match override_dir {
            Some(dir) => if dir@.len() == 0 {
                platform_dir@
            } else {
                dir@
            },
            None => platform_dir@,
        },
{
    match override_dir {
        Some(dir) => if dir.as_str().is_empty() {
            platform_dir
        } else {
            dir
        },
        None => platform_dir,
    }
}

/// Where events wait to be read.
pub fn spool_dir(platform: Platform, root: &str) -> (out: String)
    ensures
        out@ == path_in(platform, root@, "spool"@),
{
    join_path(platform, root, "spool")
}

/// Where files that cannot be read are put.
pub fn spool_quarantine_dir(platform: Platform, root: &str) -> (out: String)
    ensures
        out@ == path_in(platform, root@, "spool-quarantine"@),
{
    join_path(platform, root, "spool-quarantine")
}

/// Where questions wait for an answer.
pub fn asks_dir(platform: Platform, root: &str) -> (out: String)
    ensures
        out@ == path_in(platform, root@, "asks"@),
{
    join_path(platform, root, "asks")
}

/// Where answers wait to be handed on.
pub fn answers_dir(platform: Platform, root: &str) -> (out: String)
    ensures
        out@ == path_in(platform, root@, "answers"@),
{
    join_path(platform, root, "answers")
}

/// Where permission requests wait for a decision.
pub fn perms_dir(platform: Platform, root: &str) -> (out: String)
    ensures
        out@ == path_in(platform, root@, "perms"@),
{
    join_path(platform, root, "perms")
}

/// Where decisions wait to be read by the hook.
pub fn perm_answers_dir(platform: Platform, root: &str) -> (out: String)
    ensures
        out@ == path_in(platform, root@, "perm-answers"@),
{
    join_path(platform, root, "perm-answers")
}

/// Where the hook scripts are installed.
pub fn hooks_dir(platform: Platform, root: &str) -> (out: String)
    ensures
        out@ == path_in(platform, root@, "hooks"@),
{
    join_path(platform, root, "hooks")
}

/// Where the log is kept.
pub fn logs_dir(platform: Platform, root: &str) -> (out: String)
    ensures
        out@ == path_in(platform, root@, "logs"@),
{
    join_path(platform, root, "logs")
}

/// The settings file in `dir`.
pub fn settings_path(platform: Platform, dir: &str) -> (out: String)
    ensures
        out@ == path_in(platform, dir@, "settings.json"@),
{
    join_path(platform, dir, "settings.json")
}

// ---------------------------------------------------------------------------
// The settings.
// ---------------------------------------------------------------------------

/// The user's settings. Keys without a field of their own are kept in `extra`,
/// so that a file edited by hand or by another version loses nothing.
#[derive(Debug)]
pub struct Settings {
    pub notify_idle: bool,
    pub notify_attention: bool,
    pub notify_reminder: bool,
    pub launch_at_login: bool,
    pub onboarding_done: bool,
    pub popup_pinned: bool,
    pub extra: Vec<(String, Json)>,
}

/// What [`Settings`] say.
pub ghost struct SettingsView {
    pub notify_idle: bool,
    pub notify_attention: bool,
    pub notify_reminder: bool,
    pub launch_at_login: bool,
    pub onboarding_done: bool,
    pub popup_pinned: bool,
    pub extra: Map<Seq<char>, JsonView>,
}

impl View for Settings {
    type V = SettingsView;

    open spec fn view(&self) -> SettingsView {
        SettingsView {
            notify_idle: self.notify_idle,
            notify_attention: self.notify_attention,
            notify_reminder: self.notify_reminder,
            launch_at_login: self.launch_at_login,
            onboarding_done: self.onboarding_done,
            popup_pinned: self.popup_pinned,
            extra: fields_view(self.extra@),
        }
    }
}

impl PartialEq for Settings {
    fn eq(&self, other: &Self) -> (out: bool) {
        self.notify_idle == other.notify_idle && self.notify_attention == other.notify_attention
            && self.notify_reminder == other.notify_reminder && self.launch_at_login
            == other.launch_at_login && self.onboarding_done == other.onboarding_done
            && self.popup_pinned == other.popup_pinned && same_fields(&self.extra, &other.extra)
    }
}

impl vstd::std_specs::cmp::PartialEqSpecImpl for Settings {
    open spec fn obeys_eq_spec() -> bool {
        true
    }

    open spec fn eq_spec(&self, other: &Self) -> bool {
        self@ == other@
    }
}

impl Eq for Settings {

}

/// The keys that have a field of their own.
pub open spec fn known_keys() -> Set<Seq<char>> {
    set![
        "notifyIdle"@,
        "notifyAttention"@,
        "notifyReminder"@,
        "launchAtLogin"@,
        "onboardingDone"@,
        "popupPinned"@,
    ]
}

impl SettingsView {
    /// Whether `extra` holds none of the keys that have a field of their own.
    pub open spec fn wf(self) -> bool {
        forall|k: Seq<char>| #[trigger] self.extra.dom().contains(k) ==> !known_keys().contains(k)
    }
}

/// The settings before the user has set anything.
pub open spec fn default_settings() -> SettingsView {
    SettingsView {
        notify_idle: true,
        notify_attention: true,
        notify_reminder: false,
        launch_at_login: false,
        onboarding_done: false,
        popup_pinned: false,
        extra: Map::empty(),
    }
}

impl Default for Settings {
    fn default() -> (out: Self)
        ensures
            out@ == default_settings(),
    {
        Settings {
            notify_idle: true,
            notify_attention: true,
            notify_reminder: false,
            launch_at_login: false,
            onboarding_done: false,
            popup_pinned: false,
            extra: Vec::new(),
        }
    }
}

/// The truth value of `key` in `document`, or `default` where there is none.
pub open spec fn flag_or(document: JsonView, key: Seq<char>, default: bool) -> bool {
    match document.field_flag(key) {
        Some(b) => b,
        None => default,
    }
}

/// The settings that `document` holds, where it is an object. A known key of the
/// wrong type counts as not set and takes nothing else with it; an unknown key
/// is kept.
pub open spec fn settings_in(document: JsonView) -> Option<SettingsView> {
    match document {
        JsonView::Object(fields) => Some(
            SettingsView {
                notify_idle: flag_or(document, "notifyIdle"@, true),
                notify_attention: flag_or(document, "notifyAttention"@, true),
                notify_reminder: flag_or(document, "notifyReminder"@, false),
                launch_at_login: flag_or(document, "launchAtLogin"@, false),
                onboarding_done: flag_or(document, "onboardingDone"@, false),
                popup_pinned: flag_or(document, "popupPinned"@, false),
                extra: fields.remove_keys(known_keys()),
            },
        ),
        _ => None,
    }
}

/// The settings after `key` was set to `value`.
pub open spec fn applied(s: SettingsView, key: Seq<char>, value: SettingValue) -> SettingsView {
    if key == "notifyIdle"@ {
        SettingsView { notify_idle: lossy_bool(value), ..s }
    } else if key == "notifyAttention"@ {
        SettingsView { notify_attention: lossy_bool(value), ..s }
    } else if key == "notifyReminder"@ {
        SettingsView { notify_reminder: lossy_bool(value), ..s }
    } else if key == "launchAtLogin"@ {
        SettingsView { launch_at_login: lossy_bool(value), ..s }
    } else if key == "onboardingDone"@ {
        SettingsView { onboarding_done: lossy_bool(value), ..s }
    } else if key == "popupPinned"@ {
        SettingsView { popup_pinned: lossy_bool(value), ..s }
    } else {
        SettingsView { extra: s.extra.insert(key, setting_json(value)), ..s }
    }
}

fn is_known_key(key: &str) -> (known: bool)
    ensures
        known == known_keys().contains(key@),
{
    same_text(key, "notifyIdle") || same_text(key, "notifyAttention") || same_text(
        key,
        "notifyReminder",
    ) || same_text(key, "launchAtLogin") || same_text(key, "onboardingDone") || same_text(
        key,
        "popupPinned",
    )
}

fn flag_or_of(document: &Json, key: &str, default: bool) -> (out: bool)
    ensures
        out == flag_or(document@, key@, default),
{
    match document.get_bool(key) {
        Some(b) => b,
        None => default,
    }
}

impl Settings {
    /// The settings that `document` holds, where it is an object.
    pub fn from_json_value(document: Json) -> (out: Option<Self>)
        ensures
            match out {
                Some(settings) => settings_in(document@) == Some(settings@) && settings@.wf(),
                None => settings_in(document@) is None,
            },
    {
        let notify_idle = flag_or_of(&document, "notifyIdle", true);
        let notify_attention = flag_or_of(&document, "notifyAttention", true);
        let notify_reminder = flag_or_of(&document, "notifyReminder", false);
        let launch_at_login = flag_or_of(&document, "launchAtLogin", false);
        let onboarding_done = flag_or_of(&document, "onboardingDone", false);
        let popup_pinned = flag_or_of(&document, "popupPinned", false);
        match document {
            Json::Object(fields) => {
                let mut extra = fields;
                let ghost known = |f: (String, Json)| known_keys().contains(f.0@);
                let test = |f: &(String, Json)| -> (b: bool)
                    ensures
                        b == known_keys().contains(f.0@),
                    { is_known_key(f.0.as_str()) };
                let _taken = take_where(&mut extra, test, Ghost(known));
                proof {
                    lemma_fields_without(
                        fields@,
                        known_keys(),
                        |f: (String, Json)| !known(f),
                    );
                }
                Some(
                    Settings {
                        notify_idle,
                        notify_attention,
                        notify_reminder,
                        launch_at_login,
                        onboarding_done,
                        popup_pinned,
                        extra,
                    },
                )
            },
            _ => None,
        }
    }

    /// Sets `key` to `value`.
    pub fn apply(&mut self, key: &str, value: SettingValue)
        ensures
            final(self)@ == applied(old(self)@, key@, value),
            old(self)@.wf() ==> final(self)@.wf(),
    {
        if same_text(key, "notifyIdle") {
            self.notify_idle = value.as_bool_lossy();
        } else if same_text(key, "notifyAttention") {
            self.notify_attention = value.as_bool_lossy();
        } else if same_text(key, "notifyReminder") {
            self.notify_reminder = value.as_bool_lossy();
        } else if same_text(key, "launchAtLogin") {
            self.launch_at_login = value.as_bool_lossy();
        } else if same_text(key, "onboardingDone") {
            self.onboarding_done = value.as_bool_lossy();
        } else if same_text(key, "popupPinned") {
            self.popup_pinned = value.as_bool_lossy();
        } else {
            set_field(&mut self.extra, key, value.into_json());
        }
    }
}

impl Settings {
    /// Whether to take over permission prompts; so, unless it is set otherwise.
    pub fn takeover_permissions(&self) -> (out: bool)
        ensures
            out == flag_or(JsonView::Object(self@.extra), "takeoverPermissions"@, true),
    {
        match field_of(&self.extra, "takeoverPermissions") {
            Some(v) => match v.as_bool() {
                Some(b) => b,
                None => true,
            },
            None => true,
        }
    }

    /// Whether rows show the tokens used; so, unless it is set otherwise.
    pub fn show_token_stats(&self) -> (out: bool)
        ensures
            out == flag_or(JsonView::Object(self@.extra), "showTokenStats"@, true),
    {
        match field_of(&self.extra, "showTokenStats") {
            Some(v) => match v.as_bool() {
                Some(b) => b,
                None => true,
            },
            None => true,
        }
    }

    /// Whether agents may ask questions; not, unless it is set otherwise.
    pub fn mcp_enabled(&self) -> (out: bool)
        ensures
            out == flag_or(JsonView::Object(self@.extra), "mcpEnabled"@, false),
    {
        match field_of(&self.extra, "mcpEnabled") {
            Some(v) => match v.as_bool() {
                Some(b) => b,
                None => false,
            },
            None => false,
        }
    }

    /// How the popup shows the sessions; the list, unless it is set otherwise.
    pub fn popup_mode(&self) -> (out: PopupMode)
        ensures
            out == stored_mode(self@),
    {
        match field_of(&self.extra, "popupMode") {
            Some(v) => match v.as_str() {
                Some(s) => if same_text(s, "lamp") {
                    PopupMode::Lamp
                } else {
                    PopupMode::List
                },
                None => PopupMode::List,
            },
            None => PopupMode::List,
        }
    }
}

/// The mode that the settings hold.
pub open spec fn stored_mode(s: SettingsView) -> PopupMode {
    if JsonView::Object(s.extra).field_text("popupMode"@) == Some("lamp"@) {
        PopupMode::Lamp
    } else {
        PopupMode::List
    }
}

// ---------------------------------------------------------------------------
// Reading and writing.
// ---------------------------------------------------------------------------

/// `text` without a byte order mark in front.
pub open spec fn without_bom(text: Seq<char>) -> Seq<char> {
    match after_prefix(text, "\u{feff}"@) {
        Some(rest) => rest,
        None => text,
    }
}

/// `text` without a byte order mark in front.
pub fn strip_bom(text: &str) -> (out: String)
    ensures
        out@ == without_bom(text@),
{
    match strip_prefix(text, "\u{feff}") {
        Some(rest) => rest,
        None => text.to_owned(),
    }
}

/// A text that begins with a brace has no byte order mark.
pub proof fn lemma_brace_is_no_bom(text: Seq<char>)
    requires
        text.len() > 0,
        text[0] == '{',
    ensures
        without_bom(text) == text,
{
    reveal_strlit("\u{feff}");
    assert("\u{feff}"@.len() == 1);
    if text.take(1) == "\u{feff}"@ {
        assert(text.take(1)[0] == text[0]);
        assert("\u{feff}"@[0] == '\u{feff}');
    }
}

/// The settings in a document that was read, or in none.
pub open spec fn settings_from(document: Option<JsonView>) -> SettingsView {
    match document {
        Some(d) => match settings_in(d) {
            Some(s) => s,
            None => default_settings(),
        },
        None => default_settings(),
    }
}

/// The settings in the text of a file, or in no file.
pub open spec fn loaded(text: Option<Seq<char>>) -> SettingsView {
    match text {
        Some(t) => settings_from(parsed_text(without_bom(t))),
        None => default_settings(),
    }
}

/// The settings in a document that was read, or in none: the defaults where it
/// holds no settings.
pub fn from_document(document: Option<Json>) -> (out: Settings)
    ensures
        out@ == settings_from(
            match document {
                Some(d) => Some(d@),
                None => None,
            },
        ),
        out@.wf(),
{
    match document {
        Some(d) => match Settings::from_json_value(d) {
            Some(settings) => settings,
            None => Settings::default(),
        },
        None => Settings::default(),
    }
}

/// The settings in the text of the settings file, or in no file: the defaults
/// where it cannot be read.
pub fn load(text: Option<&str>) -> (out: Settings)
    ensures
        out@ == loaded(
            optional_str(text),
        ),
        out@.wf(),
{
    match text {
        Some(t) => from_document(parse(strip_bom(t).as_str())),
        None => Settings::default(),
    }
}

/// What the fields say, key by key.
pub open spec fn known_fields(s: SettingsView) -> Map<Seq<char>, JsonView> {
    Map::<Seq<char>, JsonView>::empty().insert("popupPinned"@, JsonView::Bool(s.popup_pinned)).insert(
        "onboardingDone"@,
        JsonView::Bool(s.onboarding_done),
    ).insert("launchAtLogin"@, JsonView::Bool(s.launch_at_login)).insert(
        "notifyReminder"@,
        JsonView::Bool(s.notify_reminder),
    ).insert("notifyAttention"@, JsonView::Bool(s.notify_attention)).insert(
        "notifyIdle"@,
        JsonView::Bool(s.notify_idle),
    )
}

/// The settings as a document. Where `extra` holds a key that has a field of its own,
/// what `extra` says of it counts.
pub open spec fn settings_document(s: SettingsView) -> JsonView {
    JsonView::Object(known_fields(s).union_prefer_right(s.extra))
}

/// The keys of the fields are six different ones.
proof fn lemma_keys_differ()
    ensures
        "notifyIdle"@.len() == 10,
        "notifyAttention"@.len() == 15,
        "notifyReminder"@.len() == 14 && "notifyReminder"@[0] == 'n',
        "launchAtLogin"@.len() == 13,
        "onboardingDone"@.len() == 14 && "onboardingDone"@[0] == 'o',
        "popupPinned"@.len() == 11,
{
    reveal_strlit("notifyIdle");
    reveal_strlit("notifyAttention");
    reveal_strlit("notifyReminder");
    reveal_strlit("launchAtLogin");
    reveal_strlit("onboardingDone");
    reveal_strlit("popupPinned");
}

/// Settings that are written down as a document are the settings that the
/// document holds.
pub proof fn law_document_holds_settings(s: SettingsView)
    requires
        s.wf(),
    ensures
        settings_in(settings_document(s)) == Some(s),
{
    lemma_keys_differ();
    let fields = settings_document(s)->Object_0;
    assert(forall|k: Seq<char>| #[trigger]
        known_keys().contains(k) ==> known_fields(s).dom().contains(k) && fields[k]
            == known_fields(s)[k]);
    assert(fields.remove_keys(known_keys()) =~= s.extra);
}

/// Whether the settings can be read back once they are written: no number in their
/// unknown keys changes on the way, no key in them is the name for raw texts, and they
/// do not nest too deep.
pub open spec fn readable(s: SettingsView) -> bool {
    &&& !s.extra.dom().contains(raw_key())
    &&& forall|k: Seq<char>|
        s.extra.dom().contains(k) ==> plain(#[trigger] s.extra[k], (DEPTH_LIMIT - 1) as nat)
}

proof fn lemma_document_is_plain(s: SettingsView)
    requires
        readable(s),
    ensures
        plain(settings_document(s), DEPTH_LIMIT as nat),
{
    let document = settings_document(s);
    let fields = document->Object_0;
    lemma_raw_key();
    lemma_keys_differ();
    assert forall|k: Seq<char>| fields.dom().contains(k) implies plain(
        #[trigger] document->Object_0[k],
        (DEPTH_LIMIT - 1) as nat,
    ) by {
        if s.extra.dom().contains(k) {
            assert(fields[k] == s.extra[k]);
        } else {
            assert(fields[k] is Bool);
        }
    }
}

/// The settings as a document.
pub fn to_document(settings: &Settings) -> (out: Json)
    ensures
        out@ == settings_document(settings@),
{
    let mut fields: Vec<(String, Json)> = Vec::new();
    set_field(&mut fields, "popupPinned", Json::Bool(settings.popup_pinned));
    set_field(&mut fields, "onboardingDone", Json::Bool(settings.onboarding_done));
    set_field(&mut fields, "launchAtLogin", Json::Bool(settings.launch_at_login));
    set_field(&mut fields, "notifyReminder", Json::Bool(settings.notify_reminder));
    set_field(&mut fields, "notifyAttention", Json::Bool(settings.notify_attention));
    set_field(&mut fields, "notifyIdle", Json::Bool(settings.notify_idle));
    set_fields(&mut fields, &settings.extra);
    Json::Object(fields)
}

/// The text of the settings file. Loading it gives the same settings back.
pub fn save(settings: &Settings) -> (out: String)
    ensures
        out@ == pretty_text(settings_document(settings@)),
        settings@.wf() && readable(settings@) ==> loaded(Some(out@)) == settings@,
{
    let document = to_document(settings);
    let out = pretty(&document);
    proof {
        lemma_brace_is_no_bom(out@);
        if settings@.wf() && readable(settings@) {
            lemma_document_is_plain(settings@);
            law_document_holds_settings(settings@);
        }
    }
    out
}

/// Sets `key` to `value` in the settings that a file holds: the new settings,
/// and the new text of the file.
pub fn set_setting(text: Option<&str>, key: &str, value: SettingValue) -> (out: (Settings, String))
    ensures
        out.0@ == applied(
            loaded(
                optional_str(text),
            ),
            key@,
            value,
        ),
        out.0@.wf(),
        out.1@ == pretty_text(settings_document(out.0@)),
        readable(out.0@) ==> loaded(Some(out.1@)) == out.0@,
{
    let mut settings = load(text);
    settings.apply(key, value);
    let saved = save(&settings);
    (settings, saved)
}

// ---------------------------------------------------------------------------
// Laws.
// ---------------------------------------------------------------------------

/// Setting one key leaves every unknown key other than it as it was.
pub proof fn law_unknown_keys_survive(
    s: SettingsView,
    key: Seq<char>,
    value: SettingValue,
    other: Seq<char>,
)
    requires
        s.extra.dom().contains(other),
        other != key,
    ensures
        applied(s, key, value).extra.dom().contains(other),
        applied(s, key, value).extra[other] == s.extra[other],
{
}

/// Setting one key leaves settings that can be read back as such.
pub proof fn law_setting_keeps_readable(s: SettingsView, key: Seq<char>, value: SettingValue)
    requires
        readable(s),
        key != raw_key(),
    ensures
        readable(applied(s, key, value)),
{
    let after = applied(s, key, value);
    assert forall|k: Seq<char>| after.extra.dom().contains(k) implies plain(
        #[trigger] after.extra[k],
        (DEPTH_LIMIT - 1) as nat,
    ) by {
        if s.extra.dom().contains(k) {
            assert(plain(s.extra[k], (DEPTH_LIMIT - 1) as nat));
        }
    }
}

/// Setting a key to the same value twice is setting it once.
pub proof fn law_setting_twice(s: SettingsView, key: Seq<char>, value: SettingValue)
    ensures
        applied(applied(s, key, value), key, value) == applied(s, key, value),
{
    let once = applied(s, key, value);
    assert(applied(once, key, value).extra =~= once.extra);
}

/// Two different keys can be set in either order.
pub proof fn law_settings_commute(
    s: SettingsView,
    key: Seq<char>,
    value: SettingValue,
    other: Seq<char>,
    other_value: SettingValue,
)
    requires
        key != other,
    ensures
        applied(applied(s, key, value), other, other_value) == applied(
            applied(s, other, other_value),
            key,
            value,
        ),
{
    let a = applied(applied(s, key, value), other, other_value);
    let b = applied(applied(s, other, other_value), key, value);
    assert(a.extra =~= b.extra);
}

/// A known key of the wrong type takes nothing else with it: the other known
/// keys and every unknown key are read as if it were not there.
pub proof fn law_wrong_type_resets_one_key(
    fields: Map<Seq<char>, JsonView>,
    key: Seq<char>,
    value: JsonView,
)
    requires
        known_keys().contains(key),
        !(value is Bool),
    ensures
        settings_in(JsonView::Object(fields.insert(key, value))) == settings_in(
            JsonView::Object(fields.remove(key)),
        ),
{
    lemma_keys_differ();
    let with = settings_in(JsonView::Object(fields.insert(key, value)))->Some_0;
    let without = settings_in(JsonView::Object(fields.remove(key)))->Some_0;
    assert(with.extra =~= without.extra);
}

} // verus!
