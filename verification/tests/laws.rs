use quarterdeck::deck::{ask_file_text, ask_id, ask_to_row, Deck};
use quarterdeck::files::{json_stem, quarantine_name, tmp_file_name};
use quarterdeck::focus::ps_single_quote;
use quarterdeck::foreground::session_is_foreground;
use quarterdeck::install::{install_hooks_to, HooksChange};
use quarterdeck::ipc::{answer_file, safe_file_stem, AskAnswerKind, SettingValue};
use quarterdeck::json::{compact, parse, pretty, signed_number, Json};
use quarterdeck::mcp_server::{handle_message, parse_ask_request, AskRequest, Call, Post};
use quarterdeck::notify::{Throttle, ThrottleClock, ToastKind};
use quarterdeck::paths::{basename, paths_eq};
use quarterdeck::session_names;
use quarterdeck::settings::{load, save, set_setting, Settings};
use quarterdeck::text::{
    ascii_lower, collapse_white_space, decimal_text, parse_u32, parse_u64, signed_decimal_text,
    split, strip_bidi_controls, trim, truncate_graphemes,
};
use quarterdeck::tool_input::{decode_printable_ascii_escapes, pretty_tool_input};

#[test]
fn trimming_takes_white_space_of_every_kind() {
    assert_eq!(trim(" \t\r\n\u{b}\u{c}a b\u{a0}\u{2003}\u{3000}\u{85}"), "a b");
    assert_eq!(trim("\u{200b}x"), "\u{200b}x");
    assert_eq!(trim(" \u{2028}\u{2029}"), "");
    assert_eq!(trim(&trim("  a  ")), "a");
}

#[test]
fn trimming_agrees_with_the_standard_library() {
    for code in 0..0x3100u32 {
        if let Some(c) = char::from_u32(code) {
            let s = format!("{c}x{c}");
            assert_eq!(trim(&s), s.trim(), "U+{code:04X}");
        }
    }
}

#[test]
fn nine_controls_are_stripped_and_no_others() {
    let all: String = (0x2020..0x2070u32).filter_map(char::from_u32).collect();
    let left = strip_bidi_controls(&all);
    let gone: Vec<u32> = all.chars().filter(|c| !left.contains(*c)).map(|c| c as u32).collect();
    assert_eq!(
        gone,
        [0x202a, 0x202b, 0x202c, 0x202d, 0x202e, 0x2066, 0x2067, 0x2068, 0x2069]
    );
    assert_eq!(strip_bidi_controls(&left), left);
}

#[test]
fn collapsed_text_has_single_spaces() {
    assert_eq!(collapse_white_space("  a \n\t b\u{a0}\u{a0}c "), "a b c");
    assert_eq!(collapse_white_space(" \n "), "");
    assert_eq!(collapse_white_space("one"), "one");
}

#[test]
fn numbers_are_read_back() {
    for n in [0u64, 9, 10, 4_294_967_296, u64::MAX] {
        assert_eq!(parse_u64(&decimal_text(n)), Some(n));
        assert_eq!(decimal_text(n), n.to_string());
    }
    assert_eq!(signed_decimal_text(i64::MIN), i64::MIN.to_string());
    assert_eq!(signed_decimal_text(-7), "-7");
    for s in ["", "+", "-0", "+07", "1 ", "1_0", "٣", "18446744073709551615", "18446744073709551616"] {
        assert_eq!(parse_u64(s), s.parse::<u64>().ok(), "{s:?}");
        assert_eq!(parse_u32(s), s.parse::<u32>().ok(), "{s:?}");
    }
    assert_eq!(parse_u32("4294967295"), Some(u32::MAX));
    assert_eq!(parse_u32("4294967296"), None);
}

#[test]
fn text_is_cut_between_grapheme_clusters() {
    assert_eq!(truncate_graphemes("abc", 3), "abc");
    assert_eq!(truncate_graphemes("abcd", 3), "ab\u{2026}");
    assert_eq!(truncate_graphemes("e\u{301}e\u{301}e\u{301}", 3), "e\u{301}e\u{301}e\u{301}");
    assert_eq!(truncate_graphemes("e\u{301}e\u{301}e\u{301}", 2), "e\u{301}\u{2026}");
    assert_eq!(truncate_graphemes("\u{1F1E9}\u{1F1EA}\u{1F1EB}\u{1F1F7}xx", 2), "\u{1F1E9}\u{1F1EA}\u{2026}");
    assert_eq!(truncate_graphemes("", 1), "");
}

#[test]
fn texts_are_split_and_lowered_like_anywhere_else() {
    assert_eq!(split("a,,b,", ','), ["a", "", "b", ""]);
    assert_eq!(split("", ','), [""]);
    assert_eq!(ascii_lower("ABZaz[\u{c4}"), "abzaz[\u{c4}");
}

#[test]
fn documents_survive_being_written_and_read() {
    let text = r#"{"a":[1,-2,18446744073709551615,-9223372036854775808,1.5,0.1,1e100],"b":{"":null,"x":[true,false,"\u0000\"\\\n\u2028"]}}"#;
    let document = parse(text).unwrap();
    assert_eq!(parse(&compact(&document)).unwrap(), document);
    assert_eq!(parse(&pretty(&document)).unwrap(), document);
    assert_eq!(compact(&signed_number(i64::MIN)), "-9223372036854775808");
    let nested = |depth: usize| format!("{}{}", "[".repeat(depth), "]".repeat(depth));
    assert!(parse(&nested(127)).is_some());
    assert!(parse(&nested(128)).is_none());
    let deep = parse(&nested(127)).unwrap();
    assert_eq!(parse(&compact(&deep)).unwrap(), deep);
}

#[test]
fn documents_are_the_same_whatever_the_order_of_fields() {
    let a = parse(r#"{"x":1,"y":{"p":[1,2],"q":null}}"#).unwrap();
    let y = Json::Object(vec![
        ("q".to_string(), Json::Null),
        ("p".to_string(), parse("[1,2]").unwrap()),
    ]);
    let b = Json::Object(vec![
        ("y".to_string(), y),
        ("x".to_string(), parse("1").unwrap()),
        ("x".to_string(), parse("2").unwrap()),
    ]);
    assert_eq!(a, b);
    assert_eq!(b, a);
    assert_eq!(compact(&a), compact(&b));
    assert_ne!(a, parse(r#"{"x":1}"#).unwrap());
    assert_ne!(parse(r#"{"x":1}"#).unwrap(), a);
    assert_ne!(parse("[1,2]").unwrap(), parse("[2,1]").unwrap());
    assert_ne!(parse("1").unwrap(), parse("1.0").unwrap());
}

#[test]
fn settings_can_be_set_twice_and_in_any_order() {
    let text = r#"{"keep":{"a":1.5},"notifyIdle":false}"#;
    let (_, once) = set_setting(Some(text), "x", SettingValue::Bool(true));
    let (twice, _) = set_setting(Some(&once), "x", SettingValue::Bool(true));
    assert_eq!(load(Some(&once)), twice);
    let (_, a) = set_setting(Some(text), "notifyIdle", SettingValue::Bool(true));
    let (ab, _) = set_setting(Some(&a), "y", SettingValue::Text("z".to_string()));
    let (_, b) = set_setting(Some(text), "y", SettingValue::Text("z".to_string()));
    let (ba, _) = set_setting(Some(&b), "notifyIdle", SettingValue::Bool(true));
    assert_eq!(ab, ba);
    assert_eq!(load(Some(&save(&ab))), ab);
    assert!(ab.extra.iter().any(|(k, _)| k == "keep"));
}

#[test]
fn a_wrong_type_is_as_good_as_no_key() {
    let with = load(Some(r#"{"notifyIdle":5,"launchAtLogin":true,"k":1}"#));
    let without = load(Some(r#"{"launchAtLogin":true,"k":1}"#));
    assert_eq!(with, without);
    assert_ne!(with, Settings::default());
}

#[test]
fn names_are_saved_as_they_are_known() {
    let names = vec![("b".to_string(), "two words".to_string()), ("a".to_string(), "x".to_string())];
    let mut loaded = session_names::load(Some(&session_names::save(&names)));
    loaded.sort();
    let mut known = names.clone();
    known.sort();
    assert_eq!(loaded, known);
}

#[test]
fn quoted_text_is_read_back() {
    let text = "a'b''c";
    let quoted = ps_single_quote(text);
    assert_eq!(quoted.replace("''", "'"), text);
}

#[test]
fn being_in_front_is_symmetric() {
    for (a, b) in [(vec![1, 2], vec![2, 3]), (vec![1], vec![2]), (vec![], vec![1])] {
        assert_eq!(session_is_foreground(&a, &b), session_is_foreground(&b, &a));
    }
}

#[test]
fn paths_compare_as_an_equivalence() {
    let paths = ["/a/b", "\\a\\b\\", " /a/b// "];
    for a in paths {
        for b in paths {
            assert!(paths_eq(a, b, false));
        }
        assert_eq!(basename(a), "b");
    }
}

#[test]
fn text_without_escapes_stays() {
    let plain = "{\"path\": \"C:\\\\dir\", \u{e9} \\x41";
    assert_eq!(decode_printable_ascii_escapes(plain), plain);
    assert_eq!(pretty_tool_input("{ not json \\n"), "{ not json \\n");
}

#[test]
fn ids_and_files_of_different_writers_differ() {
    assert_eq!(ask_id(17, 4), "ask-17-4");
    assert_ne!(ask_id(1, 11), ask_id(11, 1));
    assert_ne!(tmp_file_name("f", 1, 11), tmp_file_name("f", 11, 1));
    assert_ne!(quarantine_name("f", 1), quarantine_name("f", 11));
    assert_eq!(json_stem(&format!("{}.json", ask_id(5, 6))), Some(ask_id(5, 6)));
    assert!(safe_file_stem(&ask_id(5, 6)).is_ok());
}

fn request(question: &str) -> AskRequest {
    AskRequest {
        question: question.to_string(),
        options: None,
        questions: None,
        detail: None,
        context: None,
        timeout_seconds: None,
    }
}

#[test]
fn every_answer_finds_its_question() {
    let mut deck = Deck::new();
    for n in 0..3 {
        deck.submit_ask(request(&format!("q{n}?")), &Vec::new(), 100 + n, n, false);
    }
    for ask in &deck.asks {
        let (name, record) = answer_file(&ask.id, "yes", AskAnswerKind::Text, 9).unwrap();
        assert_eq!(json_stem(&name).as_deref(), Some(ask.id.as_str()));
        assert_eq!(record.id, ask.id);
    }
    let times: Vec<u64> = deck.asks.iter().map(|a| ask_to_row(a).queued_at).collect();
    assert_eq!(times, [100, 101, 102]);
    let taken = deck.take_ask("ask-101-1").unwrap();
    assert_eq!(taken.question, "q1?");
    assert!(deck.take_ask("ask-101-1").is_none());
    let times: Vec<u64> = deck.asks.iter().map(|a| a.enqueued_ms).collect();
    assert_eq!(times, [100, 102]);
}

#[test]
fn the_file_of_a_question_holds_it() {
    let mut deck = Deck::new();
    deck.submit_ask(request("\u{41f}\u{440}\u{438}\u{432}\u{435}\u{442} \"you\"?"), &Vec::new(), 5, 6, false);
    let file = parse(&ask_file_text(&deck.asks[0], 7)).unwrap();
    assert_eq!(file.get_str("id"), Some("ask-5-6"));
    assert_eq!(file.get_str("question"), Some(deck.asks[0].question.as_str()));
    assert!(file.get("options").unwrap().is_null());
    assert!(file.get("detail").unwrap().is_null());
}

#[test]
fn an_unchanged_installation_stays_unchanged() {
    let none = || HooksChange {
        changed: false,
        backup: None,
        events_added: Vec::new(),
        entries_removed: 0,
    };
    assert!(!install_hooks_to(none(), Some(none())).changed);
    assert!(!install_hooks_to(none(), None).changed);
}

#[test]
fn a_form_wins_over_a_question() {
    let args = parse(r#"{"question":"plain","options":["a"],"questions":[{"question":"form"}]}"#).unwrap();
    let req = parse_ask_request(&Json::Null, &args).unwrap();
    assert_eq!(req.question, "form");
    assert_eq!(req.options, None);
}

#[test]
fn every_request_with_an_id_is_answered_with_it() {
    for message in [
        r#"{"id":"i","method":"ping"}"#,
        r#"{"id":"i","method":"nope"}"#,
        r#"{"id":"i"}"#,
        r#"{"id":"i","method":"tools/call"}"#,
    ] {
        match handle_message(parse(message)) {
            Post::Call(Call::Reply(reply)) => assert_eq!(reply.get_str("id"), Some("i")),
            _ => panic!("{message}"),
        }
    }
    assert!(matches!(handle_message(parse(r#"{"method":"ping"}"#)), Post::Accepted));
}

struct Still(u64);

impl ThrottleClock for Still {
    fn now(&self) -> u64 {
        self.0
    }
}

#[test]
fn a_window_sees_one_toast() {
    let mut throttle = Throttle::new(Still(50_000));
    let shown = (0..5).filter(|_| throttle.allow("s", ToastKind::Idle, false)).count();
    assert_eq!(shown, 1);
    throttle.clock.0 = 59_999;
    assert!(!throttle.allow("s", ToastKind::Idle, false));
    throttle.clock.0 = 60_000;
    assert!(throttle.allow("s", ToastKind::Idle, false));
    assert_eq!(throttle.last_fired.len(), 1);
}

#[test]
fn other_calls_make_no_difference_to_a_key() {
    let calls = [
        ("s", ToastKind::Idle, false, 0),
        ("t", ToastKind::Idle, false, 1_000),
        ("s", ToastKind::Ask, false, 2_000),
        ("s", ToastKind::Attention, false, 3_000),
        ("s", ToastKind::Idle, true, 4_000),
        ("s", ToastKind::Idle, false, 9_999),
        ("s", ToastKind::Idle, true, 10_000),
        ("s", ToastKind::Idle, false, 10_000),
        ("t", ToastKind::Idle, false, 15_000),
        ("s", ToastKind::Idle, false, 20_000),
    ];
    let answer = |kept: &[usize]| -> Vec<bool> {
        let mut throttle = Throttle::new(Still(0));
        let mut answers = Vec::new();
        for i in kept {
            let (session, kind, focused, now) = calls[*i];
            throttle.clock.0 = now;
            answers.push(throttle.allow(session, kind, focused));
        }
        answers
    };
    let all = answer(&[0, 1, 2, 3, 4, 5, 6, 7, 8, 9]);
    assert_eq!(
        all,
        [true, true, true, true, false, false, false, true, true, true]
    );
    assert_eq!(answer(&[0, 5, 7, 9]), [true, false, true, true]);
    assert_eq!(answer(&[0, 7, 9]), [true, true, true]);
}
