use dikta::db::{day_pattern, like_pattern, recording_word_count, OverallStats};
use dikta::hotkeys::{
    autostop_enabled, mode_label, partial_decode_ready, partial_transcript_changed,
    recording_long_enough, shortcut_action, transcript_worth_keeping, ShortcutAction,
    ShortcutPhase,
};
use dikta::paste::{
    autopaste_allowed, is_trusted, paste_outcome, request_trust_prompt,
    request_trust_prompt_if_needed, PasteOutcome,
};
use dikta::settings::{is_hotkey_setting, sensitivity_label_for_percent, AppSettings};
use dikta::state::{RecordingMode, RecordingSession};
use dikta::text::{parse_decimal, trim, word_count};
use dikta::tray::{kind_label, menu_action, tray_groups, MenuAction};
use dikta::vad::SilenceHangover;
use dikta::models::{builtin_catalog, ModelEntry, ModelKind};

#[test]
fn default_settings_are_sane() {
    let s = AppSettings::default();
    assert!(s.autostop_toggle);
    assert!(!s.autostop_push_to_talk);
}

#[test]
fn default_settings_values() {
    let s = AppSettings::default();
    assert_eq!(s.hotkey_push_to_talk, "CmdOrCtrl+Shift+D");
    assert_eq!(s.hotkey_toggle, "CmdOrCtrl+Shift+Space");
    assert_eq!(s.silence_hangover_ms, 2000);
    assert_eq!(s.active_model_id, "giga-ctc-v3");
    assert_eq!(s.input_device, None);
    assert_eq!(s.theme, "cream");
    assert!(s.custom_models.is_empty());
}

#[test]
fn stored_values_override_defaults() {
    let rows = vec![
        ("hotkey_push_to_talk".to_string(), "F13".to_string()),
        ("silence_hangover_ms".to_string(), "900".to_string()),
        ("autostop_push_to_talk".to_string(), "true".to_string()),
        ("autopaste_enabled".to_string(), "yes".to_string()),
        ("input_device".to_string(), "".to_string()),
        ("theme".to_string(), "mint".to_string()),
        ("unknown".to_string(), "x".to_string()),
    ];
    let s = AppSettings::load(&rows);
    assert_eq!(s.hotkey_push_to_talk, "F13");
    assert_eq!(s.silence_hangover_ms, 900);
    assert!(s.autostop_push_to_talk);
    assert!(!s.autopaste_enabled);
    assert_eq!(s.input_device, None);
    assert_eq!(s.theme, "mint");
    assert_eq!(s.hotkey_toggle, "CmdOrCtrl+Shift+Space");
}

#[test]
fn settings_latest_value_wins() {
    let mut s = AppSettings::default();
    s.apply_stored("hotkey_push_to_talk", "CmdOrCtrl+Shift+Space");
    assert_eq!(s.hotkey_push_to_talk, "CmdOrCtrl+Shift+Space");
    s.apply_stored("hotkey_push_to_talk", "F13");
    assert_eq!(s.hotkey_push_to_talk, "F13");
    s.apply_stored("input_device", "USB Mic");
    assert_eq!(s.input_device, Some("USB Mic".to_string()));
}

#[test]
fn bad_hangover_keeps_previous_value() {
    let mut s = AppSettings::default();
    s.apply_stored("silence_hangover_ms", "1500");
    s.apply_stored("silence_hangover_ms", "1.5s");
    assert_eq!(s.silence_hangover_ms, 1500);
    s.apply_stored("silence_hangover_ms", "99999999999");
    assert_eq!(s.silence_hangover_ms, 1500);
    s.apply_stored("silence_hangover_ms", "+700");
    assert_eq!(s.silence_hangover_ms, 700);
}

#[test]
fn sensitivity_label_buckets() {
    assert_eq!(sensitivity_label_for_percent(0), "Шёпот — тишина");
    assert_eq!(sensitivity_label_for_percent(100), "Стройка");
    assert_eq!(sensitivity_label_for_percent(50), "Обычный разговор");
    assert_eq!(sensitivity_label_for_percent(16), "Тихая комната");
    assert_eq!(sensitivity_label_for_percent(75), "Шумное кафе");
    assert_eq!(sensitivity_label_for_percent(90), "Открытый опенспейс");
    assert_eq!(sensitivity_label_for_percent(91), "Стройка");
}

#[test]
fn hotkey_settings_detected() {
    assert!(is_hotkey_setting("hotkey_toggle"));
    assert!(!is_hotkey_setting("theme"));
    assert!(!is_hotkey_setting("hotkey"));
}

#[test]
fn hangover_stays_quiet_while_speaking() {
    let mut vad = SilenceHangover::new(800);
    for _ in 0..10 {
        assert!(!vad.feed(false, 100));
    }
}

#[test]
fn hangover_stops_after_enough_silence() {
    let mut vad = SilenceHangover::new(500);
    assert!(!vad.feed(true, 100));
    assert!(!vad.feed(true, 100));
    assert!(!vad.feed(true, 100));
    assert!(!vad.feed(true, 100));
    assert!(vad.feed(true, 100));
}

#[test]
fn hangover_restarts_on_speech() {
    let mut vad = SilenceHangover::new(500);
    vad.feed(true, 100);
    vad.feed(true, 100);
    vad.feed(true, 100);
    assert!(!vad.feed(false, 100));
    assert!(!vad.feed(true, 100));
    assert!(!vad.feed(true, 100));
    vad.reset();
    assert_eq!(vad.silent_ms_accum, 0);
}

#[test]
fn session_allows_one_recording() {
    let mut s = RecordingSession::new();
    assert!(s.try_start(RecordingMode::Toggle));
    assert!(!s.try_start(RecordingMode::PushToTalk));
    assert_eq!(s.active_mode(), Some(RecordingMode::Toggle));
    assert_eq!(s.finish(), Some(RecordingMode::Toggle));
    assert_eq!(s.finish(), None);
}

#[test]
fn shortcut_actions() {
    assert_eq!(shortcut_action(true, false, ShortcutPhase::Pressed, None), ShortcutAction::Start(RecordingMode::PushToTalk));
    assert_eq!(shortcut_action(true, false, ShortcutPhase::Released, Some(RecordingMode::PushToTalk)), ShortcutAction::Stop);
    assert_eq!(shortcut_action(false, true, ShortcutPhase::Pressed, None), ShortcutAction::Start(RecordingMode::Toggle));
    assert_eq!(shortcut_action(false, true, ShortcutPhase::Pressed, Some(RecordingMode::Toggle)), ShortcutAction::Stop);
    assert_eq!(shortcut_action(false, true, ShortcutPhase::Released, Some(RecordingMode::Toggle)), ShortcutAction::Ignore);
    assert_eq!(shortcut_action(false, false, ShortcutPhase::Pressed, None), ShortcutAction::Ignore);
}

#[test]
fn autostop_per_mode() {
    let s = AppSettings::default();
    assert!(!autostop_enabled(&s, RecordingMode::PushToTalk));
    assert!(autostop_enabled(&s, RecordingMode::Toggle));
    assert_eq!(mode_label(RecordingMode::PushToTalk), "push_to_talk");
    assert_eq!(mode_label(RecordingMode::Toggle), "toggle");
}

#[test]
fn short_or_blank_recordings_dropped() {
    assert!(!recording_long_enough(0, 500));
    assert!(!recording_long_enough(3000, 199));
    assert!(recording_long_enough(3200, 200));
    assert!(!transcript_worth_keeping("  \t\n"));
    assert!(transcript_worth_keeping(" да "));
}

#[test]
fn live_captions_rules() {
    assert!(!partial_decode_ready(7999));
    assert!(partial_decode_ready(8000));
    assert!(partial_transcript_changed("", "привет"));
    assert!(!partial_transcript_changed("привет", "привет"));
    assert!(!partial_transcript_changed("привет", "   "));
}

#[test]
fn paste_rules() {
    assert!(is_trusted());
    request_trust_prompt();
    request_trust_prompt_if_needed();
    assert!(!autopaste_allowed(false, true));
    assert!(autopaste_allowed(true, true));
    assert_eq!(paste_outcome(true, true), PasteOutcome::AutoInserted);
    assert_eq!(paste_outcome(true, false), PasteOutcome::CopiedToClipboard);
    assert_eq!(paste_outcome(false, true), PasteOutcome::CopiedToClipboard);
}

#[test]
fn word_counts_of_recordings() {
    assert_eq!(recording_word_count("один два три") + recording_word_count("четыре пять"), 5);
    assert_eq!(recording_word_count("  привет\u{a0}как\tдела \n"), 3);
    assert_eq!(recording_word_count(""), 0);
    assert_eq!(word_count("a\u{3000}b"), 2);
}

#[test]
fn search_patterns() {
    assert_eq!(like_pattern("  привет "), "%привет%");
    assert_eq!(like_pattern(""), "%%");
    assert_eq!(day_pattern("2025-01-02"), "2025-01-02%");
    let s = OverallStats { total_ms_today: 1, total_ms_week: 2, total_ms_all: 3, words_today: 4, words_all: 5, sessions_today: 6, sessions_all: 7 };
    assert_eq!(s, s.clone());
}

#[test]
fn text_helpers() {
    assert_eq!(trim("\u{2003} x y \u{85}"), "x y");
    assert_eq!(parse_decimal("4294967295", 4294967295), Some(4294967295));
    assert_eq!(parse_decimal("4294967296", 4294967295), None);
    assert_eq!(parse_decimal("+", 10), None);
    assert_eq!(parse_decimal(" 5", 10), None);
    assert_eq!(parse_decimal("", 10), None);
}

#[test]
fn menu_actions() {
    match menu_action("model:giga-ctc-v3") {
        MenuAction::ActivateModel(id) => assert_eq!(id, "giga-ctc-v3"),
        other => panic!("unexpected {:?}", other),
    }
    assert!(matches!(menu_action("quit"), MenuAction::Quit));
    assert!(matches!(menu_action("show"), MenuAction::Show));
    assert!(matches!(menu_action("other"), MenuAction::Ignore));
}

#[test]
fn tray_groups_by_engine() {
    let cat = builtin_catalog();
    let downloaded = vec![
        ModelEntry::Builtin(cat[10]),
        ModelEntry::Builtin(cat[4]),
        ModelEntry::Builtin(cat[0]),
        ModelEntry::Builtin(cat[1]),
    ];
    let groups = tray_groups(&downloaded, Some("giga-ctc-punct-v3"));
    assert_eq!(groups.len(), 3);
    assert_eq!(groups[0].kind, ModelKind::Ctc);
    assert_eq!(groups[0].label, "CTC");
    assert_eq!(groups[0].items.len(), 2);
    assert_eq!(groups[0].items[0].id, "model:giga-ctc-v3");
    assert!(!groups[0].items[0].checked);
    assert!(groups[0].items[1].checked);
    assert_eq!(groups[1].label, "Transducer");
    assert_eq!(groups[1].items[0].name, "Zipformer RU (Vosk)");
    assert_eq!(groups[2].label, kind_label(ModelKind::WhisperCpp));
    match menu_action(&groups[2].items[0].id) {
        MenuAction::ActivateModel(id) => assert_eq!(id, "whisper-cpp-base"),
        other => panic!("unexpected {:?}", other),
    }
    assert!(tray_groups(&Vec::new(), None).is_empty());
}

#[test]
fn settings_keys_independent_of_order() {
    let mut a = AppSettings::default();
    a.apply_stored("theme", "lavender");
    a.apply_stored("denoise_enabled", "false");
    let mut b = AppSettings::default();
    b.apply_stored("denoise_enabled", "false");
    b.apply_stored("theme", "lavender");
    assert_eq!(a.theme, b.theme);
    assert_eq!(a.denoise_enabled, b.denoise_enabled);
    assert!(!a.denoise_enabled);
}

#[test]
fn sensitivity_labels_never_get_quieter() {
    let order = [
        "Шёпот — тишина",
        "Тихая комната",
        "Обычный разговор",
        "Шумное кафе",
        "Открытый опенспейс",
        "Стройка",
    ];
    let mut last = 0;
    for p in 0..=120u32 {
        let idx = order.iter().position(|l| *l == sensitivity_label_for_percent(p)).unwrap();
        assert!(idx >= last);
        last = idx;
    }
    assert_eq!(last, 5);
}
