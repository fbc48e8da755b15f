//! The application settings as stored in the settings table, one text value
//! per key: the defaults, how a stored value updates them, and the label the
//! auto-stop sensitivity slider shows.
//!
//! The auto-stop sensitivity itself is a floating-point number; the
//! application keeps it beside this record and reads its stored text itself,
//! as it does for the JSON list of custom models.
use vstd::prelude::*;
use crate::models::CustomModel;
use crate::text::{parse_decimal, parse_unsigned, str_eq, starts_with, has_prefix};

verus! {

broadcast use vstd::string::group_string_axioms;

/// The settings that have a text form in the settings table.
#[derive(Debug)]
pub struct AppSettings {
    pub hotkey_push_to_talk: String,
    pub hotkey_toggle: String,
    pub silence_hangover_ms: u32,
    pub autostop_push_to_talk: bool,
    pub autostop_toggle: bool,
    pub autopaste_enabled: bool,
    /// Noise suppression before recognition.
    pub denoise_enabled: bool,
    pub active_model_id: String,
    pub custom_models: Vec<CustomModel>,
    /// `None` stands for the system's default input device.
    pub input_device: Option<String>,
    pub theme: String,
}

/// The settings, with texts as sequences of characters.
pub struct SettingsView {
    pub hotkey_push_to_talk: Seq<char>,
    pub hotkey_toggle: Seq<char>,
    pub silence_hangover_ms: u32,
    pub autostop_push_to_talk: bool,
    pub autostop_toggle: bool,
    pub autopaste_enabled: bool,
    pub denoise_enabled: bool,
    pub active_model_id: Seq<char>,
    pub custom_models: Seq<CustomModel>,
    pub input_device: Option<Seq<char>>,
    pub theme: Seq<char>,
}

impl View for AppSettings {
    type V = SettingsView;

    open spec fn view(&self) -> SettingsView {
        SettingsView {
            hotkey_push_to_talk: self.hotkey_push_to_talk@,
            hotkey_toggle: self.hotkey_toggle@,
            silence_hangover_ms: self.silence_hangover_ms,
            autostop_push_to_talk: self.autostop_push_to_talk,
            autostop_toggle: self.autostop_toggle,
            autopaste_enabled: self.autopaste_enabled,
            denoise_enabled: self.denoise_enabled,
            active_model_id: self.active_model_id@,
            custom_models: self.custom_models@,
            input_device: match self.input_device {
                Some(d) => Some(d@),
                None => None,
            },
            theme: self.theme@,
        }
    }
}

/// The settings before anything is stored: push-to-talk on Cmd/Ctrl+Shift+D
/// (a combination every keyboard has), toggle on Cmd/Ctrl+Shift+Space, a
/// two-second pause before auto-stop, auto-stop in toggle mode only,
/// auto-paste and noise suppression on, the GigaAM CTC model, the default
/// input device and the cream theme.
pub open spec fn default_view() -> SettingsView {
    SettingsView {
        hotkey_push_to_talk: "CmdOrCtrl+Shift+D"@,
        hotkey_toggle: "CmdOrCtrl+Shift+Space"@,
        silence_hangover_ms: 2000,
        autostop_push_to_talk: false,
        autostop_toggle: true,
        autopaste_enabled: true,
        denoise_enabled: true,
        active_model_id: "giga-ctc-v3"@,
        custom_models: seq![],
        input_device: None,
        theme: "cream"@,
    }
}

/// The settings `s` after reading the stored value `v` of key `k`: a text
/// setting takes `v`; a flag is on exactly when `v` is `true`; the pause
/// takes `v` when it is a decimal number that fits 32 bits and is otherwise
/// left as it was; an empty input device stands for the default device.
/// Other keys leave the settings as they are.
pub open spec fn apply_view(s: SettingsView, k: Seq<char>, v: Seq<char>) -> SettingsView {
    if k == "hotkey_push_to_talk"@ {
        SettingsView { hotkey_push_to_talk: v, ..s }
    } else if k == "hotkey_toggle"@ {
        SettingsView { hotkey_toggle: v, ..s }
    } else if k == "silence_hangover_ms"@ {
        match parse_unsigned(v, u32::MAX as nat) {
            Some(n) => SettingsView { silence_hangover_ms: n as u32, ..s },
            None => s,
        }
    } else if k == "autostop_push_to_talk"@ {
        SettingsView { autostop_push_to_talk: v == "true"@, ..s }
    } else if k == "autostop_toggle"@ {
        SettingsView { autostop_toggle: v == "true"@, ..s }
    } else if k == "autopaste_enabled"@ {
        SettingsView { autopaste_enabled: v == "true"@, ..s }
    } else if k == "denoise_enabled"@ {
        SettingsView { denoise_enabled: v == "true"@, ..s }
    } else if k == "active_model_id"@ {
        SettingsView { active_model_id: v, ..s }
    } else if k == "input_device"@ {
        SettingsView {
            input_device: if v.len() == 0 {
                None
            } else {
                Some(v)
            },
            ..s
        }
    } else if k == "theme"@ {
        SettingsView { theme: v, ..s }
    } else {
        s
    }
}

/// The settings read from stored (key, value) rows, in order, over the defaults.
pub open spec fn load_view(rows: Seq<(Seq<char>, Seq<char>)>) -> SettingsView
    decreases rows.len(),
{
    if rows.len() == 0 {
        default_view()
    } else {
        apply_view(load_view(rows.drop_last()), rows.last().0, rows.last().1)
    }
}

/// The characters of each stored (key, value) row.
pub open spec fn rows_view(rows: Seq<(String, String)>) -> Seq<(Seq<char>, Seq<char>)> {
    rows.map_values(|r: (String, String)| (r.0@, r.1@))
}

impl Default for AppSettings {
    fn default() -> (r: Self)
        ensures
            r@ == default_view(),
    {
        let r = AppSettings {
            hotkey_push_to_talk: String::from_str("CmdOrCtrl+Shift+D"),
            hotkey_toggle: String::from_str("CmdOrCtrl+Shift+Space"),
            silence_hangover_ms: 2000,
            autostop_push_to_talk: false,
            autostop_toggle: true,
            autopaste_enabled: true,
            denoise_enabled: true,
            active_model_id: String::from_str("giga-ctc-v3"),
            custom_models: Vec::new(),
            input_device: None,
            theme: String::from_str("cream"),
        };
        assert(r@.custom_models =~= seq![]);
        r
    }
}

impl AppSettings {
    /// Updates the settings with the stored value `value` of key `key`.
    pub fn apply_stored(&mut self, key: &str, value: &str)
        ensures
            final(self)@ == apply_view(old(self)@, key@, value@),
    {
        if str_eq(key, "hotkey_push_to_talk") {
            self.hotkey_push_to_talk = String::from_str(value);
        } else if str_eq(key, "hotkey_toggle") {
            self.hotkey_toggle = String::from_str(value);
        } else if str_eq(key, "silence_hangover_ms") {
            match parse_decimal(value, 0xffff_ffff) {
                Some(n) => {
                    self.silence_hangover_ms = n as u32;
                },
                None => {},
            }
        } else if str_eq(key, "autostop_push_to_talk") {
            self.autostop_push_to_talk = str_eq(value, "true");
        } else if str_eq(key, "autostop_toggle") {
            self.autostop_toggle = str_eq(value, "true");
        } else if str_eq(key, "autopaste_enabled") {
            self.autopaste_enabled = str_eq(value, "true");
        } else if str_eq(key, "denoise_enabled") {
            self.denoise_enabled = str_eq(value, "true");
        } else if str_eq(key, "active_model_id") {
            self.active_model_id = String::from_str(value);
        } else if str_eq(key, "input_device") {
            self.input_device = if value.is_empty() {
                None
            } else {
                Some(String::from_str(value))
            };
        } else if str_eq(key, "theme") {
            self.theme = String::from_str(value);
        }
    }

    /// The settings read from the stored (key, value) rows, over the defaults.
    pub fn load(rows: &Vec<(String, String)>) -> (r: Self)
        ensures
            r@ == load_view(rows_view(rows@)),
    {
        let mut s = AppSettings::default();
        let n = rows.len();
        let ghost all = rows_view(rows@);
        for i in 0..n
            invariant
                n == rows@.len(),
                all == rows_view(rows@),
                s@ == load_view(all.take(i as int)),
        {
            proof {
                assert(all.take(i + 1).drop_last() =~= all.take(i as int));
            }
            let (k, v) = (&rows[i].0, &rows[i].1);
            s.apply_stored(k.as_str(), v.as_str());
        }
        proof {
            assert(all.take(n as int) =~= all);
        }
        s
    }
}

proof fn lemma_setting_keys_distinct()
    ensures
        "hotkey_push_to_talk"@ != "hotkey_toggle"@,
        "hotkey_push_to_talk"@ != "silence_hangover_ms"@,
        "hotkey_toggle"@ != "silence_hangover_ms"@,
        "autostop_push_to_talk"@.len() == 21,
        "autostop_toggle"@ != "denoise_enabled"@,
        "autostop_toggle"@ != "active_model_id"@,
        "denoise_enabled"@ != "active_model_id"@,
        "autopaste_enabled"@.len() == 17,
        "input_device"@.len() == 12,
        "theme"@.len() == 5,
        "hotkey_push_to_talk"@.len() == 19,
        "hotkey_toggle"@.len() == 13,
        "silence_hangover_ms"@.len() == 19,
        "autostop_toggle"@.len() == 15,
        "denoise_enabled"@.len() == 15,
        "active_model_id"@.len() == 15,
{
    reveal_strlit("hotkey_push_to_talk");
    reveal_strlit("hotkey_toggle");
    reveal_strlit("silence_hangover_ms");
    reveal_strlit("autostop_push_to_talk");
    reveal_strlit("autostop_toggle");
    reveal_strlit("autopaste_enabled");
    reveal_strlit("denoise_enabled");
    reveal_strlit("active_model_id");
    reveal_strlit("input_device");
    reveal_strlit("theme");
    assert("hotkey_push_to_talk"@.len() == 19);
    assert("hotkey_toggle"@.len() == 13);
    assert("silence_hangover_ms"@.len() == 19);
    assert("autostop_push_to_talk"@.len() == 21);
    assert("autostop_toggle"@.len() == 15);
    assert("autopaste_enabled"@.len() == 17);
    assert("denoise_enabled"@.len() == 15);
    assert("active_model_id"@.len() == 15);
    assert("input_device"@.len() == 12);
    assert("theme"@.len() == 5);
    assert("hotkey_push_to_talk"@[0] != "silence_hangover_ms"@[0]);
    assert("autostop_toggle"@[0] != "denoise_enabled"@[0]);
    assert("autostop_toggle"@[0] != "active_model_id"@[1]);
    assert("autostop_toggle"@[1] != "active_model_id"@[1]);
    assert("denoise_enabled"@[0] != "active_model_id"@[0]);
}

/// Reading a stored row sets the setting it names: a text setting becomes
/// the stored text, a flag becomes whether the text is `true`, the input
/// device becomes the text unless it is empty, and the pause becomes the
/// stored number when it is one that fits 32 bits.
pub proof fn lemma_stored_row_read_back(s: SettingsView, v: Seq<char>)
    ensures
        apply_view(s, "hotkey_push_to_talk"@, v).hotkey_push_to_talk == v,
        apply_view(s, "hotkey_toggle"@, v).hotkey_toggle == v,
        apply_view(s, "active_model_id"@, v).active_model_id == v,
        apply_view(s, "theme"@, v).theme == v,
        apply_view(s, "autostop_push_to_talk"@, v).autostop_push_to_talk == (v == "true"@),
        apply_view(s, "autostop_toggle"@, v).autostop_toggle == (v == "true"@),
        apply_view(s, "autopaste_enabled"@, v).autopaste_enabled == (v == "true"@),
        apply_view(s, "denoise_enabled"@, v).denoise_enabled == (v == "true"@),
        apply_view(s, "input_device"@, v).input_device == (if v.len() == 0 {
            None
        } else {
            Some(v)
        }),
        parse_unsigned(v, u32::MAX as nat) matches Some(n) ==> apply_view(
            s,
            "silence_hangover_ms"@,
            v,
        ).silence_hangover_ms == n,
{
    lemma_setting_keys_distinct();
}

/// Only the latest stored value of a key counts, except that a pause that
/// is not a number leaves the earlier value in place.
pub proof fn lemma_latest_value_wins(s: SettingsView, k: Seq<char>, v1: Seq<char>, v2: Seq<char>)
    requires
        k == "silence_hangover_ms"@ ==> parse_unsigned(v2, u32::MAX as nat) is Some,
    ensures
        apply_view(apply_view(s, k, v1), k, v2) == apply_view(s, k, v2),
{
}

/// Values of different keys do not affect each other: the order in which
/// stored rows are read does not matter.
pub proof fn lemma_keys_independent(
    s: SettingsView,
    k1: Seq<char>,
    v1: Seq<char>,
    k2: Seq<char>,
    v2: Seq<char>,
)
    requires
        k1 != k2,
    ensures
        apply_view(apply_view(s, k1, v1), k2, v2) == apply_view(apply_view(s, k2, v2), k1, v1),
{
}

/// Band of the auto-stop sensitivity slider at `percent` (the slider's value
/// times 100, rounded down), from 0 ("whisper is silence") to 5 ("building site").
pub open spec fn sensitivity_band(percent: u32) -> int {
    if percent <= 15 {
        0
    } else if percent <= 35 {
        1
    } else if percent <= 55 {
        2
    } else if percent <= 75 {
        3
    } else if percent <= 90 {
        4
    } else {
        5
    }
}

/// Labels of the sensitivity bands, quietest first.
pub open spec fn sensitivity_labels() -> Seq<Seq<char>> {
    seq![
        "Шёпот — тишина"@,
        "Тихая комната"@,
        "Обычный разговор"@,
        "Шумное кафе"@,
        "Открытый опенспейс"@,
        "Стройка"@,
    ]
}

/// Label of the auto-stop sensitivity slider at `percent`.
pub open spec fn sensitivity_label_of(percent: u32) -> Seq<char> {
    sensitivity_labels()[sensitivity_band(percent)]
}

/// A higher sensitivity never shows a quieter label, and every value of the
/// slider has a label.
pub proof fn lemma_sensitivity_bands_ordered(p: u32, q: u32)
    requires
        p <= q,
    ensures
        0 <= sensitivity_band(p) <= sensitivity_band(q) < sensitivity_labels().len(),
{
}

/// Label of the auto-stop sensitivity slider at `percent`.
pub fn sensitivity_label_for_percent(percent: u32) -> (r: &'static str)
    ensures
        r@ == sensitivity_label_of(percent),
{
    if percent <= 15 {
        "Шёпот — тишина"
    } else if percent <= 35 {
        "Тихая комната"
    } else if percent <= 55 {
        "Обычный разговор"
    } else if percent <= 75 {
        "Шумное кафе"
    } else if percent <= 90 {
        "Открытый опенспейс"
    } else {
        "Стройка"
    }
}

/// Whether a setting is one of the hotkeys, whose change requires the global
/// shortcuts to be registered again.
pub fn is_hotkey_setting(key: &str) -> (r: bool)
    ensures
        r == has_prefix(key@, "hotkey_"@),
{
    starts_with(key, "hotkey_")
}

} // verus!
