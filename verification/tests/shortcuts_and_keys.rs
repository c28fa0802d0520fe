use livesplit_hotkey::KeyCode;
use screen_grabbing::commands::{CaptureKind, HotkeyScreen, KeyCommand};
use screen_grabbing::format::Format;
use screen_grabbing::global_hotkey::{hotkey_from_combination, try_hotkey_from_combination};
use screen_grabbing::recorder::HotKeyController;
use screen_grabbing::shortcuts::{
    find_conflict, has_run, keys_overlap, str_equal, Shortcut, ShortcutTable,
};
use screen_grabbing::state::Screenshot;
use screen_grabbing::text::split_keys;

const ALL: [Shortcut; 7] = [
    Shortcut::Save,
    Shortcut::SaveAs,
    Shortcut::Open,
    Shortcut::Customize,
    Shortcut::Screenshot,
    Shortcut::Capture,
    Shortcut::Quit,
];

#[test]
fn default_shortcut_table() {
    let t = ShortcutTable::new();
    assert_eq!(t.get(Shortcut::Save), "Control+s");
    assert_eq!(t.get(Shortcut::SaveAs), "Control+a");
    assert_eq!(t.get(Shortcut::Open), "Control+o");
    assert_eq!(t.get(Shortcut::Customize), "Control+k");
    assert_eq!(t.get(Shortcut::Screenshot), "Control+t");
    assert_eq!(t.get(Shortcut::Capture), "Control+y");
    assert_eq!(t.get(Shortcut::Quit), "Control+q");
}

#[test]
fn default_shortcuts_do_not_clash_with_each_other() {
    let t = ShortcutTable::new();
    for a in ALL.iter() {
        for b in ALL.iter() {
            if a != b {
                let ka = split_keys(t.get(*a));
                let kb = split_keys(t.get(*b));
                assert_ne!(ka, kb);
                assert!(!keys_overlap(&ka, &kb));
            }
        }
    }
}

#[test]
fn runs_of_keys() {
    let big = split_keys("Control+Shift+s");
    assert!(has_run(&big, &split_keys("Shift+s")));
    assert!(has_run(&big, &split_keys("Control")));
    assert!(has_run(&big, &split_keys("Control+Shift+s")));
    assert!(!has_run(&big, &split_keys("Control+s")));
    assert!(keys_overlap(&split_keys("s"), &big));
    assert!(keys_overlap(&big, &split_keys("s")));
    assert!(!keys_overlap(&split_keys("Alt+s"), &split_keys("Control+s")));
}

#[test]
fn conflicts_with_existing_shortcuts() {
    let t = ShortcutTable::new();
    assert!(find_conflict(&t, Shortcut::Screenshot, &split_keys("Control+s")));
    assert!(find_conflict(&t, Shortcut::Save, &split_keys("Control+s")));
    assert!(!find_conflict(&t, Shortcut::Screenshot, &split_keys("Alt+x")));
    assert!(find_conflict(&t, Shortcut::Screenshot, &split_keys("Control")));
    // `s` only occurs inside the combination of the command being customized
    assert!(!find_conflict(&t, Shortcut::Save, &split_keys("s")));
    assert!(find_conflict(&t, Shortcut::Quit, &split_keys("s")));
    // a longer combination that contains an existing one
    assert!(find_conflict(&t, Shortcut::Screenshot, &split_keys("Alt+Control+q")));
}

#[test]
fn string_equality() {
    assert!(str_equal("Control", "Control"));
    assert!(!str_equal("Control", "Contro"));
    assert!(str_equal("", ""));
}

#[test]
fn recording_a_combination() {
    let mut data = Screenshot::new(String::new(), Format::Png);
    let table = ShortcutTable::new();
    let mut c = HotKeyController::new();

    c.key_down(&mut data.recording, &table, Shortcut::Screenshot, "Control", "ControlLeft");
    assert_eq!(data.recording.new_shortcut, "Control");
    assert_eq!(data.recording.prec_hotkey, "Control");
    assert!(data.recording.with_modifiers);
    assert_eq!(c.n_ctrl, 1);
    assert!(!c.flag);
    assert!(data.recording.duplicate_shortcut);
    assert_eq!(data.recording.keycode_screen, "KeyT");

    c.key_down(&mut data.recording, &table, Shortcut::Screenshot, "s", "KeyS");
    assert_eq!(data.recording.new_shortcut, "Control+s");
    assert!(data.recording.duplicate_shortcut);
    assert_eq!(data.recording.keycode_screen, "KeyS");
    assert_eq!(data.recording.keycode_capture, "KeyY");
    assert!(c.flag && c.first);
    assert!(data.recording.one_key);
    assert!(data.recording.shortcut_order);

    // a held key repeats itself: nothing is added, the clash indicator clears
    c.key_down(&mut data.recording, &table, Shortcut::Screenshot, "s", "KeyS");
    assert_eq!(data.recording.new_shortcut, "Control+s");
    assert!(!data.recording.duplicate_shortcut);

    // a modifier after a plain key, and Control twice
    c.key_down(&mut data.recording, &table, Shortcut::Screenshot, "Control", "ControlLeft");
    assert_eq!(data.recording.new_shortcut, "Control+s+Control");
    assert!(!data.recording.shortcut_order);
    assert!(data.recording.dup_modifier);
    assert_eq!(c.n_ctrl, 2);

    // a second plain key
    c.key_down(&mut data.recording, &table, Shortcut::Screenshot, "x", "KeyX");
    assert!(!data.recording.one_key);

    c.window_disconnected(&mut data.recording);
    assert_eq!(data.recording.new_shortcut, "");
    assert_eq!(data.recording.prec_hotkey, "");
    assert!(data.recording.one_key && data.recording.shortcut_order);
    assert!(!data.recording.with_modifiers && !data.recording.dup_modifier);
    assert!(!data.recording.duplicate_shortcut && !data.recording.saved_shortcut);
    assert_eq!(c, HotKeyController::new());
    assert_eq!(data.recording.keycode_screen, "KeyX");
}

#[test]
fn recording_a_free_combination() {
    let mut data = Screenshot::new(String::new(), Format::Png);
    let table = ShortcutTable::new();
    let mut c = HotKeyController::new();
    c.key_down(&mut data.recording, &table, Shortcut::Capture, "Alt", "AltLeft");
    assert!(!data.recording.duplicate_shortcut);
    c.key_down(&mut data.recording, &table, Shortcut::Capture, "x", "KeyX");
    assert_eq!(data.recording.new_shortcut, "Alt+x");
    assert!(!data.recording.duplicate_shortcut);
    assert_eq!(data.recording.keycode_capture, "KeyX");
    assert_eq!(data.recording.keycode_screen, "KeyT");
}

#[test]
fn empty_combination_restarts_the_indicators() {
    let mut data = Screenshot::new(String::new(), Format::Png);
    let table = ShortcutTable::new();
    let mut c = HotKeyController::new();
    c.n_ctrl = 5;
    c.flag = true;
    data.recording.dup_modifier = true;
    c.key_down(&mut data.recording, &table, Shortcut::Capture, "y", "KeyY");
    assert_eq!(c.n_ctrl, 0);
    assert!(c.flag && c.first);
    assert!(!data.recording.dup_modifier);
    assert_eq!(data.recording.new_shortcut, "y");
}

#[test]
fn commands_from_typed_keys() {
    let table = ShortcutTable::new();
    let mut h = HotkeyScreen::new();
    let mut combination = String::new();
    let mut editing = false;
    assert_eq!(h.key_down(&mut combination, &mut editing, &table, "Control"), KeyCommand::Nothing);
    assert_eq!(combination, "Control");
    assert_eq!(h.key_down(&mut combination, &mut editing, &table, "Control"), KeyCommand::Nothing);
    assert_eq!(combination, "Control");
    assert_eq!(h.key_down(&mut combination, &mut editing, &table, "s"), KeyCommand::Save);
    assert_eq!(combination, "");
    assert_eq!(h.prec, "");
    assert_eq!(h.code, "s");

    assert_eq!(h.key_down(&mut combination, &mut editing, &table, "Control"), KeyCommand::Nothing);
    assert_eq!(h.key_down(&mut combination, &mut editing, &table, "a"), KeyCommand::SaveAs);
    assert_eq!(h.key_down(&mut combination, &mut editing, &table, "Control"), KeyCommand::Nothing);
    assert_eq!(h.key_down(&mut combination, &mut editing, &table, "o"), KeyCommand::Open);
    assert!(!editing);
    assert_eq!(h.key_down(&mut combination, &mut editing, &table, "Control"), KeyCommand::Nothing);
    assert_eq!(h.key_down(&mut combination, &mut editing, &table, "k"), KeyCommand::Customize);
    assert!(editing);
    assert_eq!(combination, "");

    assert_eq!(h.key_down(&mut combination, &mut editing, &table, "Control"), KeyCommand::Nothing);
    assert_eq!(h.key_down(&mut combination, &mut editing, &table, "q"), KeyCommand::Quit);
    assert_eq!(combination, "Control+q");
    h.key_up(&mut combination);
    assert_eq!(combination, "");
    assert_eq!(h.prec, "");
}

#[test]
fn hotkey_listener_messages_and_timer() {
    assert_eq!(HotkeyScreen::requested_capture(1), Some(CaptureKind::FullScreen));
    assert_eq!(HotkeyScreen::requested_capture(2), Some(CaptureKind::Area));
    assert_eq!(HotkeyScreen::requested_capture(0), None);
    assert_eq!(HotkeyScreen::requested_capture(3), None);
    let mut h = HotkeyScreen::new();
    assert!(h.arm_timer());
    assert!(!h.arm_timer());
    assert!(h.flag);
}

#[test]
fn global_hotkey_from_combination() {
    let h = hotkey_from_combination("Control+Shift+T", "KeyT");
    assert!(h.control && h.shift && !h.alt);
    assert_eq!(h.key_code, Some(KeyCode::KeyT));

    let h = hotkey_from_combination("Alt+y", "KeyY");
    assert!(!h.control && !h.shift && h.alt);
    assert_eq!(h.key_code, Some(KeyCode::KeyY));

    let h = hotkey_from_combination("Control+Alt", "whatever");
    assert!(h.control && h.alt && !h.shift);
    assert_eq!(h.key_code, None);
}

#[test]
fn global_hotkey_with_unknown_key_code() {
    assert!(try_hotkey_from_combination("Control+T", "NoSuchKey").is_none());
    let h = try_hotkey_from_combination("Shift", "NoSuchKey").unwrap();
    assert!(h.shift && !h.control && !h.alt && h.key_code.is_none());
    let h = try_hotkey_from_combination("Control+p", "KeyP").unwrap();
    assert_eq!(h.key_code, Some(KeyCode::KeyP));
}

#[test]
fn default_global_hotkeys_name_t_and_y() {
    let data = Screenshot::new(String::new(), Format::Png);
    let screen = try_hotkey_from_combination(
        data.shortcut.get(Shortcut::Screenshot),
        &data.recording.keycode_screen,
    )
    .unwrap();
    assert!(screen.control && !screen.alt && !screen.shift);
    assert_eq!(screen.key_code, Some(KeyCode::KeyT));
    let capture = try_hotkey_from_combination(
        data.shortcut.get(Shortcut::Capture),
        &data.recording.keycode_capture,
    )
    .unwrap();
    assert!(capture.control && !capture.alt && !capture.shift);
    assert_eq!(capture.key_code, Some(KeyCode::KeyY));
}

#[test]
fn shortcut_table_copies_compare_equal() {
    let t = ShortcutTable::new();
    let u = t.clone();
    assert!(t == u);
    assert_eq!(u.get(Shortcut::Quit), "Control+q");
}
