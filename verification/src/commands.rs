use vstd::prelude::*;

use crate::shortcuts::{
    default_combo, lemma_default_table_free_of_clashes, shortcut_keys, str_equal, Shortcut,
    ShortcutTable,
};
use crate::text::{keys_equal, split_keys, split_on};

verus! {

/// The command that a key combination typed in the main window asks for.
#[derive(Clone, Copy, PartialEq, Eq, Structural, Debug)]
pub enum KeyCommand {
    /// No command's combination is complete.
    Nothing,
    /// Save the capture in the default folder.
    Save,
    /// Open the save dialog.
    SaveAs,
    /// Open the dialog that chooses the default folder.
    Open,
    /// Leave the application.
    Quit,
    /// Open the shortcut customization dialog.
    Customize,
}

/// The kind of capture that a global hotkey asks for.
#[derive(Clone, Copy, PartialEq, Eq, Structural, Debug)]
pub enum CaptureKind {
    /// The whole screen.
    FullScreen,
    /// An area selected with the mouse.
    Area,
}

/// The command whose combination is exactly `keys`, tried in the order
/// save, save as, open, quit, customize.
pub open spec fn command_for(t: ShortcutTable, keys: Seq<Seq<char>>) -> KeyCommand {
    if keys == shortcut_keys(t, Shortcut::Save) {
        KeyCommand::Save
    } else if keys == shortcut_keys(t, Shortcut::SaveAs) {
        KeyCommand::SaveAs
    } else if keys == shortcut_keys(t, Shortcut::Open) {
        KeyCommand::Open
    } else if keys == shortcut_keys(t, Shortcut::Quit) {
        KeyCommand::Quit
    } else if keys == shortcut_keys(t, Shortcut::Customize) {
        KeyCommand::Customize
    } else {
        KeyCommand::Nothing
    }
}

/// A recognized command other than quitting starts the next combination
/// from nothing.
pub open spec fn clears_combination(c: KeyCommand) -> bool {
    c == KeyCommand::Save || c == KeyCommand::SaveAs || c == KeyCommand::Open || c
        == KeyCommand::Customize
}

/// Listens to the keys typed in the main window and to the messages of the
/// global hotkey listener.
#[derive(Clone, Debug, PartialEq)]
pub struct HotkeyScreen {
    /// The key added last to the combination.
    pub prec: String,
    /// The key of the last key press.
    pub code: String,
    /// The polling timer has been started.
    pub flag: bool,
}

/// The combination after a key press: a key other than the last one is
/// joined to it with `+` (without one when it is the first key).
pub open spec fn typed(h: HotkeyScreen, combination: Seq<char>, key: Seq<char>) -> Seq<char> {
    if key != h.prec@ {
        if h.prec@.len() > 0 {
            combination + seq!['+'] + key
        } else {
            combination + key
        }
    } else {
        combination
    }
}

impl HotkeyScreen {
    /// A listener that has seen no key and started no timer.
    pub fn new() -> (h: HotkeyScreen)
        ensures
            h.prec@.len() == 0,
            h.code@.len() == 0,
            !h.flag,
    {
        HotkeyScreen { prec: String::new(), code: String::new(), flag: false }
    }

    /// Whether the polling timer must be started now; it is started once.
    pub fn arm_timer(&mut self) -> (start: bool)
        ensures
            start == !old(self).flag,
            final(self).flag,
            final(self).prec == old(self).prec,
            final(self).code == old(self).code,
    {
        if self.flag == false {
            self.flag = true;
            true
        } else {
            false
        }
    }

    /// A key went down in the main window: it extends the typed
    /// combination, and the command whose combination is now typed is
    /// returned. After a recognized command other than quitting the
    /// combination starts over; the customization command also opens the
    /// customization mode.
    pub fn key_down(
        &mut self,
        combination: &mut String,
        editing_shortcut: &mut bool,
        table: &ShortcutTable,
        key: &str,
    ) -> (cmd: KeyCommand)
        ensures
            cmd == command_for(*table, split_on(typed(*old(self), old(combination)@, key@), '+')),
            final(self).code@ == key@,
            final(self).flag == old(self).flag,
            final(combination)@ == (if clears_combination(cmd) {
                Seq::<char>::empty()
            } else {
                typed(*old(self), old(combination)@, key@)
            }),
            final(self).prec@ == (if clears_combination(cmd) {
                Seq::<char>::empty()
            } else if key@ != old(self).prec@ {
                key@
            } else {
                old(self).prec@
            }),
            *final(editing_shortcut) == (cmd == KeyCommand::Customize || *old(editing_shortcut)),
    {
        self.code = String::from_str(key);
        if !str_equal(self.code.as_str(), self.prec.as_str()) {
            if !self.prec.as_str().is_empty() {
                combination.append("+");
                proof {
                    reveal_strlit("+");
                }
            }
            combination.append(self.code.as_str());
            self.prec = self.code.clone();
        }
        assert(combination@ =~= typed(*old(self), old(combination)@, key@));
        let keys = split_keys(combination.as_str());
        let save = split_keys(table.get(Shortcut::Save).as_str());
        let save_as = split_keys(table.get(Shortcut::SaveAs).as_str());
        let open = split_keys(table.get(Shortcut::Open).as_str());
        let customize = split_keys(table.get(Shortcut::Customize).as_str());
        let quit = split_keys(table.get(Shortcut::Quit).as_str());

        if keys_equal(&keys, &save) {
            *combination = String::new();
            self.prec = String::new();
            KeyCommand::Save
        } else if keys_equal(&keys, &save_as) {
            *combination = String::new();
            self.prec = String::new();
            KeyCommand::SaveAs
        } else if keys_equal(&keys, &open) {
            *combination = String::new();
            self.prec = String::new();
            KeyCommand::Open
        } else if keys_equal(&keys, &quit) {
            KeyCommand::Quit
        } else if keys_equal(&keys, &customize) {
            *editing_shortcut = true;
            *combination = String::new();
            self.prec = String::new();
            KeyCommand::Customize
        } else {
            KeyCommand::Nothing
        }
    }

    /// A key went up in the main window: the typed combination starts over.
    pub fn key_up(&mut self, combination: &mut String)
        ensures
            final(combination)@.len() == 0,
            final(self).prec@.len() == 0,
            final(self).code == old(self).code,
            final(self).flag == old(self).flag,
    {
        *combination = String::new();
        self.prec = String::new();
    }

    /// The capture that a message of the global hotkey listener asks for:
    /// 1 for the whole screen, 2 for an area, anything else for none.
    pub fn requested_capture(message: usize) -> (kind: Option<CaptureKind>)
        ensures
            kind == (if message == 1 {
                Some(CaptureKind::FullScreen)
            } else if message == 2 {
                Some(CaptureKind::Area)
            } else {
                None::<CaptureKind>
            }),
    {
        if message == 1 {
            Some(CaptureKind::FullScreen)
        } else if message == 2 {
            Some(CaptureKind::Area)
        } else {
            None
        }
    }
}

/// The command that the combination of a table entry asks for in the main
/// window (the capture hotkeys are global and ask for none there).
pub open spec fn command_of(s: Shortcut) -> KeyCommand {
    match s {
        Shortcut::Save => KeyCommand::Save,
        Shortcut::SaveAs => KeyCommand::SaveAs,
        Shortcut::Open => KeyCommand::Open,
        Shortcut::Quit => KeyCommand::Quit,
        Shortcut::Customize => KeyCommand::Customize,
        Shortcut::Screenshot => KeyCommand::Nothing,
        Shortcut::Capture => KeyCommand::Nothing,
    }
}

/// With the start-up table, typing the combination of a command asks for
/// exactly that command.
pub proof fn lemma_default_commands(t: ShortcutTable, s: Shortcut)
    requires
        forall|k: Shortcut| #[trigger] t.combo(k) == default_combo(k),
    ensures
        command_for(t, shortcut_keys(t, s)) == command_of(s),
{
    if s != Shortcut::Save {
        lemma_default_table_free_of_clashes(t, s, Shortcut::Save);
    }
    if s != Shortcut::SaveAs {
        lemma_default_table_free_of_clashes(t, s, Shortcut::SaveAs);
    }
    if s != Shortcut::Open {
        lemma_default_table_free_of_clashes(t, s, Shortcut::Open);
    }
    if s != Shortcut::Quit {
        lemma_default_table_free_of_clashes(t, s, Shortcut::Quit);
    }
    if s != Shortcut::Customize {
        lemma_default_table_free_of_clashes(t, s, Shortcut::Customize);
    }
}

} // verus!
