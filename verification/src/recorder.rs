use vstd::prelude::*;

use crate::shortcuts::{conflicts, find_conflict, str_equal, Shortcut, ShortcutTable};
use crate::state::ShortcutRecording;
use crate::text::{lemma_split_join, lemma_split_single, split_keys, split_on};
use crate::typing::{typing_of, typing_start, typing_step};

verus! {

/// The names that keyboard events give to the modifier keys.
pub open spec fn is_modifier(key: Seq<char>) -> bool {
    key == "Control"@ || key == "Alt"@ || key == "Shift"@
}

/// The three modifier names differ from each other.
pub proof fn lemma_modifier_names_distinct()
    ensures
        "Control"@ != "Alt"@,
        "Control"@ != "Shift"@,
        "Alt"@ != "Shift"@,
{
    reveal_strlit("Control");
    reveal_strlit("Alt");
    reveal_strlit("Shift");
    assert("Control"@.len() == 7);
    assert("Alt"@.len() == 3);
    assert("Shift"@.len() == 5);
}

/// No combination is being typed: the next key starts a new one.
pub open spec fn starts_over(d: ShortcutRecording) -> bool {
    d.new_shortcut@.len() == 0
}

/// The key differs from the one added last (a held key repeats it).
pub open spec fn is_fresh(d: ShortcutRecording, key: Seq<char>) -> bool {
    key != d.prec_hotkey@
}

/// The combination after a fresh key: the key is joined with `+` unless it
/// is the first one since the last reset of `prec_hotkey`.
pub open spec fn extended(d: ShortcutRecording, key: Seq<char>) -> Seq<char> {
    if d.prec_hotkey@.len() > 0 {
        d.new_shortcut@ + seq!['+'] + key
    } else {
        d.new_shortcut@ + key
    }
}

/// The press of a fresh modifier can be counted without overflow (the
/// counts restart when nothing has been typed yet).
pub open spec fn counts_fit(c: HotKeyController, d: ShortcutRecording, key: Seq<char>) -> bool {
    (!starts_over(d) && is_fresh(d, key)) ==> {
        &&& key == "Control"@ ==> c.n_ctrl < usize::MAX
        &&& key == "Alt"@ ==> c.n_alt < usize::MAX
        &&& key == "Shift"@ ==> c.n_shift < usize::MAX
    }
}

/// Tracks the keys pressed while a new shortcut is typed, for the
/// customization dialog.
#[derive(Clone, Copy, Debug, PartialEq, Eq)]
pub struct HotKeyController {
    /// A plain (non-modifier) key was pressed.
    pub flag: bool,
    /// A plain key was pressed before the last one.
    pub first: bool,
    /// Presses of Control, Alt and Shift.
    pub n_ctrl: usize,
    pub n_alt: usize,
    pub n_shift: usize,
}

impl HotKeyController {
    /// A controller that has seen no key yet.
    pub fn new() -> (c: HotKeyController)
        ensures
            c == (HotKeyController { flag: false, first: false, n_ctrl: 0, n_alt: 0, n_shift: 0 }),
    {
        HotKeyController { flag: false, first: false, n_ctrl: 0, n_alt: 0, n_shift: 0 }
    }

    /// The dialog window went away: the typed combination and every
    /// indicator of the dialog return to their start values.
    pub fn window_disconnected(&mut self, data: &mut ShortcutRecording)
        ensures
            *final(self) == (HotKeyController {
                flag: false,
                first: false,
                n_ctrl: 0,
                n_alt: 0,
                n_shift: 0,
            }),
            final(data).prec_hotkey@.len() == 0,
            final(data).new_shortcut@.len() == 0,
            *final(data) == (ShortcutRecording {
                saved_shortcut: false,
                shortcut_order: true,
                with_modifiers: false,
                one_key: true,
                dup_modifier: false,
                prec_hotkey: final(data).prec_hotkey,
                new_shortcut: final(data).new_shortcut,
                duplicate_shortcut: false,
                ..*old(data)
            }),
            typing_of(*final(self), *final(data)) == typing_start(),
    {
        data.saved_shortcut = false;
        data.shortcut_order = true;
        data.with_modifiers = false;
        data.one_key = true;
        data.dup_modifier = false;
        data.prec_hotkey = String::new();
        data.new_shortcut = String::new();
        data.duplicate_shortcut = false;

        self.flag = false;
        self.first = false;
        self.n_ctrl = 0;
        self.n_alt = 0;
        self.n_shift = 0;
    }

    /// The part of a key press that comes before the key is looked at: an
    /// empty combination restarts every indicator, and the clash indicator
    /// is cleared.
    fn prepare_for_key(&mut self, data: &mut ShortcutRecording)
        ensures
            ({
                let d = *old(data);
                let c = *old(self);
                let reset = starts_over(d);
                let e = *final(data);
                let f = *final(self);
                &&& f.flag == (!reset && c.flag)
                &&& f.first == (!reset && c.first)
                &&& f.n_ctrl == (if reset { 0 } else { c.n_ctrl })
                &&& f.n_alt == (if reset { 0 } else { c.n_alt })
                &&& f.n_shift == (if reset { 0 } else { c.n_shift })
                &&& e.saved_shortcut == (!reset && d.saved_shortcut)
                &&& e.shortcut_order == (reset || d.shortcut_order)
                &&& e.with_modifiers == (!reset && d.with_modifiers)
                &&& e.one_key == (reset || d.one_key)
                &&& e.dup_modifier == (!reset && d.dup_modifier)
                &&& !e.duplicate_shortcut
                &&& e.new_shortcut == d.new_shortcut
                &&& e.prec_hotkey == d.prec_hotkey
                &&& e.keycode_screen == d.keycode_screen
                &&& e.keycode_capture == d.keycode_capture
            }),
    {
        if data.new_shortcut.as_str().is_empty() {
            data.saved_shortcut = false;
            data.shortcut_order = true;
            data.with_modifiers = false;
            data.one_key = true;
            data.dup_modifier = false;

            self.flag = false;
            self.first = false;
            self.n_ctrl = 0;
            self.n_alt = 0;
            self.n_shift = 0;
        }
        data.duplicate_shortcut = false;
    }

    /// A key other than the one added last joins the combination.
    fn add_fresh_key(
        &mut self,
        data: &mut ShortcutRecording,
        table: &ShortcutTable,
        selected: Shortcut,
        key: &str,
        code: &str,
    )
        requires
            is_fresh(*old(data), key@),
            key@ == "Control"@ ==> old(self).n_ctrl < usize::MAX,
            key@ == "Alt"@ ==> old(self).n_alt < usize::MAX,
            key@ == "Shift"@ ==> old(self).n_shift < usize::MAX,
        ensures
            ({
                let d = *old(data);
                let c = *old(self);
                let plain = !is_modifier(key@);
                let n_ctrl = c.n_ctrl + (if key@ == "Control"@ { 1int } else { 0int });
                let n_alt = c.n_alt + (if key@ == "Alt"@ { 1int } else { 0int });
                let n_shift = c.n_shift + (if key@ == "Shift"@ { 1int } else { 0int });
                let e = *final(data);
                let f = *final(self);
                &&& e.new_shortcut@ == extended(d, key@)
                &&& e.prec_hotkey@ == key@
                &&& e.saved_shortcut == d.saved_shortcut
                &&& f.flag == (plain || c.flag)
                &&& f.first == (plain || c.first)
                &&& f.n_ctrl == n_ctrl
                &&& f.n_alt == n_alt
                &&& f.n_shift == n_shift
                &&& e.one_key == (if plain && c.first { false } else { d.one_key })
                &&& e.shortcut_order == (if !plain && f.flag { false } else { d.shortcut_order })
                &&& e.with_modifiers == (!plain || d.with_modifiers)
                &&& e.dup_modifier == ((n_ctrl > 1 || n_alt > 1 || n_shift > 1) || d.dup_modifier)
                &&& e.keycode_screen@ == (if plain && selected == Shortcut::Screenshot {
                    code@
                } else {
                    d.keycode_screen@
                })
                &&& e.keycode_capture@ == (if plain && selected == Shortcut::Capture {
                    code@
                } else {
                    d.keycode_capture@
                })
                &&& e.duplicate_shortcut == (d.duplicate_shortcut || conflicts(
                    *table,
                    selected,
                    split_on(e.new_shortcut@, '+'),
                ))
            }),
    {
        proof {
            lemma_modifier_names_distinct();
        }
        let mut combo = data.new_shortcut.clone();
        if !data.prec_hotkey.as_str().is_empty() {
            combo.append("+");
            proof {
                reveal_strlit("+");
            }
        }
        combo.append(key);
        assert(combo@ =~= extended(*data, key@));
        let keys = split_keys(combo.as_str());
        let clash = find_conflict(table, selected, &keys);
        data.new_shortcut = combo;
        data.prec_hotkey = String::from_str(key);

        let is_control = str_equal(key, "Control");
        let is_alt = str_equal(key, "Alt");
        let is_shift = str_equal(key, "Shift");
        let modifier = is_control || is_alt || is_shift;

        if !modifier {
            if self.first {
                data.one_key = false;
            }
            self.flag = true;
            self.first = true;

            if selected == Shortcut::Screenshot {
                data.keycode_screen = String::from_str(code);
            } else if selected == Shortcut::Capture {
                data.keycode_capture = String::from_str(code);
            }
        }

        if self.flag && modifier {
            data.shortcut_order = false;
        }

        if modifier {
            data.with_modifiers = true;
            if is_control {
                self.n_ctrl = self.n_ctrl + 1;
            } else if is_alt {
                self.n_alt = self.n_alt + 1;
            } else if is_shift {
                self.n_shift = self.n_shift + 1;
            }
        }

        if self.n_ctrl > 1 || self.n_alt > 1 || self.n_shift > 1 {
            data.dup_modifier = true;
        }

        if clash {
            data.duplicate_shortcut = true;
        }
    }

    /// A key went down in the customization dialog; `key` is its name
    /// (`Control`, `Alt`, `Shift` or what it types) and `code` its physical
    /// key code. A key other than the one added last extends the typed
    /// combination; the indicators then say whether a modifier followed a
    /// plain key, whether more than one plain key was typed, whether a
    /// modifier was typed twice, and whether the combination clashes with a
    /// command's combination.
    pub fn key_down(
        &mut self,
        data: &mut ShortcutRecording,
        table: &ShortcutTable,
        selected: Shortcut,
        key: &str,
        code: &str,
    )
        requires
            counts_fit(*old(self), *old(data), key@),
        ensures
            ({
                let d = *old(data);
                let c = *old(self);
                let reset = starts_over(d);
                let fresh = is_fresh(d, key@);
                let plain = !is_modifier(key@);
                let flag0 = !reset && c.flag;
                let first0 = !reset && c.first;
                let n_ctrl = (if reset { 0 } else { c.n_ctrl as int }) + (if fresh && key@
                    == "Control"@ {
                    1int
                } else {
                    0int
                });
                let n_alt = (if reset { 0 } else { c.n_alt as int }) + (if fresh && key@
                    == "Alt"@ {
                    1int
                } else {
                    0int
                });
                let n_shift = (if reset { 0 } else { c.n_shift as int }) + (if fresh && key@
                    == "Shift"@ {
                    1int
                } else {
                    0int
                });
                let e = *final(data);
                let f = *final(self);
                &&& e.new_shortcut@ == (if fresh { extended(d, key@) } else { d.new_shortcut@ })
                &&& e.prec_hotkey@ == (if fresh { key@ } else { d.prec_hotkey@ })
                &&& e.saved_shortcut == (!reset && d.saved_shortcut)
                &&& f.flag == ((fresh && plain) || flag0)
                &&& f.first == ((fresh && plain) || first0)
                &&& f.n_ctrl == n_ctrl
                &&& f.n_alt == n_alt
                &&& f.n_shift == n_shift
                &&& e.one_key == (if fresh && plain && first0 {
                    false
                } else {
                    reset || d.one_key
                })
                &&& e.shortcut_order == (if fresh && !plain && f.flag {
                    false
                } else {
                    reset || d.shortcut_order
                })
                &&& e.with_modifiers == ((fresh && !plain) || (!reset && d.with_modifiers))
                &&& e.dup_modifier == ((fresh && (n_ctrl > 1 || n_alt > 1 || n_shift > 1)) || (
                !reset && d.dup_modifier))
                &&& e.keycode_screen@ == (if fresh && plain && selected
                    == Shortcut::Screenshot {
                    code@
                } else {
                    d.keycode_screen@
                })
                &&& e.keycode_capture@ == (if fresh && plain && selected
                    == Shortcut::Capture {
                    code@
                } else {
                    d.keycode_capture@
                })
                &&& e.duplicate_shortcut == (fresh && conflicts(
                    *table,
                    selected,
                    split_on(e.new_shortcut@, '+'),
                ))
            }),
            typing_of(*final(self), *final(data)) == typing_step(
                typing_of(*old(self), *old(data)),
                key@,
            ),
    {
        self.prepare_for_key(data);
        if !str_equal(key, data.prec_hotkey.as_str()) {
            self.add_fresh_key(data, table, selected, key, code);
        }
    }
}

/// A fresh key name without `+` adds exactly one key to the typed
/// combination: it is appended to the keys typed so far, or, when nothing
/// has been typed, it is the only key.
pub proof fn lemma_fresh_key_appends(d: ShortcutRecording, key: Seq<char>)
    requires
        !key.contains('+'),
        d.prec_hotkey@.len() > 0 || d.new_shortcut@.len() == 0,
    ensures
        split_on(extended(d, key), '+') == (if d.prec_hotkey@.len() > 0 {
            split_on(d.new_shortcut@, '+').push(key)
        } else {
            seq![key]
        }),
{
    if d.prec_hotkey@.len() > 0 {
        lemma_split_join(d.new_shortcut@, key);
    } else {
        assert(extended(d, key) =~= key);
        lemma_split_single(key);
    }
}

} // verus!
