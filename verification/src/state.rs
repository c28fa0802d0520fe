use vstd::prelude::*;

use crate::capture::CaptureState;
use crate::format::Format;
use crate::shortcuts::{default_combo, Shortcut, ShortcutTable};
use crate::text::{has_visible, has_visible_char};
use crate::tools::{ColorTool, EditTool, ShapeTool};
use crate::view::ViewState;

verus! {

/// The application state that the capture workflow, the naming and the
/// shortcut handling decide on. (Pixels, selection geometry, annotation
/// strokes and window handles live beside it, in the user interface.)
#[derive(Clone, Debug, PartialEq)]
pub struct Screenshot {
    /// The name of the current capture (without extension).
    pub name: String,
    /// The encoding chosen for saving.
    pub format: Format,
    /// The text typed as the next name.
    pub new_name: String,
    /// The name text box is open.
    pub editing_name: bool,
    /// Where the capture workflow stands.
    pub capture: CaptureState,
    /// The folder that quick saves go to.
    pub default_save_path: String,
    /// The window that shows the capture.
    pub view: ViewState,
    /// The key combination of each command.
    pub shortcut: ShortcutTable,
    /// The command whose combination is being customized.
    pub selected_shortcut: Shortcut,
    pub editing_shortcut: bool,
    /// The combination being typed and what is known of it.
    pub recording: ShortcutRecording,
    /// The main window should take the keyboard focus.
    pub flag_focus: bool,
    pub saved_screen: bool,
}

/// A key combination being typed, with the indicators that the
/// customization dialog shows about it.
#[derive(Clone, Debug, PartialEq)]
pub struct ShortcutRecording {
    /// The combination typed so far, key names joined by `+`.
    pub new_shortcut: String,
    /// The key last added to `new_shortcut`.
    pub prec_hotkey: String,
    /// The typed combination clashes with an existing one.
    pub duplicate_shortcut: bool,
    pub saved_shortcut: bool,
    /// No modifier was typed after a plain key.
    pub shortcut_order: bool,
    /// At most one plain key was typed.
    pub one_key: bool,
    /// A modifier was typed twice.
    pub dup_modifier: bool,
    /// Some modifier was typed.
    pub with_modifiers: bool,
    /// The physical key code of the screenshot hotkey.
    pub keycode_screen: String,
    /// The physical key code of the capture hotkey.
    pub keycode_capture: String,
}

/// The characters of `C:/Users/Utente/Pictures`, the folder quick saves go
/// to until another one is chosen.
pub open spec fn initial_save_folder() -> Seq<char> {
    seq!['C', ':', '/', 'U', 's', 'e', 'r', 's', '/', 'U', 't', 'e', 'n', 't', 'e', '/', 'P', 'i', 'c', 't', 'u', 'r', 'e', 's']
}

/// The state with the name text box toggled.
pub open spec fn with_textbox_toggled(s: Screenshot) -> Screenshot {
    Screenshot { editing_name: !s.editing_name, ..s }
}

/// Toggling the name text box twice restores the state.
pub proof fn lemma_toggle_twice(s: Screenshot)
    ensures
        with_textbox_toggled(with_textbox_toggled(s)) == s,
{
}

impl Screenshot {
    /// The state at start-up, for a capture of the given name and format.
    pub fn new(name: String, format: Format) -> (s: Screenshot)
        ensures
            s.name@ == name@,
            s.format == format,
            s.new_name@.len() == 0,
            s.recording.new_shortcut@.len() == 0,
            !s.editing_name,
            s.capture == (CaptureState {
                screen_fatto: false,
                flag_transparency: false,
                flag_selection: false,
                full_screen: false,
                monitor_id: 0,
                flag_desk2: false,
            }),
            s.default_save_path@ == initial_save_folder(),
            forall|k: Shortcut| #[trigger] s.shortcut.combo(k) == default_combo(k),
            s.recording.prec_hotkey@.len() == 0,
            s.selected_shortcut == Shortcut::Screenshot,
            s.editing_shortcut,
            !s.recording.duplicate_shortcut,
            !s.recording.saved_shortcut,
            s.recording.shortcut_order,
            s.recording.one_key,
            !s.recording.dup_modifier,
            !s.recording.with_modifiers,
            s.recording.keycode_screen@ == seq!['K', 'e', 'y', 'T'],
            s.recording.keycode_capture@ == seq!['K', 'e', 'y', 'Y'],
            s.view.text@.len() == 0,
            s.view == (ViewState {
                flag_resize: false,
                flag_edit: false,
                flag_copy: false,
                edit_tool: EditTool::Pencil,
                color_tool: ColorTool::White,
                shape_tool: ShapeTool::Arrow,
                text: s.view.text,
                editing_text: -1i32,
            }),
            s.flag_focus,
            !s.saved_screen,
    {
        let folder = String::from_str("C:/Users/Utente/Pictures");
        let key_t = String::from_str("KeyT");
        let key_y = String::from_str("KeyY");
        proof {
            reveal_strlit("C:/Users/Utente/Pictures");
            reveal_strlit("KeyT");
            reveal_strlit("KeyY");
            assert(folder@ =~= initial_save_folder());
            assert(key_t@ =~= seq!['K', 'e', 'y', 'T']);
            assert(key_y@ =~= seq!['K', 'e', 'y', 'Y']);
        }
        Screenshot {
            name,
            format,
            new_name: String::new(),
            editing_name: false,
            capture: CaptureState {
                screen_fatto: false,
                flag_transparency: false,
                flag_selection: false,
                full_screen: false,
                monitor_id: 0,
                flag_desk2: false,
            },
            default_save_path: folder,
            view: ViewState {
                flag_resize: false,
                flag_edit: false,
                flag_copy: false,
                edit_tool: EditTool::Pencil,
                color_tool: ColorTool::White,
                shape_tool: ShapeTool::Arrow,
                text: String::new(),
                editing_text: -1,
            },
            shortcut: ShortcutTable::new(),
            selected_shortcut: Shortcut::Screenshot,
            editing_shortcut: true,
            recording: ShortcutRecording {
                new_shortcut: String::new(),
                prec_hotkey: String::new(),
                duplicate_shortcut: false,
                saved_shortcut: false,
                shortcut_order: true,
                one_key: true,
                dup_modifier: false,
                with_modifiers: false,
                keycode_screen: key_t,
                keycode_capture: key_y,
            },
            flag_focus: true,
            saved_screen: false,
        }
    }

    /// Opens the name text box if it is closed, closes it if it is open.
    pub fn toggle_textbox_state(data: &mut Screenshot)
        ensures
            *final(data) == with_textbox_toggled(*old(data)),
    {
        let flipped = !data.editing_name;
        data.editing_name = flipped;
    }

    /// The typed name becomes the capture's name, the typing field is
    /// emptied and the name text box is toggled.
    pub fn apply_new_name(&mut self)
        ensures
            final(self).name@ == old(self).new_name@,
            final(self).new_name@.len() == 0,
            *final(self) == (Screenshot {
                name: final(self).name,
                new_name: final(self).new_name,
                editing_name: !old(self).editing_name,
                ..*old(self)
            }),
    {
        self.name = self.new_name.clone();
        self.new_name = String::new();
        Screenshot::toggle_textbox_state(self);
    }
}

/// Confirms a typed name with the Enter key.
pub struct Enter;

impl Enter {
    /// On the release of a key: when it is Enter and the typed name is not
    /// blank (it keeps something once trimmed), the typed name becomes the
    /// capture's name, the field is emptied, the name text box toggles and
    /// the main window asks for the focus again. Otherwise nothing changes.
    pub fn key_up(&self, data: &mut Screenshot, is_enter: bool)
        ensures
            (is_enter && has_visible(old(data).new_name@)) ==> {
                &&& final(data).name@ == old(data).new_name@
                &&& final(data).new_name@.len() == 0
                &&& *final(data) == (Screenshot {
                    name: final(data).name,
                    new_name: final(data).new_name,
                    editing_name: !old(data).editing_name,
                    flag_focus: true,
                    ..*old(data)
                })
            },
            !(is_enter && has_visible(old(data).new_name@)) ==> *final(data) == *old(data),
    {
        if is_enter {
            if has_visible_char(data.new_name.as_str()) {
                data.apply_new_name();
                data.flag_focus = true;
            }
        }
    }
}

} // verus!
