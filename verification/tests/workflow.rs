use screen_grabbing::capture::{
    CaptureAction, CaptureConditions, CaptureState, MouseClickDragController, PointerEvent,
};
use screen_grabbing::commands::CaptureKind;
use screen_grabbing::draw::{DrawAction, DrawInput, Drawer, Layer};
use screen_grabbing::format::Format;
use screen_grabbing::shortcuts::Shortcut;
use screen_grabbing::state::{Enter, Screenshot};
use screen_grabbing::tools::{ColorTool, EditTool, ShapeTool};
use screen_grabbing::view::{ViewControl, ViewState};

fn conditions(delay_positive: bool, delay_short: bool, area_nonempty: bool) -> CaptureConditions {
    CaptureConditions { delay_positive, delay_short, area_nonempty }
}

#[test]
fn state_at_start_up() {
    let s = Screenshot::new("first".to_string(), Format::Jpg);
    assert_eq!(s.name, "first");
    assert_eq!(s.format, Format::Jpg);
    assert_eq!(s.new_name, "");
    assert!(!s.editing_name);
    assert_eq!(
        s.capture,
        CaptureState {
            screen_fatto: false,
            flag_transparency: false,
            flag_selection: false,
            full_screen: false,
            monitor_id: 0,
            flag_desk2: false,
        }
    );
    assert_eq!(s.default_save_path, "C:/Users/Utente/Pictures");
    assert_eq!(s.selected_shortcut, Shortcut::Screenshot);
    assert!(s.editing_shortcut);
    assert_eq!(s.recording.keycode_screen, "KeyT");
    assert_eq!(s.recording.keycode_capture, "KeyY");
    assert!(s.recording.shortcut_order && s.recording.one_key);
    assert_eq!(s.view.edit_tool, EditTool::Pencil);
    assert_eq!(s.view.color_tool, ColorTool::White);
    assert_eq!(s.view.shape_tool, ShapeTool::Arrow);
    assert_eq!(s.view.editing_text, -1);
    assert!(!s.view.flag_edit && !s.view.flag_resize && !s.view.flag_copy);
    assert!(s.flag_focus);
    assert!(!s.saved_screen);
}

#[test]
fn toggling_the_name_box_twice_restores_it() {
    let mut s = Screenshot::new(String::new(), Format::Png);
    let before = s.clone();
    Screenshot::toggle_textbox_state(&mut s);
    assert!(s.editing_name);
    Screenshot::toggle_textbox_state(&mut s);
    assert_eq!(s, before);
}

#[test]
fn renaming_with_the_button() {
    let mut s = Screenshot::new("old".to_string(), Format::Png);
    s.new_name = "  ".to_string();
    s.apply_new_name();
    assert_eq!(s.name, "  ");
    assert_eq!(s.new_name, "");
    assert!(s.editing_name);
}

#[test]
fn renaming_with_enter() {
    let mut s = Screenshot::new("old".to_string(), Format::Png);
    s.editing_name = true;
    s.flag_focus = false;
    s.new_name = " \t ".to_string();
    let before = s.clone();
    Enter.key_up(&mut s, true);
    assert_eq!(s, before);

    s.new_name = "holiday".to_string();
    Enter.key_up(&mut s, false);
    assert_eq!(s.name, "old");

    Enter.key_up(&mut s, true);
    assert_eq!(s.name, "holiday");
    assert_eq!(s.new_name, "");
    assert!(!s.editing_name);
    assert!(s.flag_focus);
}

#[test]
fn area_capture_workflow() {
    let mut state = Screenshot::new(String::new(), Format::Png).capture;
    let mut c = MouseClickDragController::new();
    let no_delay = conditions(false, true, true);

    let a = c.event(&mut state, PointerEvent::Other, no_delay);
    assert_eq!(
        a,
        vec![
            CaptureAction::StartTimerMillis(10),
            CaptureAction::Minimize,
            CaptureAction::CursorCrosshair
        ]
    );
    assert!(!c.flag);

    let a = c.event(&mut state, PointerEvent::Timer { own: true }, no_delay);
    assert_eq!(a, vec![CaptureAction::RestoreWindow, CaptureAction::CursorCrosshair]);

    let a = c.event(&mut state, PointerEvent::Down { left: true }, no_delay);
    assert_eq!(a, vec![CaptureAction::SetActive(true), CaptureAction::BeginSelection]);
    assert!(c.event(&mut state, PointerEvent::Down { left: false }, no_delay).is_empty());

    let a = c.event(&mut state, PointerEvent::Move { active: true }, no_delay);
    assert_eq!(a, vec![CaptureAction::TrackSelection]);
    assert!(c.event(&mut state, PointerEvent::Move { active: false }, no_delay).is_empty());

    let a = c.event(&mut state, PointerEvent::Up { left: true, active: true }, no_delay);
    assert_eq!(
        a,
        vec![
            CaptureAction::FinishSelection,
            CaptureAction::StartTimerMillis(500),
            CaptureAction::SetActive(false),
            CaptureAction::CursorArrow
        ]
    );
    assert!(state.flag_transparency && state.flag_selection && !state.flag_desk2);

    assert!(c.event(&mut state, PointerEvent::Timer { own: false }, no_delay).is_empty());

    let a = c.event(&mut state, PointerEvent::Timer { own: true }, no_delay);
    assert_eq!(
        a,
        vec![CaptureAction::CaptureArea, CaptureAction::ShowCapture, CaptureAction::CloseWindow]
    );
    assert!(c.flag);
    assert!(!state.flag_selection);
}

#[test]
fn empty_area_is_not_captured() {
    let mut state = Screenshot::new(String::new(), Format::Png).capture;
    state.flag_selection = true;
    let mut c = MouseClickDragController { flag: false };
    let a = c.event(&mut state, PointerEvent::Timer { own: true }, conditions(false, true, false));
    assert_eq!(a, vec![CaptureAction::ShowCapture, CaptureAction::CloseWindow]);
    assert!(!c.flag);
}

#[test]
fn delayed_area_capture_and_second_monitor() {
    let mut state = Screenshot::new(String::new(), Format::Png).capture;
    state.monitor_id = 1;
    let mut c = MouseClickDragController::new();
    let delayed = conditions(true, false, true);
    let a = c.event(&mut state, PointerEvent::Other, delayed);
    assert_eq!(a, vec![CaptureAction::StartDelayTimer, CaptureAction::Minimize]);
    let a = c.event(&mut state, PointerEvent::Timer { own: true }, delayed);
    assert_eq!(a, vec![CaptureAction::OpenCaptureOverlay, CaptureAction::CloseWindow]);
    assert!(state.flag_desk2);

    // on the reopened overlay the delay is not waited for again
    let mut c = MouseClickDragController::new();
    let a = c.event(&mut state, PointerEvent::Other, delayed);
    assert_eq!(
        a,
        vec![
            CaptureAction::StartTimerMillis(10),
            CaptureAction::Minimize,
            CaptureAction::CursorCrosshair
        ]
    );
    let a = c.event(&mut state, PointerEvent::Timer { own: true }, delayed);
    assert_eq!(a, vec![CaptureAction::RestoreWindow, CaptureAction::CursorCrosshair]);
}

#[test]
fn full_screen_capture_workflow() {
    let mut s = Screenshot::new(String::new(), Format::Png);
    assert!(!s.start_capture(CaptureKind::FullScreen));
    assert!(s.capture.full_screen);
    let mut state = s.capture;
    let mut c = MouseClickDragController::new();

    let short = conditions(false, true, false);
    let a = c.event(&mut state, PointerEvent::Other, short);
    assert_eq!(a, vec![CaptureAction::Minimize, CaptureAction::StartTimerMillis(500)]);
    let a = c.event(&mut state, PointerEvent::Down { left: true }, short);
    assert_eq!(a, vec![CaptureAction::Minimize]);
    let a = c.event(&mut state, PointerEvent::Timer { own: true }, short);
    assert_eq!(
        a,
        vec![
            CaptureAction::Minimize,
            CaptureAction::CaptureScreen,
            CaptureAction::ShowCapture,
            CaptureAction::CloseWindow
        ]
    );
    assert!(c.flag);

    let mut c = MouseClickDragController::new();
    let a = c.event(&mut state, PointerEvent::Other, conditions(true, false, false));
    assert_eq!(a, vec![CaptureAction::Minimize, CaptureAction::StartDelayTimer]);
}

#[test]
fn starting_and_recording_captures() {
    let mut s = Screenshot::new(String::new(), Format::Png);
    assert!(s.start_capture(CaptureKind::Area));
    assert!(!s.capture.full_screen);
    s.capture.flag_transparency = true;
    s.capture_taken("2023-10-05 12:34:56.789 UTC");
    assert_eq!(s.name, "2023-10-05_12-34-56-789_UTC");
    assert!(s.capture.screen_fatto);
    assert!(!s.capture.flag_transparency);
}

#[test]
fn capture_window_buttons() {
    let mut v = Screenshot::new(String::new(), Format::Png).view;
    v.flag_copy = true;
    v.flag_edit = true;
    v.open_capture_view();
    assert!(!v.flag_copy && !v.flag_edit && !v.flag_resize);

    assert!(v.shown(ViewControl::Copy) && v.shown(ViewControl::Crop) && v.shown(ViewControl::Edit));
    assert!(!v.shown(ViewControl::SaveEdits) && !v.shown(ViewControl::CancelCrop));

    assert_eq!(v.press(ViewControl::Copy), None);
    assert!(v.flag_copy);
    v.press(ViewControl::Crop);
    assert!(v.flag_resize && !v.flag_copy);
    assert!(v.shown(ViewControl::CancelCrop) && v.shown(ViewControl::ApplyCrop));
    assert!(!v.shown(ViewControl::Edit) && !v.shown(ViewControl::SaveAll));
    v.press(ViewControl::CancelCrop);
    assert!(!v.flag_resize);

    v.press(ViewControl::Edit);
    assert!(v.flag_edit);
    assert!(!v.shown(ViewControl::Crop) && v.shown(ViewControl::SaveEdits));
    assert_eq!(v.press(ViewControl::Tool(EditTool::Highlighter)), Some(10));
    assert_eq!(v.press(ViewControl::Tool(EditTool::Text)), Some(20));
    assert_eq!(v.press(ViewControl::Tool(EditTool::Shape)), Some(3));
    assert!(v.shown(ViewControl::Shape(ShapeTool::Circle)));
    v.press(ViewControl::Shape(ShapeTool::Circle));
    assert_eq!(v.shape_tool, ShapeTool::Circle);
    assert_eq!(v.press(ViewControl::Tool(EditTool::Eraser)), None);
    assert_eq!(v.press(ViewControl::Tool(EditTool::Pencil)), Some(3));
    v.press(ViewControl::Color(ColorTool::Red));
    assert_eq!(v.color_tool, ColorTool::Red);

    v.press(ViewControl::Tool(EditTool::Text));
    assert!(v.shown(ViewControl::TextConfirm) && !v.shown(ViewControl::TextDelete));
    v.text = "note".to_string();
    v.press(ViewControl::TextConfirm);
    assert_eq!(v.text, "");
    v.editing_text = 0;
    v.text = "edited".to_string();
    assert!(v.shown(ViewControl::TextUpdate) && v.shown(ViewControl::TextDelete));
    v.press(ViewControl::TextUpdate);
    assert_eq!(v.editing_text, -1);
    assert_eq!(v.text, "");

    v.text = "draft".to_string();
    assert_eq!(v.press(ViewControl::SaveEdits), Some(3));
    assert!(!v.flag_edit && !v.flag_copy && !v.flag_resize);
    assert_eq!(v.edit_tool, EditTool::Pencil);
    assert_eq!(v.text, "");
    assert_eq!(v.color_tool, ColorTool::Red);
}

#[test]
fn cancelling_edits_and_discarding() {
    let mut v = Screenshot::new(String::new(), Format::Png).view;
    v.press(ViewControl::Edit);
    v.press(ViewControl::Tool(EditTool::Eraser));
    v.editing_text = 2;
    v.text = "abc".to_string();
    assert_eq!(v.press(ViewControl::CancelEdits), Some(3));
    assert!(!v.flag_edit);
    assert_eq!(v.editing_text, -1);
    assert_eq!(v.edit_tool, EditTool::Pencil);
    assert_eq!(v.text, "");

    v.flag_copy = true;
    let before = v.clone();
    assert_eq!(v.press(ViewControl::SaveAll), None);
    assert_eq!(v, before);
    v.press(ViewControl::DiscardAll);
    assert!(!v.flag_copy);
    v.press(ViewControl::Crop);
    v.press(ViewControl::ApplyCrop);
    assert!(!v.flag_resize);
}

#[test]
fn editor_and_crop_are_never_open_together() {
    let controls = [
        ViewControl::SaveAll,
        ViewControl::DiscardAll,
        ViewControl::Copy,
        ViewControl::Crop,
        ViewControl::CancelCrop,
        ViewControl::ApplyCrop,
        ViewControl::Edit,
        ViewControl::SaveEdits,
        ViewControl::CancelEdits,
        ViewControl::Tool(EditTool::Text),
        ViewControl::Color(ColorTool::Blue),
        ViewControl::Shape(ShapeTool::Square),
        ViewControl::TextConfirm,
        ViewControl::TextUpdate,
        ViewControl::TextDelete,
    ];
    let mut v = Screenshot::new(String::new(), Format::Png).view;
    for round in 0..200usize {
        let c = controls[(round * 7 + round / 3) % controls.len()];
        if v.shown(c) {
            v.press(c);
        }
        assert!(!(v.flag_edit && v.flag_resize));
    }
}

#[test]
fn pencil_strokes() {
    let mut v = Screenshot::new(String::new(), Format::Png).view;
    let mut d = Drawer::new();
    let a = d.event(&v, DrawInput::Down);
    assert_eq!(
        a,
        vec![DrawAction::SetActive(true), DrawAction::PencilCursor, DrawAction::StartStroke]
    );
    assert!(d.flag_drawing);
    assert_eq!(
        d.event(&v, DrawInput::Move { active: true, inside: true }),
        vec![DrawAction::ExtendStroke]
    );
    assert!(d.event(&v, DrawInput::Move { active: true, inside: false }).is_empty());
    let a = d.event(&v, DrawInput::Up);
    assert_eq!(
        a,
        vec![DrawAction::SetActive(false), DrawAction::CommitStroke, DrawAction::CursorArrow]
    );
    assert!(!d.flag_drawing);
    assert!(d.event(&v, DrawInput::Move { active: true, inside: true }).is_empty());
    v.edit_tool = EditTool::Eraser;
    assert_eq!(
        d.event(&v, DrawInput::Move { active: true, inside: false }),
        vec![DrawAction::EraseAt]
    );
}

#[test]
fn shapes_highlights_and_text() {
    let mut v = Screenshot::new(String::new(), Format::Png).view;
    let mut d = Drawer::new();
    v.edit_tool = EditTool::Shape;
    v.shape_tool = ShapeTool::Square;
    assert_eq!(
        d.event(&v, DrawInput::Down),
        vec![DrawAction::SetActive(true), DrawAction::StartShape(Layer::Square)]
    );
    assert_eq!(
        d.event(&v, DrawInput::Move { active: true, inside: true }),
        vec![DrawAction::MoveShapeEnd(Layer::Square)]
    );
    assert_eq!(
        d.event(&v, DrawInput::Up),
        vec![DrawAction::SetActive(false), DrawAction::CommitShape(Layer::Square)]
    );
    v.edit_tool = EditTool::Highlighter;
    assert_eq!(
        d.event(&v, DrawInput::Down),
        vec![
            DrawAction::SetActive(true),
            DrawAction::HighlighterCursor,
            DrawAction::StartShape(Layer::Highlight)
        ]
    );
    v.edit_tool = EditTool::Text;
    assert_eq!(d.event(&v, DrawInput::Down), vec![DrawAction::PlaceText]);
    assert!(d.flag_writing);
    assert_eq!(
        d.event(&v, DrawInput::Move { active: true, inside: false }),
        vec![DrawAction::DragText]
    );
    assert!(d.event(&v, DrawInput::Other).is_empty());
}

#[test]
fn selecting_text_annotations() {
    let mut v = Screenshot::new(String::new(), Format::Png).view;
    v.text = "typed".to_string();
    v.select_text(Some(3), "hello");
    assert_eq!(v.editing_text, 3);
    assert_eq!(v.text, "hello");
    v.select_text(None, "ignored");
    assert_eq!(v.editing_text, -1);
    assert_eq!(v.text, "");
}
