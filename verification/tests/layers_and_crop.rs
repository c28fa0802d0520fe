use screen_grabbing::draw::{DrawAction, DrawInput, Drawer, Layer};
use screen_grabbing::format::{file_name, Format};
use screen_grabbing::layers::AnnotationLayer;
use screen_grabbing::recorder::HotKeyController;
use screen_grabbing::resize::{
    RectZones, ResizeAction, ResizeController, ResizeCursor, ResizeEvent, ResizeInteraction,
};
use screen_grabbing::shortcuts::{Shortcut, ShortcutTable};
use screen_grabbing::state::Screenshot;
use screen_grabbing::tools::{EditTool, ShapeTool};
use screen_grabbing::view::{ViewControl, ViewState};

fn layer(items: &[u32]) -> AnnotationLayer<u32> {
    let mut l = AnnotationLayer::new(items[0]);
    for x in &items[1..] {
        l.commit(*x);
    }
    l
}

fn zones(upper: bool, bottom: bool, right: bool, left: bool, inside: bool) -> RectZones {
    RectZones { upper, bottom, right, left, inside }
}

#[test]
fn gif_and_webp_formats() {
    assert_eq!(Format::Gif.to_string(), ".gif");
    assert_eq!(Format::Webp.to_string(), ".webp");
    assert_eq!(file_name("shot", Format::Gif), "shot.gif");
    assert_eq!(file_name("shot", Format::Webp), "shot.webp");
}

#[test]
fn typed_keys_decide_the_indicators() {
    let mut data = Screenshot::new(String::new(), Format::Png);
    let table = ShortcutTable::new();
    let mut c = HotKeyController::new();
    // Shift, Shift (held), a, Alt, Shift, b: typed keys Shift a Alt Shift b
    for key in ["Shift", "Shift", "a", "Alt", "Shift", "b"] {
        c.key_down(&mut data.recording, &table, Shortcut::Capture, key, key);
    }
    let r = &data.recording;
    assert_eq!(r.new_shortcut, "Shift+a+Alt+Shift+b");
    assert_eq!(r.prec_hotkey, "b");
    assert!(c.flag && c.first);
    assert_eq!((c.n_ctrl, c.n_alt, c.n_shift), (0, 1, 2));
    assert!(r.with_modifiers);
    assert!(r.dup_modifier);
    assert!(!r.shortcut_order);
    assert!(!r.one_key);

    // a well-formed combination after the dialog reopens
    c.window_disconnected(&mut data.recording);
    for key in ["Control", "Alt", "k", "k"] {
        c.key_down(&mut data.recording, &table, Shortcut::Capture, key, key);
    }
    let r = &data.recording;
    assert_eq!(r.new_shortcut, "Control+Alt+k");
    assert_eq!((c.n_ctrl, c.n_alt, c.n_shift), (1, 1, 0));
    assert!(r.with_modifiers && !r.dup_modifier && r.shortcut_order && r.one_key);
}

#[test]
fn layer_commit_and_set() {
    let mut l = AnnotationLayer::new(0u32);
    assert_eq!(l.len(), 1);
    assert_eq!(l.open_index(), 0);
    l.set(0, 7);
    l.commit(0);
    l.set(1, 8);
    l.commit(0);
    assert_eq!(l.items(), &vec![7, 8, 0]);
    assert_eq!(l.open_index(), 2);
    assert_eq!(*l.get(1), 8);
    l.remove(0);
    assert_eq!(l.items(), &vec![8, 0]);
    l.clear(5);
    assert_eq!(l.items(), &vec![5]);
}

#[test]
fn eraser_single_hit_removes_that_item() {
    let mut l = layer(&[10, 11, 12, 0]);
    let hits = vec![false, true, false, false];
    assert!(l.can_erase(&hits));
    l.erase_hits(&hits);
    assert_eq!(l.items(), &vec![10, 12, 0]);
    assert_eq!(l.open_index(), 2);
}

#[test]
fn eraser_hits_shift_later_positions() {
    // positions are those before erasing; each removal shifts the rest
    let mut l = layer(&[10, 11, 12, 13, 0]);
    let hits = vec![true, true, false, false, false];
    assert!(l.can_erase(&hits));
    l.erase_hits(&hits);
    assert_eq!(l.items(), &vec![11, 13, 0]);
}

#[test]
fn eraser_cannot_run_past_the_end() {
    let l = layer(&[10, 11, 0]);
    assert!(!l.can_erase(&vec![false, true, true]));
    assert!(!l.can_erase(&vec![true, true, true]));
    assert!(l.can_erase(&vec![false, false, false]));
}

#[test]
fn eraser_first_hit_only() {
    let mut l = layer(&[10, 11, 12, 0]);
    l.erase_first_hit(&vec![false, true, true, false]);
    assert_eq!(l.items(), &vec![10, 12, 0]);
    let mut l = layer(&[10, 0]);
    l.erase_first_hit(&vec![false, false]);
    assert_eq!(l.items(), &vec![10, 0]);
}

fn text_view() -> ViewState {
    let data = Screenshot::new(String::new(), Format::Png);
    let mut v = data.view;
    v.press(ViewControl::Edit);
    v.press(ViewControl::Tool(EditTool::Text));
    v
}

#[test]
fn text_buttons_on_the_text_layer() {
    let mut v = text_view();
    let mut texts = AnnotationLayer::new(0u32);
    v.text = String::from("hello");
    v.confirm_text(&mut texts, 1, 0);
    v.text = String::from("world");
    v.confirm_text(&mut texts, 2, 0);
    assert_eq!(texts.items(), &vec![1, 2, 0]);
    assert_eq!(v.text, "");

    v.select_text(Some(0), "hello");
    assert_eq!(v.editing_text, 0);
    v.update_text(&mut texts, 9);
    assert_eq!(texts.items(), &vec![9, 2, 0]);
    assert_eq!(v.editing_text, -1);
    assert_eq!(v.text, "");

    v.select_text(Some(1), "world");
    v.delete_text(&mut texts);
    assert_eq!(texts.items(), &vec![9, 0]);
    assert_eq!(v.editing_text, -1);
    assert_eq!(texts.open_index(), 1);
}

#[test]
fn crop_rectangle_grab_drag_release() {
    let mut c = ResizeController::new();
    assert_eq!(c.selected_part, ResizeInteraction::NoInteraction);

    // a press on the upper band and the inside: the edge wins
    let a = c.event(ResizeEvent::Down(zones(true, false, false, false, true)));
    assert_eq!(a, vec![ResizeAction::SetActive(true)]);
    assert_eq!(c.selected_part, ResizeInteraction::Upper);

    let a = c.event(ResizeEvent::Move { zones: zones(true, false, false, false, false), active: true });
    assert_eq!(
        a,
        vec![
            ResizeAction::SetCursor(ResizeCursor::UpDown),
            ResizeAction::Drag(ResizeInteraction::Upper)
        ]
    );

    let a = c.event(ResizeEvent::Up);
    assert_eq!(a, vec![ResizeAction::RequestPaint, ResizeAction::SetActive(false)]);
    assert_eq!(c.selected_part, ResizeInteraction::NoInteraction);

    // moving without a hold only sets the cursor
    let a = c.event(ResizeEvent::Move { zones: zones(false, false, true, false, false), active: false });
    assert_eq!(a, vec![ResizeAction::SetCursor(ResizeCursor::LeftRight)]);
}

#[test]
fn crop_rectangle_moved_from_inside() {
    let mut c = ResizeController::new();
    let a = c.event(ResizeEvent::Down(zones(false, false, false, false, true)));
    assert_eq!(a, vec![ResizeAction::SetActive(true), ResizeAction::Anchor]);
    assert_eq!(c.selected_part, ResizeInteraction::Area);
    let a = c.event(ResizeEvent::Move { zones: zones(false, false, false, false, true), active: true });
    assert_eq!(
        a,
        vec![
            ResizeAction::SetCursor(ResizeCursor::Pointer),
            ResizeAction::Drag(ResizeInteraction::Area),
            ResizeAction::Anchor
        ]
    );
    // a press outside keeps what was held and shows the arrow
    let a = c.event(ResizeEvent::Down(zones(false, false, false, false, false)));
    assert_eq!(a, vec![ResizeAction::SetActive(true), ResizeAction::SetCursor(ResizeCursor::Arrow)]);
    assert_eq!(c.selected_part, ResizeInteraction::Area);
}

#[test]
fn drawing_events_touch_only_the_tool_lists() {
    let mut v = text_view();
    v.press(ViewControl::Tool(EditTool::Shape));
    v.press(ViewControl::Shape(ShapeTool::Circle));
    let mut d = Drawer::new();
    assert_eq!(
        d.event(&v, DrawInput::Down),
        vec![DrawAction::SetActive(true), DrawAction::StartShape(Layer::Circle)]
    );
    assert_eq!(
        d.event(&v, DrawInput::Up),
        vec![DrawAction::SetActive(false), DrawAction::CommitShape(Layer::Circle)]
    );
}
