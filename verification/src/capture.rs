use vstd::prelude::*;

use crate::commands::CaptureKind;
use crate::state::Screenshot;
use crate::text::{file_name_char, file_name_from_timestamp};

verus! {

/// Where the capture workflow stands.
#[derive(Clone, Copy, Debug, PartialEq, Eq, Structural)]
pub struct CaptureState {
    /// At least one capture was taken since the start.
    pub screen_fatto: bool,
    /// The selection of an area is finished (the overlay turns clear).
    pub flag_transparency: bool,
    /// An area was selected and awaits its capture.
    pub flag_selection: bool,
    /// The running capture takes the whole screen.
    pub full_screen: bool,
    /// The monitor to capture.
    pub monitor_id: usize,
    /// The capture window on a second monitor has been opened.
    pub flag_desk2: bool,
}

/// What the capture overlay receives from the windowing system.
#[derive(Clone, Copy, Debug, PartialEq, Eq, Structural)]
pub enum PointerEvent {
    /// A mouse button went down (`left` for the left button).
    Down { left: bool },
    /// A mouse button went up; `active` tells whether the overlay holds the
    /// pointer (a drag is under way).
    Up { left: bool, active: bool },
    /// The mouse moved.
    Move { active: bool },
    /// A timer fired; `own` tells whether it is the one the overlay started last.
    Timer { own: bool },
    /// Anything else.
    Other,
}

/// What the user interface measures for the capture decisions.
#[derive(Clone, Copy, Debug, PartialEq, Eq, Structural)]
pub struct CaptureConditions {
    /// The chosen delay is above zero seconds.
    pub delay_positive: bool,
    /// The chosen delay is under half a second.
    pub delay_short: bool,
    /// The selected area has a non-zero width and height.
    pub area_nonempty: bool,
}

/// What the capture overlay does, in order, in answer to an event.
#[derive(Clone, Copy, Debug, PartialEq, Eq, Structural)]
pub enum CaptureAction {
    /// Start the overlay's timer for the chosen delay (in whole seconds).
    StartDelayTimer,
    /// Start the overlay's timer for the given number of milliseconds.
    StartTimerMillis(u64),
    /// Minimize the overlay window.
    Minimize,
    /// Show the crosshair cursor.
    CursorCrosshair,
    /// Show the arrow cursor.
    CursorArrow,
    /// Take or release the pointer.
    SetActive(bool),
    /// Start a selection at the pointer.
    BeginSelection,
    /// End the selection at the pointer and clear the overlay's tint.
    FinishSelection,
    /// Stretch the selection to the pointer.
    TrackSelection,
    /// Capture the selected area.
    CaptureArea,
    /// Capture the whole monitor.
    CaptureScreen,
    /// Open the window that shows the capture.
    ShowCapture,
    /// Close the overlay window.
    CloseWindow,
    /// Open the area-selection overlay again, on the chosen monitor.
    OpenCaptureOverlay,
    /// Bring the overlay back on top, restored.
    RestoreWindow,
}

/// The overlay's decisions while a capture is prepared.
#[derive(Clone, Copy, Debug, PartialEq, Eq)]
pub struct MouseClickDragController {
    /// The next event starts the overlay's timer.
    pub flag: bool,
}

/// The actions that every event starts with, and whether the timer is
/// still to be started afterwards.
pub open spec fn opening(
    flag: bool,
    s: CaptureState,
    cond: CaptureConditions,
) -> (bool, Seq<CaptureAction>) {
    if !s.full_screen {
        if cond.delay_positive && flag && !s.flag_desk2 {
            (false, seq![CaptureAction::StartDelayTimer, CaptureAction::Minimize])
        } else if flag {
            (
                false,
                seq![
                    CaptureAction::StartTimerMillis(10),
                    CaptureAction::Minimize,
                    CaptureAction::CursorCrosshair,
                ],
            )
        } else {
            (flag, Seq::empty())
        }
    } else {
        if cond.delay_short && flag {
            (false, seq![CaptureAction::Minimize, CaptureAction::StartTimerMillis(500)])
        } else if flag {
            (false, seq![CaptureAction::Minimize, CaptureAction::StartDelayTimer])
        } else {
            (flag, seq![CaptureAction::Minimize])
        }
    }
}

/// The answer to an event after the opening actions: the new timer flag,
/// the new capture state and the actions.
pub open spec fn reaction(
    flag: bool,
    s: CaptureState,
    ev: PointerEvent,
    cond: CaptureConditions,
) -> (bool, CaptureState, Seq<CaptureAction>) {
    if !s.full_screen {
        match ev {
            PointerEvent::Down { left } => if left {
                (flag, s, seq![CaptureAction::SetActive(true), CaptureAction::BeginSelection])
            } else {
                (flag, s, Seq::empty())
            },
            PointerEvent::Up { left, active } => if left && active {
                (
                    flag,
                    CaptureState {
                        flag_transparency: true,
                        flag_selection: true,
                        flag_desk2: false,
                        ..s
                    },
                    seq![
                        CaptureAction::FinishSelection,
                        CaptureAction::StartTimerMillis(500),
                        CaptureAction::SetActive(false),
                        CaptureAction::CursorArrow,
                    ],
                )
            } else {
                (flag, s, Seq::empty())
            },
            PointerEvent::Move { active } => if active {
                (flag, s, seq![CaptureAction::TrackSelection])
            } else {
                (flag, s, Seq::empty())
            },
            PointerEvent::Timer { own } => if own && s.flag_selection {
                if cond.area_nonempty {
                    (
                        true,
                        CaptureState { flag_selection: false, ..s },
                        seq![
                            CaptureAction::CaptureArea,
                            CaptureAction::ShowCapture,
                            CaptureAction::CloseWindow,
                        ],
                    )
                } else {
                    (
                        flag,
                        CaptureState { flag_selection: false, ..s },
                        seq![CaptureAction::ShowCapture, CaptureAction::CloseWindow],
                    )
                }
            } else if own {
                if s.monitor_id != 0 && !s.flag_desk2 {
                    (
                        flag,
                        CaptureState { flag_desk2: true, ..s },
                        seq![CaptureAction::OpenCaptureOverlay, CaptureAction::CloseWindow],
                    )
                } else {
                    (flag, s, seq![CaptureAction::RestoreWindow, CaptureAction::CursorCrosshair])
                }
            } else {
                (flag, s, Seq::empty())
            },
            PointerEvent::Other => (flag, s, Seq::empty()),
        }
    } else {
        match ev {
            PointerEvent::Timer { own } => if own {
                (
                    true,
                    s,
                    seq![
                        CaptureAction::CaptureScreen,
                        CaptureAction::ShowCapture,
                        CaptureAction::CloseWindow,
                    ],
                )
            } else {
                (flag, s, Seq::empty())
            },
            _ => (flag, s, Seq::empty()),
        }
    }
}

impl MouseClickDragController {
    /// A controller whose first event starts the timer.
    pub fn new() -> (c: MouseClickDragController)
        ensures
            c.flag,
    {
        MouseClickDragController { flag: true }
    }

    /// Decides the answer of the capture overlay to an event: first the
    /// timer that the capture waits for (the chosen delay, or a short one),
    /// then, for an area capture, the selection by a left-button drag and,
    /// when the timer fires, the capture of the selected area (or the
    /// opening of the overlay on a second monitor); for a full-screen
    /// capture, the capture of the monitor when the timer fires.
    pub fn event(
        &mut self,
        state: &mut CaptureState,
        ev: PointerEvent,
        cond: CaptureConditions,
    ) -> (actions: Vec<CaptureAction>)
        ensures
            ({
                let (flag1, pre) = opening(old(self).flag, *old(state), cond);
                let (flag2, s2, post) = reaction(flag1, *old(state), ev, cond);
                &&& final(self).flag == flag2
                &&& *final(state) == s2
                &&& actions@ == pre + post
            }),
    {
        let mut actions: Vec<CaptureAction> = Vec::new();
        if !state.full_screen {
            if cond.delay_positive && self.flag && !state.flag_desk2 {
                actions.push(CaptureAction::StartDelayTimer);
                self.flag = false;
                actions.push(CaptureAction::Minimize);
            } else if self.flag {
                actions.push(CaptureAction::StartTimerMillis(10));
                self.flag = false;
                actions.push(CaptureAction::Minimize);
                actions.push(CaptureAction::CursorCrosshair);
            }
            let ghost pre = actions@;
            match ev {
                PointerEvent::Down { left } => {
                    if left {
                        actions.push(CaptureAction::SetActive(true));
                        actions.push(CaptureAction::BeginSelection);
                    }
                },
                PointerEvent::Up { left, active } => {
                    if left && active {
                        state.flag_transparency = true;
                        actions.push(CaptureAction::FinishSelection);
                        state.flag_selection = true;
                        state.flag_desk2 = false;
                        actions.push(CaptureAction::StartTimerMillis(500));
                        actions.push(CaptureAction::SetActive(false));
                        actions.push(CaptureAction::CursorArrow);
                    }
                },
                PointerEvent::Move { active } => {
                    if active {
                        actions.push(CaptureAction::TrackSelection);
                    }
                },
                PointerEvent::Timer { own } => {
                    if own && state.flag_selection {
                        if cond.area_nonempty {
                            actions.push(CaptureAction::CaptureArea);
                            self.flag = true;
                        }
                        state.flag_selection = false;
                        actions.push(CaptureAction::ShowCapture);
                        actions.push(CaptureAction::CloseWindow);
                    } else if own {
                        if state.monitor_id != 0 && !state.flag_desk2 {
                            actions.push(CaptureAction::OpenCaptureOverlay);
                            state.flag_desk2 = true;
                            actions.push(CaptureAction::CloseWindow);
                        } else {
                            actions.push(CaptureAction::RestoreWindow);
                            actions.push(CaptureAction::CursorCrosshair);
                        }
                    }
                },
                PointerEvent::Other => {},
            }
            let ghost (_f, _s, post) = reaction(
                opening(old(self).flag, *old(state), cond).0,
                *old(state),
                ev,
                cond,
            );
            assert(actions@ =~= pre + post);
        } else {
            actions.push(CaptureAction::Minimize);
            if cond.delay_short && self.flag {
                actions.push(CaptureAction::StartTimerMillis(500));
                self.flag = false;
            } else if self.flag {
                actions.push(CaptureAction::StartDelayTimer);
                self.flag = false;
            }
            let ghost pre = actions@;
            match ev {
                PointerEvent::Timer { own } => {
                    if own {
                        actions.push(CaptureAction::CaptureScreen);
                        self.flag = true;
                        actions.push(CaptureAction::ShowCapture);
                        actions.push(CaptureAction::CloseWindow);
                    }
                },
                _ => {},
            }
            let ghost (_f, _s, post) = reaction(
                opening(old(self).flag, *old(state), cond).0,
                *old(state),
                ev,
                cond,
            );
            assert(actions@ =~= pre + post);
        }
        actions
    }
}

impl Screenshot {
    /// A capture was taken at the given time: its name is the printed time
    /// with `.` and `:` turned into `-` and spaces into `_`, a capture now
    /// exists, and the overlay is no longer clear.
    pub fn capture_taken(&mut self, timestamp: &str)
        ensures
            final(self).name@ == timestamp@.map_values(|c: char| file_name_char(c)),
            *final(self) == (Screenshot {
                name: final(self).name,
                capture: CaptureState {
                    screen_fatto: true,
                    flag_transparency: false,
                    ..old(self).capture
                },
                ..*old(self)
            }),
    {
        self.name = file_name_from_timestamp(timestamp);
        self.capture.screen_fatto = true;
        self.capture.flag_transparency = false;
    }

    /// A capture of the given kind begins: it takes the whole screen or a
    /// selected area. The result tells whether the chosen monitor is
    /// captured at once, to be shown under the selection overlay (for an
    /// area capture, whichever monitor is chosen).
    pub fn start_capture(&mut self, kind: CaptureKind) -> (shot_first: bool)
        ensures
            *final(self) == (Screenshot {
                capture: CaptureState {
                    full_screen: kind == CaptureKind::FullScreen,
                    ..old(self).capture
                },
                ..*old(self)
            }),
            shot_first == (kind == CaptureKind::Area),
    {
        match kind {
            CaptureKind::FullScreen => {
                self.capture.full_screen = true;
                false
            },
            CaptureKind::Area => {
                self.capture.full_screen = false;
                true
            },
        }
    }
}

/// The action starts the overlay's timer.
pub open spec fn starts_timer(a: CaptureAction) -> bool {
    a == CaptureAction::StartDelayTimer || a is StartTimerMillis
}

/// The action takes a capture.
pub open spec fn takes_capture(a: CaptureAction) -> bool {
    a == CaptureAction::CaptureArea || a == CaptureAction::CaptureScreen
}

/// The opening actions of an event start the capture's timer exactly when
/// the controller is armed, and starting it disarms the controller (the
/// timer that a finished selection starts comes on top); a capture is taken only when the
/// overlay's own timer fires, and taking it arms the controller again; an
/// area is captured only once its selection is finished and not empty, and
/// the whole screen only in a full-screen capture.
pub proof fn lemma_timer_discipline(
    flag: bool,
    s: CaptureState,
    ev: PointerEvent,
    cond: CaptureConditions,
)
    ensures
        ({
            let (flag1, pre) = opening(flag, s, cond);
            let (flag2, s2, post) = reaction(flag1, s, ev, cond);
            &&& (exists|i: int| 0 <= i < pre.len() && starts_timer(#[trigger] pre[i])) <==> flag
            &&& flag ==> !flag1
            &&& (exists|i: int| 0 <= i < post.len() && takes_capture(#[trigger] post[i])) ==> {
                &&& ev == (PointerEvent::Timer { own: true })
                &&& flag2
            }
            &&& post.contains(CaptureAction::CaptureArea) ==> {
                &&& !s.full_screen
                &&& s.flag_selection
                &&& cond.area_nonempty
            }
            &&& post.contains(CaptureAction::CaptureScreen) ==> s.full_screen
        }),
{
    let (flag1, pre) = opening(flag, s, cond);
    let (flag2, s2, post) = reaction(flag1, s, ev, cond);
    if flag {
        if !s.full_screen {
            assert(starts_timer(pre[0]));
        } else {
            assert(starts_timer(pre[1]));
        }
    }
    if exists|i: int| 0 <= i < post.len() && takes_capture(#[trigger] post[i]) {
        let i = choose|i: int| 0 <= i < post.len() && takes_capture(#[trigger] post[i]);
        assert(takes_capture(post[i]));
    }
    if post.contains(CaptureAction::CaptureArea) {
        let i = choose|i: int| 0 <= i < post.len() && post[i] == CaptureAction::CaptureArea;
        assert(takes_capture(post[i]));
    }
    if post.contains(CaptureAction::CaptureScreen) {
        let i = choose|i: int| 0 <= i < post.len() && post[i] == CaptureAction::CaptureScreen;
        assert(takes_capture(post[i]));
    }
}

/// The area selection on the overlay (an area capture, `s` not full
/// screen). A left press takes the pointer and begins the selection, and
/// a move while the pointer is held stretches it; neither changes the
/// capture state. A left release while the pointer is held finishes the
/// selection: the overlay clears, the selection awaits its capture, the
/// pointer is let go and a short timer is started; the state changes in
/// exactly these ways, and the overlay counts as not yet opened on another
/// monitor. When the overlay's timer then fires, the capture of the area
/// is taken (if it is not empty) and shown, and the selection is done; the
/// following capture on another monitor opens the overlay there again.
pub proof fn lemma_area_selection(
    flag: bool,
    s: CaptureState,
    cond: CaptureConditions,
)
    requires
        !s.full_screen,
    ensures
        ({
            let (f1, _) = opening(flag, s, cond);
            let (_, sd, down) = reaction(f1, s, PointerEvent::Down { left: true }, cond);
            let (_, sm, mv) = reaction(f1, s, PointerEvent::Move { active: true }, cond);
            &&& sd == s && sm == s
            &&& down.contains(CaptureAction::SetActive(true))
            &&& down.contains(CaptureAction::BeginSelection)
            &&& mv.contains(CaptureAction::TrackSelection)
        }),
        ({
            let (f1, _) = opening(flag, s, cond);
            let (f2, s2, up) = reaction(f1, s, PointerEvent::Up { left: true, active: true }, cond);
            let (f3, _) = opening(f2, s2, cond);
            let (f4, s4, fire) = reaction(f3, s2, PointerEvent::Timer { own: true }, cond);
            let (f5, _) = opening(f4, s4, cond);
            let (_, s6, again) = reaction(f5, s4, PointerEvent::Timer { own: true }, cond);
            &&& s2 == (CaptureState {
                flag_transparency: true,
                flag_selection: true,
                flag_desk2: false,
                ..s
            })
            &&& up.contains(CaptureAction::FinishSelection)
            &&& up.contains(CaptureAction::SetActive(false))
            &&& up.contains(CaptureAction::StartTimerMillis(500))
            &&& fire.contains(CaptureAction::ShowCapture)
            &&& (fire.contains(CaptureAction::CaptureArea) <==> cond.area_nonempty)
            &&& !s4.flag_selection && !s4.flag_desk2
            &&& s.monitor_id != 0 ==> again.contains(CaptureAction::OpenCaptureOverlay)
                && s6.flag_desk2
        }),
{
    let (f1, _) = opening(flag, s, cond);
    let (_, sd, down) = reaction(f1, s, PointerEvent::Down { left: true }, cond);
    let (_, sm, mv) = reaction(f1, s, PointerEvent::Move { active: true }, cond);
    assert(down[0] == CaptureAction::SetActive(true));
    assert(down[1] == CaptureAction::BeginSelection);
    assert(mv[0] == CaptureAction::TrackSelection);
    let (f2, s2, up) = reaction(f1, s, PointerEvent::Up { left: true, active: true }, cond);
    assert(up[0] == CaptureAction::FinishSelection);
    assert(up[1] == CaptureAction::StartTimerMillis(500));
    assert(up[2] == CaptureAction::SetActive(false));
    let (f3, _) = opening(f2, s2, cond);
    let (f4, s4, fire) = reaction(f3, s2, PointerEvent::Timer { own: true }, cond);
    if cond.area_nonempty {
        assert(fire[0] == CaptureAction::CaptureArea);
        assert(fire[1] == CaptureAction::ShowCapture);
    } else {
        assert(fire[0] == CaptureAction::ShowCapture);
        assert forall|i: int| 0 <= i < fire.len() implies fire[i] != CaptureAction::CaptureArea by {}
    }
    let (f5, _) = opening(f4, s4, cond);
    let (_, s6, again) = reaction(f5, s4, PointerEvent::Timer { own: true }, cond);
    if s.monitor_id != 0 {
        assert(again[0] == CaptureAction::OpenCaptureOverlay);
    }
}

/// When the overlay waits. The first event of an area capture starts the
/// timer for the chosen delay when there is one and the overlay is not the
/// one reopened on another monitor, and otherwise a short timer with the
/// crosshair cursor; it minimizes the overlay either way. The first event
/// of a full-screen capture starts a short timer for a delay under half a
/// second and the delay timer otherwise. While the controller is not
/// armed, an area capture's events open with no action. In a full-screen
/// capture, the overlay's own timer takes and shows the capture of the
/// monitor and arms the controller again; no other event acts.
pub proof fn lemma_capture_waits(flag: bool, s: CaptureState, cond: CaptureConditions, ev: PointerEvent)
    ensures
        ({
            let (f1, pre) = opening(flag, s, cond);
            &&& (!s.full_screen && flag && cond.delay_positive && !s.flag_desk2) ==> {
                &&& pre.contains(CaptureAction::StartDelayTimer)
                &&& pre.contains(CaptureAction::Minimize)
            }
            &&& (!s.full_screen && flag && !(cond.delay_positive && !s.flag_desk2)) ==> {
                &&& pre.contains(CaptureAction::StartTimerMillis(10))
                &&& pre.contains(CaptureAction::Minimize)
                &&& pre.contains(CaptureAction::CursorCrosshair)
            }
            &&& (s.full_screen && flag && cond.delay_short) ==> pre.contains(
                CaptureAction::StartTimerMillis(500),
            )
            &&& (s.full_screen && flag && !cond.delay_short) ==> pre.contains(
                CaptureAction::StartDelayTimer,
            )
            &&& (!s.full_screen && !flag) ==> pre.len() == 0
        }),
        s.full_screen ==> ({
            let (f1, _) = opening(flag, s, cond);
            let (f2, s2, post) = reaction(f1, s, ev, cond);
            &&& s2 == s
            &&& ev == (PointerEvent::Timer { own: true }) ==> {
                &&& post.contains(CaptureAction::CaptureScreen)
                &&& post.contains(CaptureAction::ShowCapture)
                &&& f2
            }
            &&& ev != (PointerEvent::Timer { own: true }) ==> post.len() == 0
        }),
{
    let (f1, pre) = opening(flag, s, cond);
    if !s.full_screen && flag && cond.delay_positive && !s.flag_desk2 {
        assert(pre[0] == CaptureAction::StartDelayTimer);
        assert(pre[1] == CaptureAction::Minimize);
    } else if !s.full_screen && flag {
        assert(pre[0] == CaptureAction::StartTimerMillis(10));
        assert(pre[1] == CaptureAction::Minimize);
        assert(pre[2] == CaptureAction::CursorCrosshair);
    } else if s.full_screen && flag && cond.delay_short {
        assert(pre[1] == CaptureAction::StartTimerMillis(500));
    } else if s.full_screen && flag {
        assert(pre[1] == CaptureAction::StartDelayTimer);
    }
    if s.full_screen {
        let (f2, s2, post) = reaction(f1, s, ev, cond);
        if ev == (PointerEvent::Timer { own: true }) {
            assert(post[0] == CaptureAction::CaptureScreen);
            assert(post[1] == CaptureAction::ShowCapture);
        }
    }
}

} // verus!
