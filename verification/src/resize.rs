use vstd::prelude::*;

verus! {

/// The part of the crop rectangle that a drag holds.
#[derive(Clone, Copy, PartialEq, Eq, Structural, Debug)]
pub enum ResizeInteraction {
    NoInteraction,
    /// The whole rectangle, moved along with the pointer.
    Area,
    Upper,
    Bottom,
    Left,
    Right,
}

/// Where the pointer stands against the crop rectangle, as the user
/// interface measures it: on the band along each edge, or strictly inside.
#[derive(Clone, Copy, PartialEq, Eq, Structural, Debug)]
pub struct RectZones {
    pub upper: bool,
    pub bottom: bool,
    pub right: bool,
    pub left: bool,
    pub inside: bool,
}

/// What the crop rectangle receives.
#[derive(Clone, Copy, PartialEq, Eq, Structural, Debug)]
pub enum ResizeEvent {
    /// A mouse button went down.
    Down(RectZones),
    /// A mouse button went up.
    Up,
    /// The mouse moved; `active` tells whether the rectangle holds the pointer.
    Move { zones: RectZones, active: bool },
    /// Anything else.
    Other,
}

/// The cursors shown over the crop rectangle.
#[derive(Clone, Copy, PartialEq, Eq, Structural, Debug)]
pub enum ResizeCursor {
    UpDown,
    LeftRight,
    Pointer,
    Arrow,
}

/// What the crop rectangle does, in order, in answer to an event.
#[derive(Clone, Copy, PartialEq, Eq, Structural, Debug)]
pub enum ResizeAction {
    /// Take or release the pointer.
    SetActive(bool),
    SetCursor(ResizeCursor),
    RequestPaint,
    /// Remember the pointer's position as the point the rectangle is moved from.
    Anchor,
    /// Carry out the drag of the held part toward the pointer, as far as the
    /// rectangle stays inside the capture and keeps its least size.
    Drag(ResizeInteraction),
}

/// Which part a press takes hold of: the edges are tried in the order
/// upper, bottom, right, left, then the inside; `None` when the press is
/// outside the rectangle.
pub open spec fn grabbed(z: RectZones) -> Option<ResizeInteraction> {
    if z.upper {
        Some(ResizeInteraction::Upper)
    } else if z.bottom {
        Some(ResizeInteraction::Bottom)
    } else if z.right {
        Some(ResizeInteraction::Right)
    } else if z.left {
        Some(ResizeInteraction::Left)
    } else if z.inside {
        Some(ResizeInteraction::Area)
    } else {
        None
    }
}

/// The cursor shown while the pointer passes over the rectangle.
pub open spec fn hover_cursor(z: RectZones) -> ResizeCursor {
    if z.upper || z.bottom {
        ResizeCursor::UpDown
    } else if z.right || z.left {
        ResizeCursor::LeftRight
    } else if z.inside {
        ResizeCursor::Pointer
    } else {
        ResizeCursor::Arrow
    }
}

/// The answer of the crop rectangle: the part held afterwards and the
/// actions.
pub open spec fn resize_reaction(part: ResizeInteraction, ev: ResizeEvent) -> (
    ResizeInteraction,
    Seq<ResizeAction>,
) {
    match ev {
        ResizeEvent::Down(z) => match grabbed(z) {
            Some(ResizeInteraction::Area) => (
                ResizeInteraction::Area,
                seq![ResizeAction::SetActive(true), ResizeAction::Anchor],
            ),
            Some(p) => (p, seq![ResizeAction::SetActive(true)]),
            None => (
                part,
                seq![ResizeAction::SetActive(true), ResizeAction::SetCursor(ResizeCursor::Arrow)],
            ),
        },
        ResizeEvent::Up => (
            ResizeInteraction::NoInteraction,
            seq![ResizeAction::RequestPaint, ResizeAction::SetActive(false)],
        ),
        ResizeEvent::Move { zones, active } => {
            let cursor = seq![ResizeAction::SetCursor(hover_cursor(zones))];
            if !active || part == ResizeInteraction::NoInteraction {
                (part, cursor)
            } else if part == ResizeInteraction::Area {
                (part, cursor + seq![ResizeAction::Drag(part), ResizeAction::Anchor])
            } else {
                (part, cursor + seq![ResizeAction::Drag(part)])
            }
        },
        ResizeEvent::Other => (part, Seq::empty()),
    }
}

/// The crop rectangle's decisions: which part of it a drag holds.
#[derive(Clone, Copy, PartialEq, Eq, Debug)]
pub struct ResizeController {
    pub selected_part: ResizeInteraction,
}

impl ResizeController {
    /// A rectangle that nothing holds.
    pub fn new() -> (c: ResizeController)
        ensures
            c.selected_part == ResizeInteraction::NoInteraction,
    {
        ResizeController { selected_part: ResizeInteraction::NoInteraction }
    }

    /// Decides the answer to an event: a press takes hold of the edge or
    /// the inside under the pointer; a move shows the cursor for what is
    /// under the pointer and, while the pointer is held, drags the held
    /// part; a release lets go.
    pub fn event(&mut self, ev: ResizeEvent) -> (actions: Vec<ResizeAction>)
        ensures
            (final(self).selected_part, actions@) == resize_reaction(old(self).selected_part, ev),
    {
        let mut actions: Vec<ResizeAction> = Vec::new();
        match ev {
            ResizeEvent::Down(z) => {
                actions.push(ResizeAction::SetActive(true));
                if z.upper {
                    self.selected_part = ResizeInteraction::Upper;
                } else if z.bottom {
                    self.selected_part = ResizeInteraction::Bottom;
                } else if z.right {
                    self.selected_part = ResizeInteraction::Right;
                } else if z.left {
                    self.selected_part = ResizeInteraction::Left;
                } else if z.inside {
                    self.selected_part = ResizeInteraction::Area;
                    actions.push(ResizeAction::Anchor);
                } else {
                    actions.push(ResizeAction::SetCursor(ResizeCursor::Arrow));
                }
            },
            ResizeEvent::Up => {
                actions.push(ResizeAction::RequestPaint);
                self.selected_part = ResizeInteraction::NoInteraction;
                actions.push(ResizeAction::SetActive(false));
            },
            ResizeEvent::Move { zones, active } => {
                let cursor = if zones.upper || zones.bottom {
                    ResizeCursor::UpDown
                } else if zones.right || zones.left {
                    ResizeCursor::LeftRight
                } else if zones.inside {
                    ResizeCursor::Pointer
                } else {
                    ResizeCursor::Arrow
                };
                actions.push(ResizeAction::SetCursor(cursor));
                if active {
                    match self.selected_part {
                        ResizeInteraction::NoInteraction => {},
                        ResizeInteraction::Area => {
                            actions.push(ResizeAction::Drag(ResizeInteraction::Area));
                            actions.push(ResizeAction::Anchor);
                        },
                        p => {
                            actions.push(ResizeAction::Drag(p));
                        },
                    }
                }
            },
            ResizeEvent::Other => {},
        }
        let ghost expected = resize_reaction(old(self).selected_part, ev).1;
        assert(actions@ =~= expected);
        actions
    }
}

/// The crop rectangle's discipline: only a release lets go of the held
/// part, and only a press takes hold of another; a drag acts on the part
/// held, only while the pointer is held and something is held; a press
/// on an edge takes that edge before the inside, and a press outside the
/// rectangle keeps what was held.
pub proof fn lemma_drag_follows_grab(part: ResizeInteraction, ev: ResizeEvent)
    ensures
        ({
            let (next, actions) = resize_reaction(part, ev);
            &&& ev == ResizeEvent::Up ==> next == ResizeInteraction::NoInteraction
            &&& (ev !is Down && ev != ResizeEvent::Up) ==> next == part
            &&& forall|p: ResizeInteraction|
                #[trigger] actions.contains(ResizeAction::Drag(p)) ==> {
                    &&& p == part
                    &&& p != ResizeInteraction::NoInteraction
                    &&& ev matches ResizeEvent::Move { active, .. } && active
                }
            &&& ev matches ResizeEvent::Down(z) ==> (match grabbed(z) {
                Some(p) => next == p,
                None => next == part,
            })
            &&& ev matches ResizeEvent::Down(z) ==> (next == ResizeInteraction::Area
                ==> !z.upper && !z.bottom && !z.right && !z.left)
        }),
{
    let (next, actions) = resize_reaction(part, ev);
    assert forall|p: ResizeInteraction|
        #[trigger] actions.contains(ResizeAction::Drag(p)) implies {
        &&& p == part
        &&& p != ResizeInteraction::NoInteraction
        &&& ev matches ResizeEvent::Move { active, .. } && active
    } by {
        let i = choose|i: int| 0 <= i < actions.len() && actions[i] == ResizeAction::Drag(p);
        match ev {
            ResizeEvent::Move { zones, active } => {
                if !active || part == ResizeInteraction::NoInteraction {
                    assert(actions.len() == 1);
                } else {
                    assert(i >= 1);
                }
            },
            ResizeEvent::Down(z) => {
                assert(actions.len() <= 2);
                if i == 1 {
                    assert(actions[1] != ResizeAction::Drag(p));
                }
            },
            _ => {},
        }
    }
}

/// How the crop rectangle answers the pointer. A press takes the pointer
/// and takes hold of the edge under it (upper before bottom, bottom before
/// right, right before left), or of the inside, remembering where the drag
/// starts; a press outside keeps what was held. While the pointer is held,
/// every move drags the held part (and, for the inside, remembers the new
/// point to move from), whichever part it is. Every move first shows the
/// cursor for what is under the pointer: up-down on the upper or bottom
/// band, left-right on the right or left band, the hand inside, the arrow
/// elsewhere. A release lets go of the pointer and of the held part, and
/// asks for a repaint.
pub proof fn lemma_held_part_is_dragged(part: ResizeInteraction, z: RectZones)
    ensures
        ({
            let (next, acts) = resize_reaction(part, ResizeEvent::Move { zones: z, active: true });
            &&& part != ResizeInteraction::NoInteraction ==> acts.contains(ResizeAction::Drag(part))
            &&& part == ResizeInteraction::Area ==> acts.contains(ResizeAction::Anchor)
            &&& next == part
        }),
        forall|active: bool|
            #![trigger resize_reaction(part, ResizeEvent::Move { zones: z, active })]
            ({
                let acts = resize_reaction(part, ResizeEvent::Move { zones: z, active }).1;
                &&& acts.len() >= 1
                &&& (z.upper || z.bottom) ==> acts[0] == ResizeAction::SetCursor(ResizeCursor::UpDown)
                &&& (!z.upper && !z.bottom && (z.right || z.left)) ==> acts[0]
                    == ResizeAction::SetCursor(ResizeCursor::LeftRight)
                &&& (!z.upper && !z.bottom && !z.right && !z.left && z.inside) ==> acts[0]
                    == ResizeAction::SetCursor(ResizeCursor::Pointer)
                &&& (!z.upper && !z.bottom && !z.right && !z.left && !z.inside) ==> acts[0]
                    == ResizeAction::SetCursor(ResizeCursor::Arrow)
            }),
        ({
            let (next, acts) = resize_reaction(part, ResizeEvent::Down(z));
            &&& acts.contains(ResizeAction::SetActive(true))
            &&& z.upper ==> next == ResizeInteraction::Upper
            &&& (!z.upper && z.bottom) ==> next == ResizeInteraction::Bottom
            &&& (!z.upper && !z.bottom && z.right) ==> next == ResizeInteraction::Right
            &&& (!z.upper && !z.bottom && !z.right && z.left) ==> next == ResizeInteraction::Left
            &&& (!z.upper && !z.bottom && !z.right && !z.left && z.inside) ==> {
                &&& next == ResizeInteraction::Area
                &&& acts.contains(ResizeAction::Anchor)
            }
            &&& (!z.upper && !z.bottom && !z.right && !z.left && !z.inside) ==> next == part
        }),
        ({
            let (next, acts) = resize_reaction(part, ResizeEvent::Up);
            &&& next == ResizeInteraction::NoInteraction
            &&& acts.contains(ResizeAction::SetActive(false))
            &&& acts.contains(ResizeAction::RequestPaint)
        }),
{
    let (next, acts) = resize_reaction(part, ResizeEvent::Move { zones: z, active: true });
    if part != ResizeInteraction::NoInteraction {
        assert(acts[1] == ResizeAction::Drag(part));
        if part == ResizeInteraction::Area {
            assert(acts[2] == ResizeAction::Anchor);
        }
    }
    let (n2, a2) = resize_reaction(part, ResizeEvent::Down(z));
    assert(a2[0] == ResizeAction::SetActive(true));
    if !z.upper && !z.bottom && !z.right && !z.left && z.inside {
        assert(a2[1] == ResizeAction::Anchor);
    }
    let (n3, a3) = resize_reaction(part, ResizeEvent::Up);
    assert(a3[0] == ResizeAction::RequestPaint);
    assert(a3[1] == ResizeAction::SetActive(false));
}

} // verus!
