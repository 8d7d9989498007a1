//! Decisions of the display front end for each frame: which keys were
//! pressed or released by the touch, and what a drag on a knob does.

use vstd::prelude::*;

verus! {

/// A key whose state changed in this frame.
#[derive(Debug, Clone, Copy, PartialEq, Eq, Structural)]
pub struct ButtonEdge {
    /// Key index.
    pub index: usize,
    /// Whether it is now pressed (else it was released).
    pub pressed: bool,
}

/// The changes between the key states of the last frame and this one, in
/// key order, for the first `n` keys.
pub open spec fn edges_spec(was: Seq<bool>, now: Seq<bool>, n: nat) -> Seq<ButtonEdge>
    decreases n,
{
    if n == 0 {
        Seq::empty()
    } else {
        let i = n - 1;
        let earlier = edges_spec(was, now, i as nat);
        if now[i] != was[i] {
            earlier.push(ButtonEdge { index: i as usize, pressed: now[i] })
        } else {
            earlier
        }
    }
}

/// The keys whose state changed from `was` to `now`, in key order: each
/// newly touched key is pressed, each key no longer touched is released.
pub fn button_edges(was: &[bool], now: &[bool]) -> (r: Vec<ButtonEdge>)
    requires
        was@.len() == now@.len(),
    ensures
        r@ == edges_spec(was@, now@, now@.len()),
{
    let mut out: Vec<ButtonEdge> = Vec::new();
    let mut i: usize = 0;
    while i < now.len()
        invariant
            was@.len() == now@.len(),
            i <= now@.len(),
            out@ == edges_spec(was@, now@, i as nat),
        decreases now@.len() - i,
    {
        if now[i] != was[i] {
            out.push(ButtonEdge { index: i, pressed: now[i] });
        }
        i = i + 1;
    }
    out
}

/// The last of the first `n` keys that is pressed, if any.
pub open spec fn last_pressed_spec(now: Seq<bool>, n: nat) -> Option<usize>
    decreases n,
{
    if n == 0 {
        None
    } else if now[n - 1] {
        Some((n - 1) as usize)
    } else {
        last_pressed_spec(now, (n - 1) as nat)
    }
}

/// The last key that is pressed, if any (shown in the status bar).
pub fn last_pressed(now: &[bool]) -> (r: Option<usize>)
    ensures
        r == last_pressed_spec(now@, now@.len()),
{
    let mut r: Option<usize> = None;
    let mut i: usize = 0;
    while i < now.len()
        invariant
            i <= now@.len(),
            r == last_pressed_spec(now@, i as nat),
        decreases now@.len() - i,
    {
        if now[i] {
            r = Some(i);
        }
        i = i + 1;
    }
    r
}

/// What the front end does with a knob in this frame.
#[derive(Debug, Clone, Copy, PartialEq, Eq, Structural)]
pub enum DragAction {
    /// A touch begins on this knob: start dragging it.
    Start(usize),
    /// The drag on this knob goes on: turn it by the steps of the movement.
    Update(usize),
    /// The touch ended on this knob: stop dragging; a drag without movement
    /// is a tap on the knob.
    End(usize),
    /// Nothing to do with any knob.
    Idle,
}

/// The next dragged knob and the action of a frame: with the touch down and
/// no drag going on, a drag starts on the touched knob (`hit`), if any; with
/// a drag going on, it goes on (if the knob exists); with the touch up, the
/// drag ends.
pub open spec fn drag_step_spec(dragging: Option<usize>, touch_active: bool, hit: Option<usize>, knob_count: usize) -> (
    Option<usize>,
    DragAction,
) {
    if touch_active {
        match dragging {
            None => match hit {
                Some(i) => (Some(i), DragAction::Start(i)),
                None => (None, DragAction::Idle),
            },
            Some(d) => (Some(d), if d < knob_count { DragAction::Update(d) } else { DragAction::Idle }),
        }
    } else {
        match dragging {
            Some(d) => (None, if d < knob_count { DragAction::End(d) } else { DragAction::Idle }),
            None => (None, DragAction::Idle),
        }
    }
}

/// The knob shown as pressed after a frame's action: the knob being dragged.
pub open spec fn highlighted_spec(action: DragAction) -> Option<usize> {
    match action {
        DragAction::Start(i) => Some(i),
        DragAction::Update(i) => Some(i),
        _ => None,
    }
}

/// The drag-to-turn state of the knobs.
#[derive(Debug, Clone, Copy)]
pub struct KnobDrag {
    dragging: Option<usize>,
}

impl View for KnobDrag {
    type V = Option<usize>;

    closed spec fn view(&self) -> Option<usize> {
        self.dragging
    }
}

impl KnobDrag {
    /// No knob is being dragged.
    pub fn new() -> (r: Self)
        ensures
            r@ is None,
    {
        KnobDrag { dragging: None }
    }

    /// The knob being dragged, if any.
    pub fn dragging(&self) -> (r: Option<usize>)
        ensures
            r == self@,
    {
        self.dragging
    }

    /// Advances the drag by one frame: `touch_active` tells whether the screen
    /// is touched, `hit` the first knob under the touch, `knob_count` how
    /// many knobs there are. Returns what to do with the knobs.
    pub fn step(&mut self, touch_active: bool, hit: Option<usize>, knob_count: usize) -> (r: DragAction)
        ensures
            (final(self)@, r) == drag_step_spec(old(self)@, touch_active, hit, knob_count),
    {
        if touch_active {
            match self.dragging {
                None => match hit {
                    Some(i) => {
                        self.dragging = Some(i);
                        DragAction::Start(i)
                    },
                    None => DragAction::Idle,
                },
                Some(d) => if d < knob_count {
                    DragAction::Update(d)
                } else {
                    DragAction::Idle
                },
            }
        } else {
            let taken = self.dragging;
            self.dragging = None;
            match taken {
                Some(d) => if d < knob_count {
                    DragAction::End(d)
                } else {
                    DragAction::Idle
                },
                None => DragAction::Idle,
            }
        }
    }
}

/// The knob shown as pressed after a frame's action.
pub fn highlighted(action: DragAction) -> (r: Option<usize>)
    ensures
        r == highlighted_spec(action),
{
    match action {
        DragAction::Start(i) => Some(i),
        DragAction::Update(i) => Some(i),
        _ => None,
    }
}

/// Lifting the touch always ends the drag, and a drag once started stays on
/// the same knob for as long as the touch stays down.
pub proof fn law_drag_follows_the_touch(dragging: Option<usize>, hit: Option<usize>, knob_count: usize)
    ensures
        drag_step_spec(dragging, false, hit, knob_count).0 is None,
        dragging is Some ==> drag_step_spec(dragging, true, hit, knob_count).0 == dragging,
        dragging is None ==> drag_step_spec(dragging, true, hit, knob_count).0 == hit,
{
}

/// Applying the edges of a frame to the last frame's key states gives this
/// frame's key states.
pub proof fn law_edges_replay(was: Seq<bool>, now: Seq<bool>, n: nat)
    requires
        was.len() == now.len(),
        n <= now.len(),
        n <= usize::MAX,
    ensures
        forall|i: int|
            0 <= i < n ==> (now[i] != was[i] <==> exists|j: int|
                0 <= j < edges_spec(was, now, n).len() && (#[trigger] edges_spec(was, now, n)[j]).index == i),
        forall|j: int|
            0 <= j < edges_spec(was, now, n).len() ==> (#[trigger] edges_spec(was, now, n)[j]).index < n
                && edges_spec(was, now, n)[j].pressed == now[edges_spec(was, now, n)[j].index as int]
                && now[edges_spec(was, now, n)[j].index as int] != was[edges_spec(was, now, n)[j].index as int],
    decreases n,
{
    if n > 0 {
        law_edges_replay(was, now, (n - 1) as nat);
        let e = edges_spec(was, now, n);
        let p = edges_spec(was, now, (n - 1) as nat);
        assert forall|i: int| 0 <= i < n implies (now[i] != was[i] <==> exists|j: int|
            0 <= j < e.len() && (#[trigger] e[j]).index == i) by {
            if i < n - 1 {
                if now[i] != was[i] {
                    let j = choose|j: int| 0 <= j < p.len() && (#[trigger] p[j]).index == i;
                    assert(e[j] == p[j]);
                } else {
                    if exists|j: int| 0 <= j < e.len() && (#[trigger] e[j]).index == i {
                        let j = choose|j: int| 0 <= j < e.len() && (#[trigger] e[j]).index == i;
                        if j < p.len() {
                            assert(e[j] == p[j]);
                        }
                    }
                }
            } else {
                if now[i] != was[i] {
                    assert(e[p.len() as int].index == i);
                }
            }
        }
    }
}

} // verus!
