use vstd::prelude::*;
use vstd::wrapping::i32_specs::wrapping_add;

use crate::event::{apply_event, InputEvent};
use crate::input::{Backend, InputView, InputWarning};
use crate::keyboard::Keyboard;
use crate::touch::Touch;
use crate::vec2::Vec2;

verus! {

/// How far the object moves along an axis in one frame while its key is held.
pub const STEP: i32 = 10;

/// The offset along one axis for one frame: `neg` held moves towards lower
/// coordinates, `pos` held towards higher ones, both held cancel.
pub open spec fn axis_delta(neg: bool, pos: bool) -> i32 {
    ((if pos {
        STEP as int
    } else {
        0
    }) - (if neg {
        STEP as int
    } else {
        0
    })) as i32
}

/// Where one frame's movement takes `p`: W moves up (lower y), S down, A left
/// (lower x), D right; held keys add up, and a coordinate that passes the
/// range of `i32` wraps around.
pub open spec fn moved(p: Vec2, kb: Keyboard) -> Vec2 {
    Vec2 { x: wrapping_add(p.x, axis_delta(kb.a, kb.d)), y: wrapping_add(p.y, axis_delta(kb.w, kb.s)) }
}

/// The positions of the contacts, in order.
pub open spec fn positions(s: Seq<Touch>) -> Seq<Vec2> {
    s.map_values(|t: Touch| t.position)
}

/// What one frame draws, as plain values.
pub struct FramePlanView {
    pub pointer_marker: Option<Vec2>,
    pub touch_markers: Seq<Vec2>,
    pub object: Vec2,
}

/// The places where one frame draws: a marker at the pointer while a button
/// is held, one at each active contact, and the object after this frame's
/// movement.
pub struct FramePlan {
    pub pointer_marker: Option<Vec2>,
    pub touch_markers: Vec<Vec2>,
    pub object: Vec2,
}

impl View for FramePlan {
    type V = FramePlanView;

    open spec fn view(&self) -> FramePlanView {
        FramePlanView {
            pointer_marker: self.pointer_marker,
            touch_markers: self.touch_markers@,
            object: self.object,
        }
    }
}

/// The plan of a frame that reads input `input` with the object at `object`.
pub open spec fn plan_of(input: InputView, object: Vec2) -> FramePlanView {
    FramePlanView {
        pointer_marker: if input.pointer.any_down() {
            Some(input.pointer.pos)
        } else {
            None
        },
        touch_markers: positions(input.touches),
        object: moved(object, input.keyboard),
    }
}

/// The application's state as plain values: the input, and where the object is.
pub struct StateView {
    pub input: InputView,
    pub object: Vec2,
}

/// The state after one frame: the object moved, the input as it was.
pub open spec fn after_frame(s: StateView) -> StateView {
    StateView { input: s.input, object: moved(s.object, s.input.keyboard) }
}

/// The state after one event: the input updated, the object where it was.
pub open spec fn after_event(s: StateView, e: InputEvent) -> StateView {
    StateView { input: apply_event(s.input, e), object: s.object }
}

/// The object position after one frame's movement.
pub fn step_object(p: Vec2, kb: &Keyboard) -> (r: Vec2)
    ensures
        r == moved(p, *kb),
{
    let dx: i32 = (if kb.d {
        STEP
    } else {
        0
    }) - (if kb.a {
        STEP
    } else {
        0
    });
    let dy: i32 = (if kb.s {
        STEP
    } else {
        0
    }) - (if kb.w {
        STEP
    } else {
        0
    });
    Vec2 { x: p.x.wrapping_add(dx), y: p.y.wrapping_add(dy) }
}

/// The input that events report and the object that frames move.
pub struct State {
    pub backend: Backend,
    pub box_pos: Vec2,
}

impl View for State {
    type V = StateView;

    open spec fn view(&self) -> StateView {
        StateView { input: self.backend@, object: self.box_pos }
    }
}

impl State {
    /// Nothing held or down, the object at the origin.
    pub fn new() -> (r: State)
        ensures
            !r@.input.pointer.any_down(),
            r@.input.pointer.pos == Vec2::zero_spec(),
            !r@.input.keyboard.w && !r@.input.keyboard.a && !r@.input.keyboard.s
                && !r@.input.keyboard.d,
            r@.input.touches == Seq::<Touch>::empty(),
            r@.object == Vec2::zero_spec(),
    {
        State { backend: Backend::new(), box_pos: Vec2::zero() }
    }

    /// Applies one event to the input, as `Backend::handle` does.
    pub fn handle(&mut self, event: &InputEvent) -> (r: Vec<InputWarning>)
        ensures
            final(self)@ == after_event(old(self)@, *event),
            r@ == crate::event::event_warnings(old(self)@.input, *event),
    {
        self.backend.handle(event)
    }

    /// One frame: reads the input as it stands, moves the object, and returns
    /// where to draw.
    pub fn frame(&mut self) -> (r: FramePlan)
        ensures
            r@ == plan_of(old(self)@.input, old(self)@.object),
            final(self)@ == after_frame(old(self)@),
            r.object == final(self).box_pos,
    {
        let pointer_marker = if self.backend.pointer.is_any_down() {
            Some(self.backend.pointer.pos)
        } else {
            None
        };
        let mut touch_markers: Vec<Vec2> = Vec::new();
        let mut i: usize = 0;
        while i < self.backend.touches.active_touches.len()
            invariant
                i <= self.backend.touches@.len(),
                touch_markers@ == positions(self.backend.touches@.subrange(0, i as int)),
            decreases self.backend.touches@.len() - i,
        {
            touch_markers.push(self.backend.touches.active_touches[i].position);
            i = i + 1;
            assert(positions(self.backend.touches@.subrange(0, i as int)) =~= touch_markers@);
        }
        assert(self.backend.touches@.subrange(0, i as int) =~= self.backend.touches@);
        self.box_pos = step_object(self.box_pos, &self.backend.keyboard);
        FramePlan { pointer_marker, touch_markers, object: self.box_pos }
    }
}

/// An event handled after one frame has read the input and before the next
/// one does is seen by the next frame: that frame reads the input with the
/// event applied. The earlier frame read the input without it, since a frame
/// leaves the input as it found it and an event leaves the object where it is.
pub proof fn lemma_event_between_frames(s: StateView, e: InputEvent)
    ensures
        after_frame(s).input == s.input,
        after_event(after_frame(s), e).object == after_frame(s).object,
        plan_of(after_event(after_frame(s), e).input, after_event(after_frame(s), e).object)
            == plan_of(apply_event(s.input, e), moved(s.object, s.input.keyboard)),
{
}

} // verus!
