use vstd::prelude::*;

use crate::input::{
    button_warning, key_warning, touch_warnings, Backend, InputView, InputWarning,
};
use crate::touch::{after_moves, missed_moves, without_ended, Touch};
use crate::vec2::Vec2;

verus! {

/// One event as the platform delivers it, reduced to plain values.
#[derive(Debug)]
pub enum InputEvent {
    PointerDown { button: i16, pos: Vec2 },
    PointerMove { pos: Vec2 },
    PointerUp { button: i16, pos: Vec2 },
    KeyDown { code: String },
    KeyUp { code: String },
    TouchStart { touches: Vec<Touch> },
    TouchMove { touches: Vec<Touch> },
    TouchEnd { touches: Vec<Touch> },
    TouchCancel { touches: Vec<Touch> },
}

/// The input state after `e`.
pub open spec fn apply_event(v: InputView, e: InputEvent) -> InputView {
    match e {
        InputEvent::PointerDown { button, pos } => InputView {
            pointer: v.pointer.after_button(button, true, pos),
            ..v
        },
        InputEvent::PointerMove { pos } => InputView { pointer: v.pointer.at(pos), ..v },
        InputEvent::PointerUp { button, pos } => InputView {
            pointer: v.pointer.after_button(button, false, pos),
            ..v
        },
        InputEvent::KeyDown { code } => InputView {
            keyboard: v.keyboard.after_key(code@, true),
            ..v
        },
        InputEvent::KeyUp { code } => InputView {
            keyboard: v.keyboard.after_key(code@, false),
            ..v
        },
        InputEvent::TouchStart { touches } => InputView { touches: v.touches + touches@, ..v },
        InputEvent::TouchMove { touches } => InputView {
            touches: after_moves(v.touches, touches@),
            ..v
        },
        InputEvent::TouchEnd { touches } => InputView {
            touches: without_ended(v.touches, touches@),
            ..v
        },
        InputEvent::TouchCancel { touches } => InputView {
            touches: without_ended(v.touches, touches@),
            ..v
        },
    }
}

/// The warnings that `e` gives on input state `v`, in order.
pub open spec fn event_warnings(v: InputView, e: InputEvent) -> Seq<InputWarning> {
    let one = |w: Option<InputWarning>|
        match w {
            Some(w) => seq![w],
            None => Seq::<InputWarning>::empty(),
        };
    match e {
        InputEvent::PointerDown { button, .. } => one(button_warning(button)),
        InputEvent::PointerUp { button, .. } => one(button_warning(button)),
        InputEvent::KeyDown { code } => one(key_warning(code@)),
        InputEvent::KeyUp { code } => one(key_warning(code@)),
        InputEvent::TouchMove { touches } => touch_warnings(missed_moves(v.touches, touches@)),
        _ => Seq::<InputWarning>::empty(),
    }
}

fn warnings_from(w: Option<InputWarning>) -> (r: Vec<InputWarning>)
    ensures
        w matches Some(x) ==> r@ == seq![x],
        w is None ==> r@ == Seq::<InputWarning>::empty(),
{
    let mut r: Vec<InputWarning> = Vec::new();
    if let Some(x) = w {
        r.push(x);
    }
    r
}

impl Backend {
    /// Routes `event` to the update it calls for. Returns what was skipped as
    /// unsupported, in order; nothing that an event holds stops the update.
    pub fn handle(&mut self, event: &InputEvent) -> (r: Vec<InputWarning>)
        ensures
            final(self)@ == apply_event(old(self)@, *event),
            r@ == event_warnings(old(self)@, *event),
    {
        match event {
            InputEvent::PointerDown { button, pos } => warnings_from(
                self.mouse_down(*button, *pos),
            ),
            InputEvent::PointerMove { pos } => {
                self.mouse_move(*pos);
                Vec::new()
            },
            InputEvent::PointerUp { button, pos } => warnings_from(self.mouse_up(*button, *pos)),
            InputEvent::KeyDown { code } => warnings_from(self.key_down(code.as_str())),
            InputEvent::KeyUp { code } => warnings_from(self.key_up(code.as_str())),
            InputEvent::TouchStart { touches } => {
                self.touch_start(touches.as_slice());
                Vec::new()
            },
            InputEvent::TouchMove { touches } => self.touch_move(touches.as_slice()),
            InputEvent::TouchEnd { touches } => {
                self.touch_end_or_cancel(touches.as_slice());
                Vec::new()
            },
            InputEvent::TouchCancel { touches } => {
                self.touch_end_or_cancel(touches.as_slice());
                Vec::new()
            },
        }
    }
}

} // verus!
