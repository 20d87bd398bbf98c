use vstd::prelude::*;

use crate::keyboard::{key_of, Keyboard};
use crate::pointer::{button_of, MouseButton, Pointer};
use crate::touch::{after_moves, missed_moves, without_ended, Touch, Touches};
use crate::vec2::Vec2;

verus! {

/// An input that was recognised as unsupported and skipped; the state is
/// otherwise updated as usual.
#[derive(Clone, Copy, Debug, PartialEq, Eq, Structural)]
pub enum InputWarning {
    /// A button ordinal outside the five tracked buttons.
    UnknownButton(i16),
    /// A key code that names none of the steering keys.
    UnknownKey,
    /// A moved contact whose identifier no active contact carries.
    UnknownTouch(i32),
}

/// What the input state holds, as plain values.
pub struct InputView {
    pub pointer: Pointer,
    pub keyboard: Keyboard,
    pub touches: Seq<Touch>,
}

/// The warning that a button event with this ordinal gives, if any.
pub open spec fn button_warning(code: i16) -> Option<InputWarning> {
    match button_of(code) {
        MouseButton::Unknown(c) => Some(InputWarning::UnknownButton(c)),
        _ => None,
    }
}

/// The warning that a key event with this code gives, if any.
pub open spec fn key_warning(code: Seq<char>) -> Option<InputWarning> {
    match key_of(code) {
        Some(_) => None,
        None => Some(InputWarning::UnknownKey),
    }
}

/// One warning for each identifier of a moved contact that had no match.
pub open spec fn touch_warnings(missed: Seq<i32>) -> Seq<InputWarning> {
    missed.map_values(|id: i32| InputWarning::UnknownTouch(id))
}

/// Everything that pointer, keyboard and touch events have reported so far.
pub struct Backend {
    pub pointer: Pointer,
    pub keyboard: Keyboard,
    pub touches: Touches,
}

impl View for Backend {
    type V = InputView;

    open spec fn view(&self) -> InputView {
        InputView { pointer: self.pointer, keyboard: self.keyboard, touches: self.touches@ }
    }
}

impl Backend {
    /// No button or key held, no contact down, the pointer at the origin.
    pub fn new() -> (r: Backend)
        ensures
            !r@.pointer.any_down(),
            r@.pointer.pos == Vec2::zero_spec(),
            !r@.keyboard.w && !r@.keyboard.a && !r@.keyboard.s && !r@.keyboard.d,
            r@.touches == Seq::<Touch>::empty(),
    {
        Backend { pointer: Pointer::new(), keyboard: Keyboard::new(), touches: Touches::new() }
    }

    fn set_button(&mut self, button: i16, down: bool, pos: Vec2) -> (r: Option<InputWarning>)
        ensures
            final(self)@ == (InputView {
                pointer: old(self)@.pointer.after_button(button, down, pos),
                ..old(self)@
            }),
            r == button_warning(button),
    {
        match self.pointer.set_button(button, down, pos) {
            MouseButton::Unknown(c) => Some(InputWarning::UnknownButton(c)),
            _ => None,
        }
    }

    /// A button went down at `pos`: its flag is set, the position updated.
    pub fn mouse_down(&mut self, button: i16, pos: Vec2) -> (r: Option<InputWarning>)
        ensures
            final(self)@ == (InputView {
                pointer: old(self)@.pointer.after_button(button, true, pos),
                ..old(self)@
            }),
            r == button_warning(button),
    {
        self.set_button(button, true, pos)
    }

    /// The pointer moved to `pos`; no flag changes.
    pub fn mouse_move(&mut self, pos: Vec2)
        ensures
            final(self)@ == (InputView { pointer: old(self)@.pointer.at(pos), ..old(self)@ }),
    {
        self.pointer.pos = pos;
    }

    /// A button came up at `pos`: its flag is cleared, the position updated.
    pub fn mouse_up(&mut self, button: i16, pos: Vec2) -> (r: Option<InputWarning>)
        ensures
            final(self)@ == (InputView {
                pointer: old(self)@.pointer.after_button(button, false, pos),
                ..old(self)@
            }),
            r == button_warning(button),
    {
        self.set_button(button, false, pos)
    }

    fn set_key(&mut self, code: &str, down: bool) -> (r: Option<InputWarning>)
        ensures
            final(self)@ == (InputView {
                keyboard: old(self)@.keyboard.after_key(code@, down),
                ..old(self)@
            }),
            r == key_warning(code@),
    {
        match self.keyboard.set_key(code, down) {
            crate::keyboard::KeyCode::Known(_) => None,
            crate::keyboard::KeyCode::Unknown(_) => Some(InputWarning::UnknownKey),
        }
    }

    /// A key went down: a steering key's flag is set.
    pub fn key_down(&mut self, code: &str) -> (r: Option<InputWarning>)
        ensures
            final(self)@ == (InputView {
                keyboard: old(self)@.keyboard.after_key(code@, true),
                ..old(self)@
            }),
            r == key_warning(code@),
    {
        self.set_key(code, true)
    }

    /// A key came up: a steering key's flag is cleared.
    pub fn key_up(&mut self, code: &str) -> (r: Option<InputWarning>)
        ensures
            final(self)@ == (InputView {
                keyboard: old(self)@.keyboard.after_key(code@, false),
                ..old(self)@
            }),
            r == key_warning(code@),
    {
        self.set_key(code, false)
    }

    /// Contacts began: each is added after the active ones, in order.
    pub fn touch_start(&mut self, started: &[Touch])
        ensures
            final(self)@ == (InputView { touches: old(self)@.touches + started@, ..old(self)@ }),
    {
        self.touches.start(started);
    }

    /// Contacts moved: each updates the first active contact with its
    /// identifier. One warning for each contact with no active match, in order.
    pub fn touch_move(&mut self, moved: &[Touch]) -> (r: Vec<InputWarning>)
        ensures
            final(self)@ == (InputView {
                touches: after_moves(old(self)@.touches, moved@),
                ..old(self)@
            }),
            r@ == touch_warnings(missed_moves(old(self)@.touches, moved@)),
    {
        let missed = self.touches.move_all(moved);
        let mut r: Vec<InputWarning> = Vec::new();
        let mut i: usize = 0;
        while i < missed.len()
            invariant
                i <= missed@.len(),
                r@ == touch_warnings(missed@.subrange(0, i as int)),
            decreases missed@.len() - i,
        {
            r.push(InputWarning::UnknownTouch(missed[i]));
            i = i + 1;
            assert(touch_warnings(missed@.subrange(0, i as int)) =~= r@);
        }
        assert(missed@.subrange(0, missed@.len() as int) =~= missed@);
        r
    }

    /// Contacts ended or were cancelled: every active contact with one of
    /// their identifiers is removed.
    pub fn touch_end_or_cancel(&mut self, ended: &[Touch])
        ensures
            final(self)@ == (InputView {
                touches: without_ended(old(self)@.touches, ended@),
                ..old(self)@
            }),
    {
        self.touches.end(ended);
    }
}

} // verus!
