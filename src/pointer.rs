use vstd::prelude::*;

use crate::vec2::Vec2;

verus! {

/// A mouse button as the platform numbers it, with a variant that keeps any
/// ordinal this library does not track.
#[derive(Clone, Copy, Debug, PartialEq, Eq, Structural)]
pub enum MouseButton {
    Primary,
    Auxiliary,
    Secondary,
    Fourth,
    Fifth,
    Unknown(i16),
}

/// The button that a platform ordinal names.
pub open spec fn button_of(code: i16) -> MouseButton {
    if code == 0 {
        MouseButton::Primary
    } else if code == 1 {
        MouseButton::Auxiliary
    } else if code == 2 {
        MouseButton::Secondary
    } else if code == 3 {
        MouseButton::Fourth
    } else if code == 4 {
        MouseButton::Fifth
    } else {
        MouseButton::Unknown(code)
    }
}

impl MouseButton {
    pub fn from_code(code: i16) -> (r: MouseButton)
        ensures
            r == button_of(code),
    {
        match code {
            0 => MouseButton::Primary,
            1 => MouseButton::Auxiliary,
            2 => MouseButton::Secondary,
            3 => MouseButton::Fourth,
            4 => MouseButton::Fifth,
            _ => MouseButton::Unknown(code),
        }
    }
}

/// What the pointer has reported: which buttons are held, and where it last was.
#[derive(Clone, Copy, Debug, PartialEq, Eq, Structural)]
pub struct Pointer {
    pub primary_down: bool,
    pub auxiliary_down: bool,
    pub secondary_down: bool,
    pub fourth_down: bool,
    pub fifth_down: bool,
    pub pos: Vec2,
}

impl Pointer {
    /// This pointer with the flag of `b` set to `down`; an unknown button has
    /// no flag, and leaves the pointer as it is.
    pub open spec fn with_button(self, b: MouseButton, down: bool) -> Pointer {
        match b {
            MouseButton::Primary => Pointer { primary_down: down, ..self },
            MouseButton::Auxiliary => Pointer { auxiliary_down: down, ..self },
            MouseButton::Secondary => Pointer { secondary_down: down, ..self },
            MouseButton::Fourth => Pointer { fourth_down: down, ..self },
            MouseButton::Fifth => Pointer { fifth_down: down, ..self },
            MouseButton::Unknown(_) => self,
        }
    }

    /// This pointer moved to `pos`, its buttons as they are.
    pub open spec fn at(self, pos: Vec2) -> Pointer {
        Pointer { pos, ..self }
    }

    /// What a button event leaves: the button's flag changed, the position updated.
    pub open spec fn after_button(self, code: i16, down: bool, pos: Vec2) -> Pointer {
        self.with_button(button_of(code), down).at(pos)
    }

    pub open spec fn any_down(self) -> bool {
        self.primary_down || self.auxiliary_down || self.secondary_down || self.fourth_down
            || self.fifth_down
    }

    /// The same buttons are held by both pointers.
    pub open spec fn same_buttons(self, other: Pointer) -> bool {
        &&& self.primary_down == other.primary_down
        &&& self.auxiliary_down == other.auxiliary_down
        &&& self.secondary_down == other.secondary_down
        &&& self.fourth_down == other.fourth_down
        &&& self.fifth_down == other.fifth_down
    }

    /// No button held, at the origin.
    pub fn new() -> (r: Pointer)
        ensures
            !r.any_down(),
            r.pos == Vec2::zero_spec(),
    {
        Pointer {
            primary_down: false,
            auxiliary_down: false,
            secondary_down: false,
            fourth_down: false,
            fifth_down: false,
            pos: Vec2::zero(),
        }
    }

    pub fn is_any_down(&self) -> (r: bool)
        ensures
            r == self.any_down(),
    {
        self.primary_down || self.auxiliary_down || self.secondary_down || self.fourth_down
            || self.fifth_down
    }

    /// Sets the flag of the button that `code` names to `down`, and moves to
    /// `pos` whatever the button. Returns the button, so that a caller can
    /// report one this pointer does not track.
    pub fn set_button(&mut self, code: i16, down: bool, pos: Vec2) -> (r: MouseButton)
        ensures
            *final(self) == old(self).after_button(code, down, pos),
            r == button_of(code),
    {
        let b = MouseButton::from_code(code);
        match b {
            MouseButton::Primary => self.primary_down = down,
            MouseButton::Auxiliary => self.auxiliary_down = down,
            MouseButton::Secondary => self.secondary_down = down,
            MouseButton::Fourth => self.fourth_down = down,
            MouseButton::Fifth => self.fifth_down = down,
            MouseButton::Unknown(_) => {},
        }
        self.pos = pos;
        b
    }
}

/// Pressing a tracked button and releasing it at the same place clears its
/// flag and leaves the others as they were, at that place; from a pointer with
/// no button held, no button is held afterwards.
pub proof fn lemma_press_release(p: Pointer, code: i16, pos: Vec2)
    requires
        0 <= code <= 4,
    ensures
        p.after_button(code, true, pos).after_button(code, false, pos) == p.with_button(
            button_of(code),
            false,
        ).at(pos),
        !p.any_down() ==> !p.after_button(code, true, pos).after_button(code, false, pos).any_down(),
        p.after_button(code, true, pos).after_button(code, false, pos).pos == pos,
{
}

/// A button event for an ordinal outside the tracked five changes no flag,
/// and still moves the pointer to the reported place.
pub proof fn lemma_unknown_button(p: Pointer, code: i16, down: bool, pos: Vec2)
    requires
        !(0 <= code <= 4),
    ensures
        p.after_button(code, down, pos).same_buttons(p),
        p.after_button(code, down, pos).pos == pos,
{
}

} // verus!
