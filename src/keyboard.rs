use vstd::prelude::*;
use vstd::string::*;

verus! {

/// The four keys that steer the movable object.
#[derive(Clone, Copy, Debug, PartialEq, Eq, Structural)]
pub enum Key {
    W,
    A,
    S,
    D,
}

/// The key that a platform key code names, if it is one of the four.
pub open spec fn key_of(code: Seq<char>) -> Option<Key> {
    if code == "KeyW"@ {
        Some(Key::W)
    } else if code == "KeyA"@ {
        Some(Key::A)
    } else if code == "KeyS"@ {
        Some(Key::S)
    } else if code == "KeyD"@ {
        Some(Key::D)
    } else {
        None
    }
}

/// A key code sorted into one of the steering keys, or kept as it came.
#[derive(Debug)]
pub enum KeyCode {
    Known(Key),
    Unknown(String),
}

/// Whether two strings hold the same characters.
fn same_text(a: &str, b: &str) -> (r: bool)
    ensures
        r == (a@ == b@),
{
    let n = a.unicode_len();
    if n != b.unicode_len() {
        return false;
    }
    let mut i: usize = 0;
    while i < n
        invariant
            n == a@.len(),
            n == b@.len(),
            i <= n,
            forall|j: int| 0 <= j < i ==> a@[j] == b@[j],
        decreases n - i,
    {
        if a.get_char(i) != b.get_char(i) {
            return false;
        }
        i = i + 1;
    }
    assert(a@ =~= b@);
    true
}

impl KeyCode {
    pub fn parse(code: &str) -> (r: KeyCode)
        ensures
            key_of(code@) matches Some(k) ==> r == KeyCode::Known(k),
            key_of(code@) is None ==> (r matches KeyCode::Unknown(s) && s@ == code@),
    {
        if same_text(code, "KeyW") {
            KeyCode::Known(Key::W)
        } else if same_text(code, "KeyA") {
            KeyCode::Known(Key::A)
        } else if same_text(code, "KeyS") {
            KeyCode::Known(Key::S)
        } else if same_text(code, "KeyD") {
            KeyCode::Known(Key::D)
        } else {
            KeyCode::Unknown(code.to_owned())
        }
    }
}

/// Which steering keys are held: a flag is set by the key's last "down" and
/// cleared by its last "up".
#[derive(Clone, Copy, Debug, PartialEq, Eq, Structural)]
pub struct Keyboard {
    pub w: bool,
    pub a: bool,
    pub s: bool,
    pub d: bool,
}

impl Keyboard {
    /// This keyboard with the flag of `k` set to `down`.
    pub open spec fn with_key(self, k: Key, down: bool) -> Keyboard {
        match k {
            Key::W => Keyboard { w: down, ..self },
            Key::A => Keyboard { a: down, ..self },
            Key::S => Keyboard { s: down, ..self },
            Key::D => Keyboard { d: down, ..self },
        }
    }

    /// What a key event with this code leaves: an unknown code changes nothing.
    pub open spec fn after_key(self, code: Seq<char>, down: bool) -> Keyboard {
        match key_of(code) {
            Some(k) => self.with_key(k, down),
            None => self,
        }
    }

    pub open spec fn is_held(self, k: Key) -> bool {
        match k {
            Key::W => self.w,
            Key::A => self.a,
            Key::S => self.s,
            Key::D => self.d,
        }
    }

    /// No key held.
    pub fn new() -> (r: Keyboard)
        ensures
            !r.w && !r.a && !r.s && !r.d,
    {
        Keyboard { w: false, a: false, s: false, d: false }
    }

    /// Sets the flag of the key that `code` names to `down`. Returns the
    /// sorted code, so that a caller can report one that names no steering key.
    pub fn set_key(&mut self, code: &str, down: bool) -> (r: KeyCode)
        ensures
            *final(self) == old(self).after_key(code@, down),
            key_of(code@) matches Some(k) ==> r == KeyCode::Known(k),
            key_of(code@) is None ==> (r matches KeyCode::Unknown(s) && s@ == code@),
    {
        let parsed = KeyCode::parse(code);
        match &parsed {
            KeyCode::Known(Key::W) => self.w = down,
            KeyCode::Known(Key::A) => self.a = down,
            KeyCode::Known(Key::S) => self.s = down,
            KeyCode::Known(Key::D) => self.d = down,
            KeyCode::Unknown(_) => {},
        }
        parsed
    }
}

/// A key pressed and then released is no longer held, and the keyboard is as
/// if only the release had come; a second press without a release in between
/// changes nothing.
pub proof fn lemma_key_press_release(kb: Keyboard, code: Seq<char>)
    ensures
        kb.after_key(code, true).after_key(code, false) == kb.after_key(code, false),
        kb.after_key(code, true).after_key(code, true) == kb.after_key(code, true),
        key_of(code) matches Some(k) ==> !kb.after_key(code, true).after_key(code, false).is_held(k),
        key_of(code) matches Some(k) ==> kb.after_key(code, true).after_key(code, true).is_held(k),
{
}

} // verus!
