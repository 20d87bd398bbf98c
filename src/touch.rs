use vstd::prelude::*;

use crate::vec2::Vec2;

verus! {

/// One contact point: the platform's identifier for it and where it is.
#[derive(Clone, Copy, Debug, PartialEq, Eq, Structural)]
pub struct Touch {
    pub identifier: i32,
    pub position: Vec2,
}

/// Some contact in `s` carries identifier `id`.
pub open spec fn has_id(s: Seq<Touch>, id: i32) -> bool {
    exists|j: int| 0 <= j < s.len() && s[j].identifier == id
}

/// `i` is the first place in `s` that holds a contact with identifier `id`.
pub open spec fn is_first_match(s: Seq<Touch>, id: i32, i: int) -> bool {
    &&& 0 <= i < s.len()
    &&& s[i].identifier == id
    &&& forall|j: int| 0 <= j < i ==> s[j].identifier != id
}

/// The active contacts after one moved contact: the first active contact with
/// its identifier takes its position; with no such contact nothing changes.
pub open spec fn after_move(s: Seq<Touch>, c: Touch) -> Seq<Touch> {
    if exists|i: int| is_first_match(s, c.identifier, i) {
        let i = choose|i: int| is_first_match(s, c.identifier, i);
        s.update(i, Touch { identifier: s[i].identifier, position: c.position })
    } else {
        s
    }
}

/// The active contacts after the moved contacts `moved`, taken in order.
pub open spec fn after_moves(s: Seq<Touch>, moved: Seq<Touch>) -> Seq<Touch>
    decreases moved.len(),
{
    if moved.len() == 0 {
        s
    } else {
        after_move(after_moves(s, moved.drop_last()), moved.last())
    }
}

/// The identifiers in `moved`, in order, that had no active contact when
/// their turn came.
pub open spec fn missed_moves(s: Seq<Touch>, moved: Seq<Touch>) -> Seq<i32>
    decreases moved.len(),
{
    if moved.len() == 0 {
        seq![]
    } else {
        let earlier = missed_moves(s, moved.drop_last());
        if has_id(after_moves(s, moved.drop_last()), moved.last().identifier) {
            earlier
        } else {
            earlier.push(moved.last().identifier)
        }
    }
}

/// The contacts of `s` whose identifier no contact of `ended` carries, in order.
pub open spec fn without_ended(s: Seq<Touch>, ended: Seq<Touch>) -> Seq<Touch> {
    s.filter(not_ended(ended))
}

/// Holds of a contact that no contact of `ended` shares an identifier with.
pub open spec fn not_ended(ended: Seq<Touch>) -> spec_fn(Touch) -> bool {
    |t: Touch| !has_id(ended, t.identifier)
}

/// The contacts that are down, in the order they began.
pub struct Touches {
    pub active_touches: Vec<Touch>,
}

impl View for Touches {
    type V = Seq<Touch>;

    open spec fn view(&self) -> Seq<Touch> {
        self.active_touches@
    }
}

/// Whether some contact of `s` carries identifier `id`.
fn contains_id(s: &[Touch], id: i32) -> (r: bool)
    ensures
        r == has_id(s@, id),
{
    let mut i: usize = 0;
    while i < s.len()
        invariant
            i <= s@.len(),
            forall|j: int| 0 <= j < i ==> s@[j].identifier != id,
        decreases s@.len() - i,
    {
        if s[i].identifier == id {
            return true;
        }
        i = i + 1;
    }
    false
}

impl Touches {
    /// No contact down.
    pub fn new() -> (r: Touches)
        ensures
            r@ == Seq::<Touch>::empty(),
    {
        Touches { active_touches: Vec::new() }
    }

    /// Adds each started contact at the end, in order, without looking for
    /// one already active with the same identifier.
    pub fn start(&mut self, started: &[Touch])
        ensures
            final(self)@ == old(self)@ + started@,
    {
        let mut i: usize = 0;
        while i < started.len()
            invariant
                i <= started@.len(),
                self@ == old(self)@ + started@.subrange(0, i as int),
            decreases started@.len() - i,
        {
            self.active_touches.push(started[i]);
            i = i + 1;
            assert(started@.subrange(0, i as int) =~= started@.subrange(0, i - 1).push(
                started@[i - 1],
            ));
        }
        assert(started@.subrange(0, started@.len() as int) =~= started@);
    }

    /// Gives the first active contact with the identifier of `c` the position
    /// of `c`. Returns whether there was one.
    pub fn move_one(&mut self, c: Touch) -> (r: bool)
        ensures
            final(self)@ == after_move(old(self)@, c),
            r == has_id(old(self)@, c.identifier),
    {
        let mut i: usize = 0;
        while i < self.active_touches.len()
            invariant
                i <= self@.len(),
                self@ == old(self)@,
                forall|j: int| 0 <= j < i ==> self@[j].identifier != c.identifier,
            decreases self@.len() - i,
        {
            if self.active_touches[i].identifier == c.identifier {
                proof {
                    let k = choose|k: int| is_first_match(old(self)@, c.identifier, k);
                    assert(is_first_match(old(self)@, c.identifier, i as int));
                    assert(k == i) by {
                        if k < i {
                            assert(self@[k].identifier != c.identifier);
                        } else if k > i {
                            assert(old(self)@[i as int].identifier != c.identifier);
                        }
                    }
                }
                let id = self.active_touches[i].identifier;
                self.active_touches.set(i, Touch { identifier: id, position: c.position });
                return true;
            }
            i = i + 1;
        }
        proof {
            if exists|k: int| is_first_match(old(self)@, c.identifier, k) {
                let k = choose|k: int| is_first_match(old(self)@, c.identifier, k);
                assert(self@[k].identifier != c.identifier);
            }
        }
        false
    }

    /// Moves each contact of `moved`, in order, as `move_one` does. Returns the
    /// identifiers that had no active contact, in order.
    pub fn move_all(&mut self, moved: &[Touch]) -> (r: Vec<i32>)
        ensures
            final(self)@ == after_moves(old(self)@, moved@),
            r@ == missed_moves(old(self)@, moved@),
    {
        let mut missed: Vec<i32> = Vec::new();
        let mut i: usize = 0;
        while i < moved.len()
            invariant
                i <= moved@.len(),
                self@ == after_moves(old(self)@, moved@.subrange(0, i as int)),
                missed@ == missed_moves(old(self)@, moved@.subrange(0, i as int)),
            decreases moved@.len() - i,
        {
            let ghost before = moved@.subrange(0, i as int);
            let found = self.move_one(moved[i]);
            if !found {
                missed.push(moved[i].identifier);
            }
            i = i + 1;
            assert(moved@.subrange(0, i as int).drop_last() =~= before);
        }
        assert(moved@.subrange(0, moved@.len() as int) =~= moved@);
        missed
    }

    /// Removes every active contact whose identifier some contact of `ended`
    /// carries; identifiers with no active contact are passed over.
    pub fn end(&mut self, ended: &[Touch])
        ensures
            final(self)@ == without_ended(old(self)@, ended@),
    {
        let mut kept: Vec<Touch> = Vec::new();
        let mut i: usize = 0;
        while i < self.active_touches.len()
            invariant
                i <= self@.len(),
                self@ == old(self)@,
                kept@ == old(self)@.subrange(0, i as int).filter(not_ended(ended@)),
            decreases self@.len() - i,
        {
            let t = self.active_touches[i];
            let ghost before = old(self)@.subrange(0, i as int);
            if !contains_id(ended, t.identifier) {
                kept.push(t);
            }
            i = i + 1;
            assert(old(self)@.subrange(0, i as int).drop_last() =~= before);
            assert(old(self)@.subrange(0, i as int).last() == t);
            reveal(Seq::filter);
        }
        assert(old(self)@.subrange(0, old(self)@.len() as int) =~= old(self)@);
        self.active_touches = kept;
    }
}

/// A move of an identifier that no active contact carries leaves the contacts
/// as they are, and is reported.
pub proof fn lemma_move_unknown(s: Seq<Touch>, c: Touch)
    requires
        !has_id(s, c.identifier),
    ensures
        after_moves(s, seq![c]) == s,
        missed_moves(s, seq![c]) == seq![c.identifier],
{
    assert(seq![c].drop_last() =~= Seq::<Touch>::empty());
    assert(after_moves(s, Seq::<Touch>::empty()) == s);
    assert(missed_moves(s, Seq::<Touch>::empty()) == Seq::<i32>::empty());
    if exists|i: int| is_first_match(s, c.identifier, i) {
        let i = choose|i: int| is_first_match(s, c.identifier, i);
        assert(s[i].identifier == c.identifier);
    }
    assert(Seq::<i32>::empty().push(c.identifier) =~= seq![c.identifier]);
}

} // verus!
