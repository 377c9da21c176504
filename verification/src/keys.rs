use vstd::prelude::*;

verus! {

/// The keyboard keys that the game's controls read.
#[derive(Debug, Clone, Copy, PartialEq, Eq, Hash, Structural)]
pub enum Key {
    ShiftLeft,
    ShiftRight,
    Escape,
    Enter,
    NumpadEnter,
    Space,
    Tab,
    Backspace,
    Delete,
    Home,
    Backquote,
    Backslash,
    BracketLeft,
    BracketRight,
    Comma,
    Period,
    ArrowUp,
    ArrowDown,
    ArrowLeft,
    ArrowRight,
    Digit1,
    Digit2,
    Digit3,
    Numpad1,
    Numpad2,
    Numpad3,
    KeyA,
    KeyC,
    KeyD,
    KeyF,
    KeyG,
    KeyH,
    KeyM,
    KeyO,
    KeyR,
    KeyS,
    KeyT,
    KeyU,
    KeyW,
    KeyY,
    KeyZ,
}

/// The keyboard state of one frame: the keys held down, and the keys that
/// went down during this frame.
#[derive(Debug, Clone)]
pub struct KeyInput {
    held: Vec<Key>,
    went_down: Vec<Key>,
}

impl KeyInput {
    /// Whether the key is held down.
    pub closed spec fn is_pressed(self, k: Key) -> bool {
        self.held@.contains(k)
    }

    /// Whether the key went down during this frame.
    pub closed spec fn is_just_pressed(self, k: Key) -> bool {
        self.went_down@.contains(k)
    }

    /// No key held, none pressed.
    pub fn new() -> (s: KeyInput)
        ensures
            forall|k: Key| !#[trigger] s.is_pressed(k) && !s.is_just_pressed(k),
    {
        KeyInput { held: Vec::new(), went_down: Vec::new() }
    }

    /// Registers a press of `k`: it is held from now on, and it counts as
    /// just pressed unless it was already held.
    pub fn press(&mut self, k: Key)
        ensures
            final(self).is_pressed(k),
            old(self).is_pressed(k) ==> final(self).is_just_pressed(k) == old(self).is_just_pressed(k),
            !old(self).is_pressed(k) ==> final(self).is_just_pressed(k),
            forall|j: Key|
                j != k ==> (#[trigger] final(self).is_pressed(j)) == old(self).is_pressed(j)
                    && final(self).is_just_pressed(j) == old(self).is_just_pressed(j),
    {
        if !contains_key(&self.held, k) {
            self.held.push(k);
            self.went_down.push(k);
            proof {
                assert(self.held@.last() == k);
                assert(self.went_down@.last() == k);
                assert forall|j: Key| j != k implies (#[trigger] self.held@.contains(j))
                    == old(self).held@.contains(j) && self.went_down@.contains(j)
                    == old(self).went_down@.contains(j) by {
                    if self.held@.contains(j) {
                        let i = choose|i: int| 0 <= i < self.held@.len() && self.held@[i] == j;
                        assert(old(self).held@[i] == j);
                    }
                    if self.went_down@.contains(j) {
                        let i = choose|i: int|
                            0 <= i < self.went_down@.len() && self.went_down@[i] == j;
                        assert(old(self).went_down@[i] == j);
                    }
                    if old(self).held@.contains(j) {
                        let i = choose|i: int| 0 <= i < old(self).held@.len() && old(self).held@[i] == j;
                        assert(self.held@[i] == j);
                    }
                    if old(self).went_down@.contains(j) {
                        let i = choose|i: int|
                            0 <= i < old(self).went_down@.len() && old(self).went_down@[i] == j;
                        assert(self.went_down@[i] == j);
                    }
                }
            }
        }
    }

    /// Starts a new frame: the held keys stay held, and no key counts as
    /// just pressed any more.
    pub fn clear(&mut self)
        ensures
            forall|k: Key| #[trigger] final(self).is_pressed(k) == old(self).is_pressed(k),
            forall|k: Key| !#[trigger] final(self).is_just_pressed(k),
    {
        self.went_down = Vec::new();
    }

    /// Whether the key is held down.
    pub fn pressed(&self, k: Key) -> (b: bool)
        ensures
            b == self.is_pressed(k),
    {
        contains_key(&self.held, k)
    }

    /// Whether the key went down during this frame.
    pub fn just_pressed(&self, k: Key) -> (b: bool)
        ensures
            b == self.is_just_pressed(k),
    {
        contains_key(&self.went_down, k)
    }
}

fn contains_key(keys: &Vec<Key>, k: Key) -> (b: bool)
    ensures
        b == keys@.contains(k),
{
    let mut i: usize = 0;
    while i < keys.len()
        invariant
            i <= keys@.len(),
            forall|j: int| 0 <= j < i ==> keys@[j] != k,
        decreases keys@.len() - i,
    {
        if keys[i] == k {
            assert(keys@[i as int] == k);
            return true;
        }
        i = i + 1;
    }
    false
}

} // verus!
