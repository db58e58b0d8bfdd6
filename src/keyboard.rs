use vstd::prelude::*;

verus! {

/// The keys that controller input may hold down.
#[derive(Clone, Copy, Debug, PartialEq, Eq, Structural)]
pub enum Key {
    Control,
    LeftArrow,
    RightArrow,
    UpArrow,
    DownArrow,
    Plus,
    Minus,
}

/// A synthetic key event to send.
#[derive(Clone, Copy, Debug, PartialEq, Eq, Structural)]
pub enum KeyEvent {
    Press(Key),
    Release(Key),
}

/// Which keys the thumbsticks want held this frame.
#[derive(Clone, Copy, Debug, PartialEq, Eq, Structural)]
pub struct StickKeys {
    pub control: bool,
    pub up: bool,
    pub down: bool,
    pub right: bool,
    pub left: bool,
}

/// The keys that are held down by synthetic presses. A key is pressed only
/// when it is up and released only when it is down, so the host never sees
/// a repeated press or a release without a press.
pub struct Keyboard {
    control: bool,
    left: bool,
    right: bool,
    up: bool,
    down: bool,
    plus: bool,
    minus: bool,
}

/// The event, if any, that takes `key` from `held` to `wanted`.
pub open spec fn transition(key: Key, held: bool, wanted: bool) -> Seq<KeyEvent> {
    if wanted && !held {
        seq![KeyEvent::Press(key)]
    } else if !wanted && held {
        seq![KeyEvent::Release(key)]
    } else {
        seq![]
    }
}

impl Keyboard {
    pub closed spec fn held(&self, key: Key) -> bool {
        match key {
            Key::Control => self.control,
            Key::LeftArrow => self.left,
            Key::RightArrow => self.right,
            Key::UpArrow => self.up,
            Key::DownArrow => self.down,
            Key::Plus => self.plus,
            Key::Minus => self.minus,
        }
    }

    /// A keyboard with every key up.
    pub fn new() -> (r: Self)
        ensures
            forall|k: Key| !r.held(k),
    {
        Keyboard { control: false, left: false, right: false, up: false, down: false, plus: false, minus: false }
    }

    pub fn is_held(&self, key: Key) -> (r: bool)
        ensures
            r == self.held(key),
    {
        match key {
            Key::Control => self.control,
            Key::LeftArrow => self.left,
            Key::RightArrow => self.right,
            Key::UpArrow => self.up,
            Key::DownArrow => self.down,
            Key::Plus => self.plus,
            Key::Minus => self.minus,
        }
    }

    fn set(&mut self, key: Key, value: bool)
        ensures
            final(self).held(key) == value,
            forall|k: Key| k != key ==> final(self).held(k) == old(self).held(k),
    {
        match key {
            Key::Control => self.control = value,
            Key::LeftArrow => self.left = value,
            Key::RightArrow => self.right = value,
            Key::UpArrow => self.up = value,
            Key::DownArrow => self.down = value,
            Key::Plus => self.plus = value,
            Key::Minus => self.minus = value,
        }
    }

    /// Holds `key` down; returns whether a key press has to be sent, which
    /// is when the key was up.
    pub fn hold(&mut self, key: Key) -> (r: bool)
        ensures
            r == !old(self).held(key),
            final(self).held(key),
            forall|k: Key| k != key ==> final(self).held(k) == old(self).held(k),
    {
        let held = self.is_held(key);
        if !held {
            self.set(key, true);
        }
        !held
    }

    /// Lets `key` up; returns whether a key release has to be sent, which is
    /// when the key was down.
    pub fn release(&mut self, key: Key) -> (r: bool)
        ensures
            r == old(self).held(key),
            !final(self).held(key),
            forall|k: Key| k != key ==> final(self).held(k) == old(self).held(k),
    {
        let held = self.is_held(key);
        if held {
            self.set(key, false);
        }
        held
    }

    fn update(&mut self, key: Key, wanted: bool, events: &mut Vec<KeyEvent>)
        ensures
            final(self).held(key) == wanted,
            forall|k: Key| k != key ==> final(self).held(k) == old(self).held(k),
            final(events)@ == old(events)@ + transition(key, old(self).held(key), wanted),
    {
        if wanted {
            if self.hold(key) {
                events.push(KeyEvent::Press(key));
            }
        } else {
            if self.release(key) {
                events.push(KeyEvent::Release(key));
            }
        }
        assert(events@ =~= old(events)@ + transition(key, old(self).held(key), wanted));
    }

    /// Brings the stick-driven keys to what `wanted` asks, in the order
    /// control, up, down, right, left, and returns the events to send.
    /// The plus and minus keys are left as they are.
    pub fn apply_sticks(&mut self, wanted: StickKeys) -> (r: Vec<KeyEvent>)
        ensures
            final(self).held(Key::Control) == wanted.control,
            final(self).held(Key::UpArrow) == wanted.up,
            final(self).held(Key::DownArrow) == wanted.down,
            final(self).held(Key::RightArrow) == wanted.right,
            final(self).held(Key::LeftArrow) == wanted.left,
            final(self).held(Key::Plus) == old(self).held(Key::Plus),
            final(self).held(Key::Minus) == old(self).held(Key::Minus),
            r@ == transition(Key::Control, old(self).held(Key::Control), wanted.control)
                + transition(Key::UpArrow, old(self).held(Key::UpArrow), wanted.up)
                + transition(Key::DownArrow, old(self).held(Key::DownArrow), wanted.down)
                + transition(Key::RightArrow, old(self).held(Key::RightArrow), wanted.right)
                + transition(Key::LeftArrow, old(self).held(Key::LeftArrow), wanted.left),
    {
        let mut events: Vec<KeyEvent> = Vec::new();
        self.update(Key::Control, wanted.control, &mut events);
        self.update(Key::UpArrow, wanted.up, &mut events);
        self.update(Key::DownArrow, wanted.down, &mut events);
        self.update(Key::RightArrow, wanted.right, &mut events);
        self.update(Key::LeftArrow, wanted.left, &mut events);
        proof {
            assert(seq![] + transition(Key::Control, old(self).held(Key::Control), wanted.control)
                =~= transition(Key::Control, old(self).held(Key::Control), wanted.control));
        }
        events
    }
}

} // verus!
