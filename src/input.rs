//! Named inputs, their key bindings and the pressed / just-pressed /
//! just-released state of each.

use vstd::prelude::*;

verus! {

/// The named inputs of the game.
#[derive(Debug, Clone, Copy, PartialEq, Eq, Hash, Structural)]
pub enum InputID {
    Confirm,
    Cancel,
    Up,
    Down,
    Left,
    Right,
}

/// State of one named input.
#[derive(Debug, Clone, Copy, PartialEq, Eq, Hash, Structural)]
pub struct KeyState {
    pub pressed: bool,
    pub just_pressed: bool,
    pub just_released: bool,
}

/// The state that `s` takes on when its key is reported pressed (`pressed`)
/// or released.
pub open spec fn key_state_after(s: KeyState, pressed: bool) -> KeyState {
    KeyState {
        pressed,
        just_pressed: pressed && !s.pressed,
        just_released: !pressed && s.pressed,
    }
}

impl KeyState {
    /// Released, with no change reported.
    pub fn new() -> (r: KeyState)
        ensures
            r == (KeyState { pressed: false, just_pressed: false, just_released: false }),
    {
        KeyState { pressed: false, just_pressed: false, just_released: false }
    }

    /// Records that the key was reported pressed (`pressed`) or released.
    pub fn apply(&mut self, pressed: bool)
        ensures
            *final(self) == key_state_after(*old(self), pressed),
    {
        self.just_pressed = pressed && !self.pressed;
        self.just_released = !pressed && self.pressed;
        self.pressed = pressed;
    }
}

/// The physical keys that the game listens to.
#[derive(Debug, Clone, Copy, PartialEq, Eq, Hash, Structural)]
pub enum Key {
    Space,
    Enter,
    KeyE,
    Escape,
    Backspace,
    KeyQ,
    KeyW,
    ArrowUp,
    KeyS,
    ArrowDown,
    KeyA,
    ArrowLeft,
    KeyD,
    ArrowRight,
}

/// The named input that a key drives.
pub open spec fn bound_input(key: Key) -> InputID {
    match key {
        Key::Space | Key::Enter | Key::KeyE => InputID::Confirm,
        Key::Escape | Key::Backspace | Key::KeyQ => InputID::Cancel,
        Key::KeyW | Key::ArrowUp => InputID::Up,
        Key::KeyS | Key::ArrowDown => InputID::Down,
        Key::KeyA | Key::ArrowLeft => InputID::Left,
        Key::KeyD | Key::ArrowRight => InputID::Right,
    }
}

/// The named input that `key` drives.
pub fn binding(key: Key) -> (r: InputID)
    ensures
        r == bound_input(key),
{
    match key {
        Key::Space | Key::Enter | Key::KeyE => InputID::Confirm,
        Key::Escape | Key::Backspace | Key::KeyQ => InputID::Cancel,
        Key::KeyW | Key::ArrowUp => InputID::Up,
        Key::KeyS | Key::ArrowDown => InputID::Down,
        Key::KeyA | Key::ArrowLeft => InputID::Left,
        Key::KeyD | Key::ArrowRight => InputID::Right,
    }
}

/// A key reported pressed (`pressed`) or released.
#[derive(Debug, Clone, Copy, PartialEq, Eq, Hash, Structural)]
pub struct KeyEvent {
    pub key: Key,
    pub pressed: bool,
}

/// The state of every named input.
pub struct Controls {
    confirm: KeyState,
    cancel: KeyState,
    up: KeyState,
    down: KeyState,
    left: KeyState,
    right: KeyState,
}

/// Controls as a function from named input to its state.
pub type ControlsView = spec_fn(InputID) -> KeyState;

/// The states after `events`, taken in order, starting from `states`: each
/// event changes the state of the input its key drives and no other.
pub open spec fn states_after(states: ControlsView, events: Seq<KeyEvent>) -> ControlsView
    decreases events.len(),
{
    if events.len() == 0 {
        states
    } else {
        let before = states_after(states, events.drop_last());
        let e = events.last();
        |id: InputID|
            if id == bound_input(e.key) {
                key_state_after(before(id), e.pressed)
            } else {
                before(id)
            }
    }
}

impl Controls {
    pub closed spec fn state(&self, id: InputID) -> KeyState {
        match id {
            InputID::Confirm => self.confirm,
            InputID::Cancel => self.cancel,
            InputID::Up => self.up,
            InputID::Down => self.down,
            InputID::Left => self.left,
            InputID::Right => self.right,
        }
    }

    /// Every input released, with no change reported.
    pub fn new() -> (r: Controls)
        ensures
            forall|id: InputID| #[trigger] r.state(id)
                == (KeyState { pressed: false, just_pressed: false, just_released: false }),
    {
        Controls {
            confirm: KeyState::new(),
            cancel: KeyState::new(),
            up: KeyState::new(),
            down: KeyState::new(),
            left: KeyState::new(),
            right: KeyState::new(),
        }
    }

    /// The state of input `key`.
    pub fn get_key_state(&self, key: InputID) -> (r: &KeyState)
        ensures
            *r == self.state(key),
    {
        match key {
            InputID::Confirm => &self.confirm,
            InputID::Cancel => &self.cancel,
            InputID::Up => &self.up,
            InputID::Down => &self.down,
            InputID::Left => &self.left,
            InputID::Right => &self.right,
        }
    }

    /// Records one key event on the input its key drives.
    pub fn apply(&mut self, event: KeyEvent)
        ensures
            forall|id: InputID| #[trigger] final(self).state(id) == if id == bound_input(event.key) {
                key_state_after(old(self).state(id), event.pressed)
            } else {
                old(self).state(id)
            },
    {
        match binding(event.key) {
            InputID::Confirm => self.confirm.apply(event.pressed),
            InputID::Cancel => self.cancel.apply(event.pressed),
            InputID::Up => self.up.apply(event.pressed),
            InputID::Down => self.down.apply(event.pressed),
            InputID::Left => self.left.apply(event.pressed),
            InputID::Right => self.right.apply(event.pressed),
        }
    }

    /// Records the key events received since the last update, in order.
    pub fn update(&mut self, events: &Vec<KeyEvent>)
        ensures
            forall|id: InputID| #[trigger] final(self).state(id)
                == states_after(|i: InputID| old(self).state(i), events@)(id),
    {
        let mut k: usize = 0;
        while k < events.len()
            invariant
                k <= events@.len(),
                forall|id: InputID| #[trigger] self.state(id)
                    == states_after(|i: InputID| old(self).state(i), events@.subrange(0, k as int))(id),
            decreases events@.len() - k,
        {
            let ghost before = *self;
            self.apply(events[k]);
            proof {
                let s = events@.subrange(0, k as int + 1);
                assert(s.drop_last() =~= events@.subrange(0, k as int));
            }
            k = k + 1;
        }
        assert(events@.subrange(0, events@.len() as int) =~= events@);
    }
}

/// Which way the player moves in one tick.
#[derive(Debug, Clone, Copy, PartialEq, Eq, Hash, Structural)]
pub enum Steer {
    Idle,
    Left,
    Right,
}

/// The move that the held inputs ask for: left or right when exactly that one
/// is held; none when neither or both are held.
pub fn steer(left_pressed: bool, right_pressed: bool) -> (r: Steer)
    ensures
        r == Steer::Left <==> (left_pressed && !right_pressed),
        r == Steer::Right <==> (right_pressed && !left_pressed),
        r == Steer::Idle <==> (left_pressed == right_pressed),
{
    if left_pressed && !right_pressed {
        Steer::Left
    } else if right_pressed && !left_pressed {
        Steer::Right
    } else {
        Steer::Idle
    }
}

} // verus!
