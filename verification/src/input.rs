use vstd::prelude::*;

verus! {

/// The keys the game tells apart; every other key is `Other`.
#[derive(PartialEq, Eq, Structural, Clone, Copy, Debug)]
pub enum Key {
    I,
    J,
    K,
    L,
    Space,
    Semicolon,
    Escape,
    Other,
}

/// A direction of movement that a key can hold down.
#[derive(PartialEq, Eq, Structural, Clone, Copy, Debug)]
pub enum Direction {
    Forward,
    Left,
    Backward,
    Right,
    Up,
    Down,
}

/// The direction each movement key drives: I/J/K/L move forward, left,
/// backward and right, Space rises and Semicolon sinks.
pub open spec fn key_direction(key: Key) -> Option<Direction> {
    match key {
        Key::I => Some(Direction::Forward),
        Key::J => Some(Direction::Left),
        Key::K => Some(Direction::Backward),
        Key::L => Some(Direction::Right),
        Key::Space => Some(Direction::Up),
        Key::Semicolon => Some(Direction::Down),
        _ => None,
    }
}

/// One movement axis: +1 when only the positive key is held, -1 when only the
/// negative one is, 0 otherwise.
pub open spec fn axis(positive: bool, negative: bool) -> int {
    (if positive { 1int } else { 0int }) - (if negative { 1int } else { 0int })
}

/// Which movement keys are held down. Each flag is the amount of movement in
/// its direction: held means a full step, released means none.
#[derive(PartialEq, Eq, Structural, Clone, Copy, Debug)]
pub struct Input {
    pub forward: bool,
    pub left: bool,
    pub backward: bool,
    pub right: bool,
    pub up: bool,
    pub down: bool,
}

impl Input {
    /// Whether the key for `dir` is held.
    pub open spec fn held(self, dir: Direction) -> bool {
        match dir {
            Direction::Forward => self.forward,
            Direction::Left => self.left,
            Direction::Backward => self.backward,
            Direction::Right => self.right,
            Direction::Up => self.up,
            Direction::Down => self.down,
        }
    }

    /// The same input with the key for `dir` held or released.
    pub open spec fn with_held(self, dir: Direction, value: bool) -> Input {
        match dir {
            Direction::Forward => Input { forward: value, ..self },
            Direction::Left => Input { left: value, ..self },
            Direction::Backward => Input { backward: value, ..self },
            Direction::Right => Input { right: value, ..self },
            Direction::Up => Input { up: value, ..self },
            Direction::Down => Input { down: value, ..self },
        }
    }

    /// What a key event does to the held keys: a movement key becomes held
    /// when pressed and released otherwise; any other key changes nothing.
    pub open spec fn after_key(self, key: Key, pressed: bool) -> Input {
        match key_direction(key) {
            Some(dir) => self.with_held(dir, pressed),
            None => self,
        }
    }

    /// No key held.
    pub open spec fn released() -> Input {
        Input { forward: false, left: false, backward: false, right: false, up: false, down: false }
    }

    /// An input with no key held.
    pub fn new() -> (res: Input)
        ensures
            res == Input::released(),
    {
        Input { forward: false, left: false, backward: false, right: false, up: false, down: false }
    }

    /// Records a key event: a movement key is held while pressed and released
    /// otherwise; other keys are ignored.
    pub fn process_key(&mut self, key: Key, pressed: bool)
        ensures
            *final(self) == old(self).after_key(key, pressed),
    {
        match key {
            Key::I => {
                self.forward = pressed;
            },
            Key::J => {
                self.left = pressed;
            },
            Key::K => {
                self.backward = pressed;
            },
            Key::L => {
                self.right = pressed;
            },
            Key::Space => {
                self.up = pressed;
            },
            Key::Semicolon => {
                self.down = pressed;
            },
            _ => {},
        }
    }

    /// The movement along the forward, rightward and upward axes, each -1, 0
    /// or +1: forward minus backward, right minus left, up minus down.
    pub fn axes(&self) -> (res: (i8, i8, i8))
        ensures
            res.0 == axis(self.forward, self.backward),
            res.1 == axis(self.right, self.left),
            res.2 == axis(self.up, self.down),
    {
        (axis_of(self.forward, self.backward), axis_of(self.right, self.left), axis_of(self.up, self.down))
    }
}

fn axis_of(positive: bool, negative: bool) -> (res: i8)
    ensures
        res == axis(positive, negative),
{
    let p: i8 = if positive { 1 } else { 0 };
    let n: i8 = if negative { 1 } else { 0 };
    p - n
}

/// Releasing a movement key undoes pressing it: from a state where the key is
/// not held, a press followed by a release gives back the same state.
pub proof fn release_undoes_press(input: Input, key: Key)
    requires
        key_direction(key) matches Some(dir) ==> !input.held(dir),
    ensures
        input.after_key(key, true).after_key(key, false) == input,
{
}

/// Key events are idempotent: repeating the same event changes nothing more.
pub proof fn key_event_idempotent(input: Input, key: Key, pressed: bool)
    ensures
        input.after_key(key, pressed).after_key(key, pressed) == input.after_key(key, pressed),
{
}

/// Events of different keys commute: the held state does not depend on the
/// order in which two different keys changed.
pub proof fn key_events_commute(input: Input, k1: Key, p1: bool, k2: Key, p2: bool)
    requires
        k1 != k2,
    ensures
        input.after_key(k1, p1).after_key(k2, p2) == input.after_key(k2, p2).after_key(k1, p1),
{
}

/// A movement key that is held contributes a full step along its axis in its
/// own direction when its opposite is not held.
pub proof fn pressed_key_moves(input: Input, key: Key)
    requires
        key_direction(key) is Some,
    ensures
        ({
            let after = input.after_key(key, true);
            &&& key == Key::I && !input.backward ==> axis(after.forward, after.backward) == 1
            &&& key == Key::K && !input.forward ==> axis(after.forward, after.backward) == -1
            &&& key == Key::L && !input.left ==> axis(after.right, after.left) == 1
            &&& key == Key::J && !input.right ==> axis(after.right, after.left) == -1
            &&& key == Key::Space && !input.down ==> axis(after.up, after.down) == 1
            &&& key == Key::Semicolon && !input.up ==> axis(after.up, after.down) == -1
        }),
{
}

/// What each key does to the held keys, field by field: I holds or releases
/// forward, J left, K backward, L right, Space up and Semicolon down; Escape
/// and every other key change nothing.
pub proof fn key_effects(input: Input, pressed: bool)
    ensures
        input.after_key(Key::I, pressed) == (Input { forward: pressed, ..input }),
        input.after_key(Key::J, pressed) == (Input { left: pressed, ..input }),
        input.after_key(Key::K, pressed) == (Input { backward: pressed, ..input }),
        input.after_key(Key::L, pressed) == (Input { right: pressed, ..input }),
        input.after_key(Key::Space, pressed) == (Input { up: pressed, ..input }),
        input.after_key(Key::Semicolon, pressed) == (Input { down: pressed, ..input }),
        input.after_key(Key::Escape, pressed) == input,
        input.after_key(Key::Other, pressed) == input,
{
}

/// An axis is +1 when only its positive key is held, -1 when only its
/// negative key is, and 0 when both or neither are.
pub proof fn axis_values(positive: bool, negative: bool)
    ensures
        positive && !negative ==> axis(positive, negative) == 1,
        !positive && negative ==> axis(positive, negative) == -1,
        positive == negative ==> axis(positive, negative) == 0,
{
}

} // verus!
