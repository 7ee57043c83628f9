//! Key states from one frame to the next.
//!
//! The handler does not read the keyboard. Once a frame it is told which keys
//! are held, and answers from that and from what it was told the frame before.

use crate::fixed::SCALE;
use vstd::prelude::*;

pub mod helpers;

verus! {

/// The keys that the game listens to.
#[derive(Clone, Copy, Debug, PartialEq, Eq, Structural)]
pub enum Key {
    A,
    D,
    W,
    S,
    Space,
    Left,
    Right,
    Up,
    Down,
    Enter,
    Escape,
    R,
    P,
}

/// The keys held in this frame and in the one before.
pub struct InputHandler {
    current_keys: Vec<Key>,
    previous_keys: Vec<Key>,
}

/// The keys that the game listens to, in the order in which they are listed
/// as held.
pub open spec fn tracked_keys_spec() -> Seq<Key> {
    seq![
        Key::A,
        Key::D,
        Key::W,
        Key::S,
        Key::Space,
        Key::Left,
        Key::Right,
        Key::Up,
        Key::Down,
        Key::Enter,
        Key::Escape,
        Key::R,
        Key::P,
    ]
}

/// The keys among `held`, each once, in the order of [`tracked_keys_spec`].
pub open spec fn held_in_order(held: Seq<Key>) -> Seq<Key> {
    tracked_keys_spec().filter(|key: Key| held.contains(key))
}

/// What is held along one axis: minus one unit where only a key of the
/// negative direction is held, plus one unit where only one of the positive
/// direction is, nothing where none or both are.
pub open spec fn axis_input(negative: bool, positive: bool) -> int {
    (if positive { SCALE as int } else { 0 }) - (if negative { SCALE as int } else { 0 })
}

/// The keys that the game listens to.
pub fn tracked_keys() -> (r: Vec<Key>)
    ensures
        r@ == tracked_keys_spec(),
{
    let keys = vec![
        Key::A,
        Key::D,
        Key::W,
        Key::S,
        Key::Space,
        Key::Left,
        Key::Right,
        Key::Up,
        Key::Down,
        Key::Enter,
        Key::Escape,
        Key::R,
        Key::P,
    ];
    assert(keys@ =~= tracked_keys_spec());
    keys
}

/// Whether `key` occurs in `keys`.
pub fn contains_key(keys: &Vec<Key>, key: Key) -> (r: bool)
    ensures
        r == keys@.contains(key),
{
    let mut i: usize = 0;
    while i < keys.len()
        invariant
            i <= keys.len(),
            forall|j: int| 0 <= j < i ==> keys@[j] != key,
        decreases keys.len() - i,
    {
        if keys[i] == key {
            return true;
        }
        i += 1;
    }
    false
}

impl InputHandler {
    /// The keys held in this frame.
    pub closed spec fn current(&self) -> Seq<Key> {
        self.current_keys@
    }

    /// The keys held in the frame before.
    pub closed spec fn previous(&self) -> Seq<Key> {
        self.previous_keys@
    }

    /// Whether `key` is held in this frame.
    pub open spec fn down(&self, key: Key) -> bool {
        self.current().contains(key)
    }

    /// Whether `key` was held in the frame before.
    pub open spec fn was_down(&self, key: Key) -> bool {
        self.previous().contains(key)
    }

    /// Whether `key` is held in this frame and was not in the frame before.
    pub open spec fn pressed(&self, key: Key) -> bool {
        self.down(key) && !self.was_down(key)
    }

    /// Whether `key` was held in the frame before and is not in this frame.
    pub open spec fn released(&self, key: Key) -> bool {
        !self.down(key) && self.was_down(key)
    }

    /// A handler that has seen no key yet.
    pub fn new() -> (r: InputHandler)
        ensures
            r.current() == Seq::<Key>::empty(),
            r.previous() == Seq::<Key>::empty(),
    {
        InputHandler { current_keys: Vec::new(), previous_keys: Vec::new() }
    }

    /// Begins a frame in which the keys `held` are held. What was held until
    /// now becomes what was held the frame before.
    pub fn update(&mut self, held: &Vec<Key>)
        ensures
            final(self).previous() == old(self).current(),
            final(self).current() == held_in_order(held@),
            forall|key: Key| final(self).down(key) == held@.contains(key),
    {
        let keys_to_check = tracked_keys();
        let ghost pred = |key: Key| held@.contains(key);
        let mut now: Vec<Key> = Vec::new();
        let mut i: usize = 0;
        assert(keys_to_check@.take(0) =~= Seq::<Key>::empty());
        reveal(Seq::filter);
        while i < keys_to_check.len()
            invariant
                i <= keys_to_check.len(),
                keys_to_check@ == tracked_keys_spec(),
                pred == (|key: Key| held@.contains(key)),
                now@ == keys_to_check@.take(i as int).filter(pred),
            decreases keys_to_check.len() - i,
        {
            let key = keys_to_check[i];
            proof {
                reveal(Seq::filter);
                assert(keys_to_check@.take(i + 1).drop_last() =~= keys_to_check@.take(i as int));
            }
            if contains_key(held, key) {
                now.push(key);
            }
            i += 1;
        }
        assert(keys_to_check@.take(i as int) =~= keys_to_check@);
        std::mem::swap(&mut self.previous_keys, &mut self.current_keys);
        self.current_keys = now;
        proof {
            lemma_held_in_order_contains(held@);
        }
    }

    /// Whether `key` is held in this frame.
    pub fn is_key_down(&self, key: Key) -> (r: bool)
        ensures
            r == self.down(key),
    {
        contains_key(&self.current_keys, key)
    }

    /// Whether `key` was held in the frame before.
    pub fn was_key_down(&self, key: Key) -> (r: bool)
        ensures
            r == self.was_down(key),
    {
        contains_key(&self.previous_keys, key)
    }

    /// Whether `key` was pressed in this frame: it is held now and was not
    /// the frame before.
    pub fn is_key_pressed(&self, key: Key) -> (r: bool)
        ensures
            r == self.pressed(key),
    {
        contains_key(&self.current_keys, key) && !contains_key(&self.previous_keys, key)
    }

    /// Whether `key` was released in this frame: it was held the frame before
    /// and is not now.
    pub fn is_key_released(&self, key: Key) -> (r: bool)
        ensures
            r == self.released(key),
    {
        !contains_key(&self.current_keys, key) && contains_key(&self.previous_keys, key)
    }

    /// What is held sideways: minus one unit for left, plus one for right,
    /// nothing for neither or both.
    pub fn get_horizontal_input(&self) -> (r: i64)
        ensures
            r == axis_input(
                self.down(Key::A) || self.down(Key::Left),
                self.down(Key::D) || self.down(Key::Right),
            ),
    {
        let mut horizontal: i64 = 0;
        if self.is_key_down(Key::A) || self.is_key_down(Key::Left) {
            horizontal -= SCALE;
        }
        if self.is_key_down(Key::D) || self.is_key_down(Key::Right) {
            horizontal += SCALE;
        }
        horizontal
    }

    /// What is held up and down: minus one unit for up, plus one for down,
    /// nothing for neither or both.
    pub fn get_vertical_input(&self) -> (r: i64)
        ensures
            r == axis_input(
                self.down(Key::W) || self.down(Key::Up),
                self.down(Key::S) || self.down(Key::Down),
            ),
    {
        let mut vertical: i64 = 0;
        if self.is_key_down(Key::W) || self.is_key_down(Key::Up) {
            vertical -= SCALE;
        }
        if self.is_key_down(Key::S) || self.is_key_down(Key::Down) {
            vertical += SCALE;
        }
        vertical
    }

    /// Whether a key that means "jump" was pressed in this frame.
    pub fn is_jump_pressed(&self) -> (r: bool)
        ensures
            r == (self.pressed(Key::Space) || self.pressed(Key::W) || self.pressed(Key::Up)),
    {
        self.is_key_pressed(Key::Space) || self.is_key_pressed(Key::W) || self.is_key_pressed(
            Key::Up,
        )
    }

    /// Whether a key that means "act" was pressed in this frame.
    pub fn is_action_pressed(&self) -> (r: bool)
        ensures
            r == (self.pressed(Key::Enter) || self.pressed(Key::Space)),
    {
        self.is_key_pressed(Key::Enter) || self.is_key_pressed(Key::Space)
    }

    /// Whether a key that means "pause" was pressed in this frame.
    pub fn is_pause_pressed(&self) -> (r: bool)
        ensures
            r == (self.pressed(Key::P) || self.pressed(Key::Escape)),
    {
        self.is_key_pressed(Key::P) || self.is_key_pressed(Key::Escape)
    }

    /// Whether the key that means "start again" was pressed in this frame.
    pub fn is_reset_pressed(&self) -> (r: bool)
        ensures
            r == self.pressed(Key::R),
    {
        self.is_key_pressed(Key::R)
    }

    /// The keys held in this frame.
    pub fn get_pressed_keys(&self) -> (r: &Vec<Key>)
        ensures
            r@ == self.current(),
    {
        &self.current_keys
    }

    /// Whether any key is held in this frame.
    pub fn any_key_pressed(&self) -> (r: bool)
        ensures
            r == (self.current().len() > 0),
    {
        self.current_keys.len() > 0
    }

    /// Whether any key was pressed in this frame.
    pub fn any_key_just_pressed(&self) -> (r: bool)
        ensures
            r == exists|key: Key| #[trigger] self.pressed(key),
    {
        let mut i: usize = 0;
        while i < self.current_keys.len()
            invariant
                i <= self.current_keys.len(),
                forall|j: int| 0 <= j < i ==> self.was_down(#[trigger] self.current_keys@[j]),
            decreases self.current_keys.len() - i,
        {
            if !contains_key(&self.previous_keys, self.current_keys[i]) {
                assert(self.pressed(self.current_keys@[i as int]));
                return true;
            }
            i += 1;
        }
        false
    }
}

impl Default for InputHandler {
    fn default() -> (r: InputHandler)
        ensures
            r.current() == Seq::<Key>::empty(),
            r.previous() == Seq::<Key>::empty(),
    {
        InputHandler::new()
    }
}

/// Every key is one that the game listens to.
pub proof fn lemma_every_key_is_tracked(key: Key)
    ensures
        tracked_keys_spec().contains(key),
{
    let keys = tracked_keys_spec();
    match key {
        Key::A => assert(keys[0] == key),
        Key::D => assert(keys[1] == key),
        Key::W => assert(keys[2] == key),
        Key::S => assert(keys[3] == key),
        Key::Space => assert(keys[4] == key),
        Key::Left => assert(keys[5] == key),
        Key::Right => assert(keys[6] == key),
        Key::Up => assert(keys[7] == key),
        Key::Down => assert(keys[8] == key),
        Key::Enter => assert(keys[9] == key),
        Key::Escape => assert(keys[10] == key),
        Key::R => assert(keys[11] == key),
        Key::P => assert(keys[12] == key),
    }
}

/// Listing the held keys in order loses none and adds none.
pub proof fn lemma_held_in_order_contains(held: Seq<Key>)
    ensures
        forall|key: Key| held_in_order(held).contains(key) == held.contains(key),
{
    let pred = |key: Key| held.contains(key);
    let keys = tracked_keys_spec();
    broadcast use vstd::seq_lib::group_filter_ensures;

    assert forall|key: Key| held_in_order(held).contains(key) == held.contains(key) by {
        if held.contains(key) {
            lemma_every_key_is_tracked(key);
            let i = choose|i: int| 0 <= i < keys.len() && keys[i] == key;
            assert(pred(keys[i]));
        }
        if held_in_order(held).contains(key) {
            let i = choose|i: int|
                0 <= i < held_in_order(held).len() && held_in_order(held)[i] == key;
            assert(pred(keys.filter(pred)[i]));
        }
    }
}

} // verus!
