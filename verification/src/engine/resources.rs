//! What a scene holds besides its entities: the clock, the keyboard
//! snapshot and the queue of draw commands.

use std::collections::HashMap;
use std::collections::VecDeque;
use vstd::prelude::*;
use crate::components::Rect;
use crate::util::vector::Vector2;

verus! {

/// How long a key counts as just pressed, in microseconds.
pub const JUST_PRESSED_WINDOW: u64 = 100_000;

/// The time that the last frame took, in microseconds.
#[derive(Clone, Copy, Debug, PartialEq, Eq, Structural)]
pub struct DeltaTime(pub u64);

impl Default for DeltaTime {
    fn default() -> (d: DeltaTime)
        ensures
            d.0 == 0,
    {
        DeltaTime(0)
    }
}

/// The keys that the simulation reads.
#[derive(Clone, Copy, Debug, Hash, PartialEq, Eq, Structural)]
pub enum KeyCode {
    A,
    D,
    Left,
    Right,
    Space,
}

impl KeyCode {
    /// The number under which a key is stored.
    pub open spec fn code(self) -> u64 {
        match self {
            KeyCode::A => 0,
            KeyCode::D => 1,
            KeyCode::Left => 2,
            KeyCode::Right => 3,
            KeyCode::Space => 4,
        }
    }

    /// The number under which this key is stored.
    pub fn index(&self) -> (c: u64)
        ensures
            c == self.code(),
    {
        match self {
            KeyCode::A => 0,
            KeyCode::D => 1,
            KeyCode::Left => 2,
            KeyCode::Right => 3,
            KeyCode::Space => 4,
        }
    }

    /// The key that is stored under the number `code`, if there is one.
    pub open spec fn of_code(code: u64) -> Option<KeyCode> {
        if code == 0 {
            Some(KeyCode::A)
        } else if code == 1 {
            Some(KeyCode::D)
        } else if code == 2 {
            Some(KeyCode::Left)
        } else if code == 3 {
            Some(KeyCode::Right)
        } else if code == 4 {
            Some(KeyCode::Space)
        } else {
            None
        }
    }

    /// A key is the key that is stored under its number.
    pub proof fn lemma_of_code(key: KeyCode)
        ensures
            Self::of_code(key.code()) == Some(key),
    {
    }

    /// Different keys are stored under different numbers.
    pub proof fn lemma_code_injective(a: KeyCode, b: KeyCode)
        ensures
            a.code() == b.code() <==> a == b,
    {
    }
}

/// A set of modifier keys.
#[derive(Clone, Copy, Debug, PartialEq, Eq, Structural)]
pub struct KeyMods {
    pub shift: bool,
    pub ctrl: bool,
    pub alt: bool,
    pub logo: bool,
}

impl KeyMods {
    /// The set without any modifier.
    pub open spec fn no_mods() -> KeyMods {
        KeyMods { shift: false, ctrl: false, alt: false, logo: false }
    }

    /// The set of the shift key alone.
    pub open spec fn shift_only() -> KeyMods {
        KeyMods { shift: true, ctrl: false, alt: false, logo: false }
    }

    /// The set without any modifier.
    pub fn none() -> (m: KeyMods)
        ensures
            m == Self::no_mods(),
    {
        KeyMods { shift: false, ctrl: false, alt: false, logo: false }
    }

    /// The set of the shift key alone.
    pub fn shift() -> (m: KeyMods)
        ensures
            m == Self::shift_only(),
    {
        KeyMods { shift: true, ctrl: false, alt: false, logo: false }
    }

    /// Whether every modifier of `other` is in this set.
    pub open spec fn includes(self, other: KeyMods) -> bool {
        &&& other.shift ==> self.shift
        &&& other.ctrl ==> self.ctrl
        &&& other.alt ==> self.alt
        &&& other.logo ==> self.logo
    }

    /// Whether every modifier of `other` is in this set.
    pub fn contains(&self, other: KeyMods) -> (r: bool)
        ensures
            r == self.includes(other),
    {
        (!other.shift || self.shift) && (!other.ctrl || self.ctrl) && (!other.alt || self.alt) && (
        !other.logo || self.logo)
    }
}

impl Default for KeyMods {
    fn default() -> (m: KeyMods)
        ensures
            m == KeyMods::no_mods(),
    {
        KeyMods::none()
    }
}

/// One sprite tile to draw: the atlas rectangle, the place on screen, the
/// scale, the anchor within the tile and the rotation.
#[derive(Clone, Copy, Debug, PartialEq, Eq, Structural)]
pub struct DrawCommand {
    pub src: Rect,
    pub dest: Vector2,
    pub scale: Vector2,
    pub offset: Vector2,
    pub rotation: i64,
}

/// The draw commands of the frame, oldest first.
pub struct Renderables(pub VecDeque<DrawCommand>);

impl Default for Renderables {
    fn default() -> (r: Renderables)
        ensures
            r.0@.len() == 0,
    {
        Renderables(VecDeque::new())
    }
}

/// The keyboard as it stood when the tick began: the keys held down, each
/// with the time at which it went down, the modifiers, and the time of the
/// snapshot. Times are in microseconds on one clock.
pub struct InputEvents {
    pub pressed_keys: HashMap<u64, u64>,
    pub active_mods: KeyMods,
    pub now: u64,
}

impl InputEvents {
    /// Whether `key` is held.
    pub open spec fn pressed(&self, key: KeyCode) -> bool {
        self.pressed_keys@.contains_key(key.code())
    }

    /// When `key` went down; meaningful for a held key.
    pub open spec fn pressed_at(&self, key: KeyCode) -> u64 {
        self.pressed_keys@[key.code()]
    }

    /// How long `key` has been held; meaningful for a held key. A press
    /// stamped later than the snapshot counts as held for no time.
    pub open spec fn held_for(&self, key: KeyCode) -> int {
        if self.pressed_at(key) <= self.now {
            self.now - self.pressed_at(key)
        } else {
            0
        }
    }

    /// Whether every modifier of `keymods` is active.
    pub fn is_mod_active(&self, keymods: KeyMods) -> (r: bool)
        ensures
            r == self.active_mods.includes(keymods),
    {
        self.active_mods.contains(keymods)
    }

    /// Whether `key` is held.
    pub fn is_key_pressed(&self, key: &KeyCode) -> (r: bool)
        ensures
            r == self.pressed(*key),
    {
        let code = key.index();
        self.pressed_keys.contains_key(&code)
    }

    /// When `key` went down, or `None` for a key that is not held.
    pub fn key_hold_time(&self, key: &KeyCode) -> (r: Option<u64>)
        ensures
            r == if self.pressed(*key) {
                Some(self.pressed_at(*key))
            } else {
                None
            },
    {
        let code = key.index();
        match self.pressed_keys.get(&code) {
            Some(at) => Some(*at),
            None => None,
        }
    }

    /// How long `key` has been held, or `None` for a key that is not held.
    pub fn key_held_for(&self, key: &KeyCode) -> (r: Option<u64>)
        ensures
            r.is_some() == self.pressed(*key),
            r matches Some(d) ==> d == self.held_for(*key),
    {
        match self.key_hold_time(key) {
            Some(at) => Some(
                if at <= self.now {
                    self.now - at
                } else {
                    0
                },
            ),
            None => None,
        }
    }

    /// Whether `key` is held and went down less than a tenth of a second ago.
    pub fn is_key_just_pressed(&self, key: &KeyCode) -> (r: bool)
        ensures
            r == (self.pressed(*key) && self.held_for(*key) < JUST_PRESSED_WINDOW),
    {
        match self.key_held_for(key) {
            Some(d) => d < JUST_PRESSED_WINDOW,
            None => false,
        }
    }

    /// Whether this is the snapshot taken at `now` after `before`: the held
    /// keys are exactly those of `held`, and nothing is stored but under the
    /// number of a held key; a key that was held before has kept the time at
    /// which it went down, a key newly held is stamped `now`.
    pub open spec fn refreshed(
        &self,
        before: InputEvents,
        held: Seq<KeyCode>,
        active_mods: KeyMods,
        now: u64,
    ) -> bool {
        &&& self.active_mods == active_mods
        &&& self.now == now
        &&& forall|key: KeyCode| #[trigger] self.pressed(key) <==> held.contains(key)
        &&& forall|code: u64| #[trigger]
            self.pressed_keys@.contains_key(code) ==> KeyCode::of_code(code).is_some()
                && held.contains(KeyCode::of_code(code).unwrap())
        &&& forall|key: KeyCode|
            held.contains(key) ==> #[trigger] self.pressed_at(key) == if before.pressed(key) {
                before.pressed_at(key)
            } else {
                now
            }
    }

    /// Takes a new snapshot: the held keys are exactly those of `held`; a key
    /// that was held before keeps the time at which it went down, a key newly
    /// held is stamped `now`.
    pub fn refresh(&mut self, held: &Vec<KeyCode>, active_mods: KeyMods, now: u64)
        ensures
            final(self).refreshed(*old(self), held@, active_mods, now),
    {
        let mut next: HashMap<u64, u64> = HashMap::new();
        let mut i: usize = 0;
        while i < held.len()
            invariant
                i <= held@.len(),
                self.pressed_keys@ == old(self).pressed_keys@,
                forall|key: KeyCode|
                    #[trigger] next@.contains_key(key.code()) <==> held@.take(i as int).contains(
                        key,
                    ),
                forall|code: u64| #[trigger]
                    next@.contains_key(code) ==> KeyCode::of_code(code).is_some() && held@.take(
                        i as int,
                    ).contains(KeyCode::of_code(code).unwrap()),
                forall|key: KeyCode|
                    next@.contains_key(key.code()) ==> #[trigger] next@[key.code()] == if old(
                        self,
                    ).pressed(key) {
                        old(self).pressed_at(key)
                    } else {
                        now
                    },
            decreases held@.len() - i,
        {
            let key = held[i];
            let code = key.index();
            let at = match self.pressed_keys.get(&code) {
                Some(at) => *at,
                None => now,
            };
            let ghost before = next@;
            next.insert(code, at);
            proof {
                assert(held@.take(i + 1) =~= held@.take(i as int).push(key));
                assert forall|c: u64| #[trigger] next@.contains_key(c) implies KeyCode::of_code(
                    c,
                ).is_some() && held@.take(i + 1).contains(KeyCode::of_code(c).unwrap()) by {
                    KeyCode::lemma_of_code(key);
                    if c != code {
                        assert(before.contains_key(c));
                    }
                    vstd::seq_lib::lemma_seq_contains_after_push(
                        held@.take(i as int),
                        key,
                        KeyCode::of_code(c).unwrap(),
                    );
                }
                assert forall|other: KeyCode| #[trigger]
                    next@.contains_key(other.code()) <==> held@.take(i + 1).contains(other) by {
                    KeyCode::lemma_code_injective(other, key);
                    vstd::seq_lib::lemma_seq_contains_after_push(held@.take(i as int), key, other);
                    assert(before.contains_key(other.code()) <==> held@.take(i as int).contains(
                        other,
                    ));
                }
                assert forall|other: KeyCode| next@.contains_key(other.code()) implies #[trigger]
                    next@[other.code()] == if old(self).pressed(other) {
                    old(self).pressed_at(other)
                } else {
                    now
                } by {
                    KeyCode::lemma_code_injective(other, key);
                    if other != key {
                        assert(before.contains_key(other.code()));
                        assert(next@[other.code()] == before[other.code()]);
                    }
                }
            }
            i += 1;
        }
        assert(held@.take(held@.len() as int) =~= held@);
        self.pressed_keys = next;
        self.active_mods = active_mods;
        self.now = now;
    }
}

impl Default for InputEvents {
    fn default() -> (e: InputEvents)
        ensures
            forall|key: KeyCode| !e.pressed(key),
            e.active_mods == KeyMods::no_mods(),
            e.now == 0,
    {
        InputEvents { pressed_keys: HashMap::new(), active_mods: KeyMods::none(), now: 0 }
    }
}

} // verus!
