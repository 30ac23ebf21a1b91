//! Input devices: the keyboard as a joypad, the ports handed to gamepads, and what a core
//! reads of the buttons.
use vstd::prelude::*;

verus! {

pub const RETRO_DEVICE_JOYPAD: u32 = 1;
pub const RETRO_DEVICE_ID_JOYPAD_B: u32 = 0;
pub const RETRO_DEVICE_ID_JOYPAD_Y: u32 = 1;
pub const RETRO_DEVICE_ID_JOYPAD_SELECT: u32 = 2;
pub const RETRO_DEVICE_ID_JOYPAD_START: u32 = 3;
pub const RETRO_DEVICE_ID_JOYPAD_UP: u32 = 4;
pub const RETRO_DEVICE_ID_JOYPAD_DOWN: u32 = 5;
pub const RETRO_DEVICE_ID_JOYPAD_LEFT: u32 = 6;
pub const RETRO_DEVICE_ID_JOYPAD_RIGHT: u32 = 7;
pub const RETRO_DEVICE_ID_JOYPAD_A: u32 = 8;
pub const RETRO_DEVICE_ID_JOYPAD_X: u32 = 9;
pub const RETRO_DEVICE_ID_JOYPAD_L: u32 = 10;
pub const RETRO_DEVICE_ID_JOYPAD_R: u32 = 11;
pub const RETRO_DEVICE_ID_JOYPAD_L2: u32 = 12;
pub const RETRO_DEVICE_ID_JOYPAD_R2: u32 = 13;
pub const RETRO_DEVICE_ID_JOYPAD_L3: u32 = 14;
pub const RETRO_DEVICE_ID_JOYPAD_R3: u32 = 15;
pub const RETRO_DEVICE_ID_JOYPAD_MASK: u32 = 256;

/// The port reported when every port the core supports is taken.
pub const INVALID_CONTROLLER_PORT: i16 = -1;

/// The kinds of input device.
#[derive(PartialEq, Eq, Structural, Clone, Copy)]
pub enum DeviceType {
    Gamepad,
    Keyboard,
}

/// The physical keys the keyboard joypad uses.
#[derive(PartialEq, Eq, Structural, Clone, Copy)]
pub enum NativeKey {
    KeyS,
    KeyA,
    KeyW,
    KeyD,
    KeyL,
    KeyI,
    KeyJ,
    KeyK,
    KeyQ,
    KeyE,
    KeyU,
    KeyO,
    KeyC,
    KeyN,
    Enter,
    Backspace,
}

/// One key of the keyboard joypad: the physical key, the joypad button it stands for, and
/// whether it is held.
#[derive(PartialEq, Eq, Structural, Clone, Copy)]
pub struct KeyboardKeymap {
    pub native: NativeKey,
    pub retro: u32,
    pub pressed: bool,
}

impl KeyboardKeymap {
    /// A key that is not held.
    pub fn new(native: NativeKey, retro: u32) -> (r: KeyboardKeymap)
        ensures
            r == (KeyboardKeymap { native, retro, pressed: false }),
    {
        KeyboardKeymap { native, retro, pressed: false }
    }

    /// The layout of the keyboard joypad: WASD for the pad, I/L/J/K for A/B/X/Y, Q/E and
    /// U/O for the shoulders, C/N for the sticks, Enter and Backspace for start and select.
    pub open spec fn default_layout() -> Seq<(NativeKey, u32)> {
        seq![
            (NativeKey::KeyS, RETRO_DEVICE_ID_JOYPAD_DOWN),
            (NativeKey::KeyA, RETRO_DEVICE_ID_JOYPAD_LEFT),
            (NativeKey::KeyW, RETRO_DEVICE_ID_JOYPAD_UP),
            (NativeKey::KeyD, RETRO_DEVICE_ID_JOYPAD_RIGHT),
            (NativeKey::KeyL, RETRO_DEVICE_ID_JOYPAD_B),
            (NativeKey::KeyI, RETRO_DEVICE_ID_JOYPAD_A),
            (NativeKey::KeyJ, RETRO_DEVICE_ID_JOYPAD_X),
            (NativeKey::KeyK, RETRO_DEVICE_ID_JOYPAD_Y),
            (NativeKey::KeyQ, RETRO_DEVICE_ID_JOYPAD_L),
            (NativeKey::KeyE, RETRO_DEVICE_ID_JOYPAD_R),
            (NativeKey::KeyU, RETRO_DEVICE_ID_JOYPAD_L2),
            (NativeKey::KeyO, RETRO_DEVICE_ID_JOYPAD_R2),
            (NativeKey::KeyC, RETRO_DEVICE_ID_JOYPAD_L3),
            (NativeKey::KeyN, RETRO_DEVICE_ID_JOYPAD_R3),
            (NativeKey::Enter, RETRO_DEVICE_ID_JOYPAD_START),
            (NativeKey::Backspace, RETRO_DEVICE_ID_JOYPAD_SELECT),
        ]
    }

    /// The keys of the default layout, none held.
    pub fn get_default_key_maps() -> (r: Vec<KeyboardKeymap>)
        ensures
            r@.len() == Self::default_layout().len(),
            forall|i: int|
                0 <= i < r@.len() ==> (#[trigger] r@[i]).native == Self::default_layout()[i].0
                    && r@[i].retro == Self::default_layout()[i].1 && !r@[i].pressed,
            forall|i: int| 0 <= i < r@.len() ==> (#[trigger] r@[i]).retro == joypad_button_of(r@[i].native),
    {
        let r = vec![
            KeyboardKeymap::new(NativeKey::KeyS, RETRO_DEVICE_ID_JOYPAD_DOWN),
            KeyboardKeymap::new(NativeKey::KeyA, RETRO_DEVICE_ID_JOYPAD_LEFT),
            KeyboardKeymap::new(NativeKey::KeyW, RETRO_DEVICE_ID_JOYPAD_UP),
            KeyboardKeymap::new(NativeKey::KeyD, RETRO_DEVICE_ID_JOYPAD_RIGHT),
            KeyboardKeymap::new(NativeKey::KeyL, RETRO_DEVICE_ID_JOYPAD_B),
            KeyboardKeymap::new(NativeKey::KeyI, RETRO_DEVICE_ID_JOYPAD_A),
            KeyboardKeymap::new(NativeKey::KeyJ, RETRO_DEVICE_ID_JOYPAD_X),
            KeyboardKeymap::new(NativeKey::KeyK, RETRO_DEVICE_ID_JOYPAD_Y),
            KeyboardKeymap::new(NativeKey::KeyQ, RETRO_DEVICE_ID_JOYPAD_L),
            KeyboardKeymap::new(NativeKey::KeyE, RETRO_DEVICE_ID_JOYPAD_R),
            KeyboardKeymap::new(NativeKey::KeyU, RETRO_DEVICE_ID_JOYPAD_L2),
            KeyboardKeymap::new(NativeKey::KeyO, RETRO_DEVICE_ID_JOYPAD_R2),
            KeyboardKeymap::new(NativeKey::KeyC, RETRO_DEVICE_ID_JOYPAD_L3),
            KeyboardKeymap::new(NativeKey::KeyN, RETRO_DEVICE_ID_JOYPAD_R3),
            KeyboardKeymap::new(NativeKey::Enter, RETRO_DEVICE_ID_JOYPAD_START),
            KeyboardKeymap::new(NativeKey::Backspace, RETRO_DEVICE_ID_JOYPAD_SELECT),
        ];
        r
    }
}

/// The joypad button the keyboard joypad gives each key, by its number in the libretro API:
/// W up (4), A left (6), S down (5), D right (7), L B (0), I A (8), J X (9), K Y (1), Q L
/// (10), E R (11), U L2 (12), O R2 (13), C L3 (14), N R3 (15), Enter start (3), Backspace
/// select (2).
pub open spec fn joypad_button_of(k: NativeKey) -> u32 {
    match k {
        NativeKey::KeyW => 4,
        NativeKey::KeyA => 6,
        NativeKey::KeyS => 5,
        NativeKey::KeyD => 7,
        NativeKey::KeyL => 0,
        NativeKey::KeyI => 8,
        NativeKey::KeyJ => 9,
        NativeKey::KeyK => 1,
        NativeKey::KeyQ => 10,
        NativeKey::KeyE => 11,
        NativeKey::KeyU => 12,
        NativeKey::KeyO => 13,
        NativeKey::KeyC => 14,
        NativeKey::KeyN => 15,
        NativeKey::Enter => 3,
        NativeKey::Backspace => 2,
    }
}

/// The default layout gives every key its button: each of the sixteen keys appears once,
/// standing for the button `joypad_button_of` names.
pub proof fn law_default_layout()
    ensures
        KeyboardKeymap::default_layout().len() == 16,
        forall|i: int|
            0 <= i < 16 ==> (#[trigger] KeyboardKeymap::default_layout()[i]).1 == joypad_button_of(
                KeyboardKeymap::default_layout()[i].0,
            ),
        forall|i: int, j: int|
            0 <= i < j < 16 ==> (#[trigger] KeyboardKeymap::default_layout()[i]).0 != (#[trigger] KeyboardKeymap::default_layout()[j]).0,
{
}

/// A key layout a joypad can use: each key stands for a different button below sixteen.
pub open spec fn keymap_wf(km: Seq<KeyboardKeymap>) -> bool {
    &&& forall|i: int| 0 <= i < km.len() ==> (#[trigger] km[i]).retro < 16
    &&& forall|i: int, j: int| 0 <= i < j < km.len() ==> (#[trigger] km[i]).retro != (#[trigger] km[j]).retro
}

/// The first key standing for button `key_id`, at `i` or after.
pub open spec fn find_button_from(km: Seq<KeyboardKeymap>, key_id: i16, i: int) -> Option<int>
    decreases km.len() - i,
{
    if i < 0 || i >= km.len() {
        None
    } else if km[i].retro as i16 == key_id {
        Some(i)
    } else {
        find_button_from(km, key_id, i + 1)
    }
}

/// What the core reads for button `key_id`: 1 when the first key standing for it is held, 0
/// otherwise.
pub open spec fn key_pressed_spec(km: Seq<KeyboardKeymap>, key_id: i16) -> i16 {
    match find_button_from(km, key_id, 0) {
        Some(i) => if km[i].pressed {
            1
        } else {
            0
        },
        None => 0,
    }
}

/// Whether some held key stands for button `b`.
pub open spec fn button_held(km: Seq<KeyboardKeymap>, b: u32) -> bool {
    exists|j: int| 0 <= j < km.len() && (#[trigger] km[j]).retro == b && km[j].pressed
}

/// What a device reports to a core.
pub trait DevicesRequiredFunctions {
    /// 1 if the button is held, 0 if not.
    fn get_key_pressed(&self, key_id: i16) -> i16;

    /// One bit per button, set when the button is held.
    fn get_key_bitmasks(&self) -> i16;
}

/// The keyboard, used as a joypad.
pub struct Keyboard {
    retro_port: i16,
    retro_type: u32,
    key_map: Vec<KeyboardKeymap>,
}

proof fn lemma_bit_or(m: u16, r: u32, i: u32)
    requires
        r < 16,
        i < 16,
    ensures
        ((m | (1u16 << r)) >> i) & 1 == 1 <==> ((m >> i) & 1 == 1 || i == r),
{
    assert(((m | (1u16 << r)) >> i) & 1 == 1 <==> ((m >> i) & 1 == 1 || i == r)) by (bit_vector)
        requires
            r < 16,
            i < 16,
    ;
}

proof fn lemma_bit_zero(i: u32)
    requires
        i < 16,
    ensures
        (0u16 >> i) & 1 == 0,
{
    assert((0u16 >> i) & 1 == 0) by (bit_vector);
}

impl Keyboard {
    #[verifier::type_invariant]
    spec fn inv(self) -> bool {
        keymap_wf(self.key_map@)
    }

    /// The keys of the keyboard joypad.
    pub closed spec fn keymap(&self) -> Seq<KeyboardKeymap> {
        self.key_map@
    }

    /// The port the keyboard plays on.
    pub closed spec fn port(&self) -> i16 {
        self.retro_port
    }

    /// The device kind the keyboard stands for.
    pub closed spec fn device(&self) -> u32 {
        self.retro_type
    }

    /// A keyboard on port 0, standing for a joypad, with the default layout and no key held.
    pub fn new() -> (r: Keyboard)
        ensures
            r.port() == 0,
            r.device() == RETRO_DEVICE_JOYPAD,
            r.keymap().len() == KeyboardKeymap::default_layout().len(),
            forall|i: int|
                0 <= i < r.keymap().len() ==> (#[trigger] r.keymap()[i]).native
                    == KeyboardKeymap::default_layout()[i].0 && r.keymap()[i].retro
                    == KeyboardKeymap::default_layout()[i].1 && !r.keymap()[i].pressed,
            forall|i: int|
                0 <= i < r.keymap().len() ==> (#[trigger] r.keymap()[i]).retro == joypad_button_of(
                    r.keymap()[i].native,
                ),
    {
        let key_map = KeyboardKeymap::get_default_key_maps();
        assert(keymap_wf(key_map@)) by {
            let d = KeyboardKeymap::default_layout();
            assert forall|i: int, j: int| 0 <= i < j < key_map@.len() implies (#[trigger] key_map@[i]).retro
                != (#[trigger] key_map@[j]).retro by {
                assert(key_map@[i].retro == d[i].1);
                assert(key_map@[j].retro == d[j].1);
            }
            assert forall|i: int| 0 <= i < key_map@.len() implies (#[trigger] key_map@[i]).retro < 16 by {
                assert(key_map@[i].retro == d[i].1);
            }
        }
        Keyboard { retro_port: 0, retro_type: RETRO_DEVICE_JOYPAD, key_map }
    }

    /// The port the keyboard plays on.
    pub fn retro_port(&self) -> (r: i16)
        ensures
            r == self.port(),
    {
        self.retro_port
    }

    /// The device kind the keyboard stands for.
    pub fn retro_type(&self) -> (r: u32)
        ensures
            r == self.device(),
    {
        self.retro_type
    }

    /// Holds or releases every key that is the physical key `native`.
    pub fn set_key_pressed(&mut self, native: NativeKey, pressed: bool)
        ensures
            final(self).port() == old(self).port(),
            final(self).device() == old(self).device(),
            final(self).keymap().len() == old(self).keymap().len(),
            forall|i: int|
                0 <= i < old(self).keymap().len() ==> (#[trigger] final(self).keymap()[i]) == (if old(
                    self,
                ).keymap()[i].native == native {
                    KeyboardKeymap { pressed, ..old(self).keymap()[i] }
                } else {
                    old(self).keymap()[i]
                }),
    {
        proof {
            use_type_invariant(&*self);
        }
        let ghost before = self.key_map@;
        let mut km: Vec<KeyboardKeymap> = Vec::new();
        std::mem::swap(&mut km, &mut self.key_map);
        assert(km@ == before);
        let n = km.len();
        let mut i: usize = 0;
        while i < n
            invariant
                n == km.len(),
                n == before.len(),
                i <= n,
                keymap_wf(before),
                forall|j: int| 0 <= j < i ==> (#[trigger] km@[j]) == (if before[j].native == native {
                    KeyboardKeymap { pressed, ..before[j] }
                } else {
                    before[j]
                }),
                forall|j: int| i <= j < n ==> (#[trigger] km@[j]) == before[j],
            decreases n - i,
        {
            if km[i].native == native {
                let k = KeyboardKeymap { pressed, ..km[i] };
                km.set(i, k);
            }
            i = i + 1;
        }
        assert(keymap_wf(km@)) by {
            assert forall|a: int| 0 <= a < km@.len() implies (#[trigger] km@[a]).retro == before[a].retro by {}
        }
        self.key_map = km;
    }
}

impl DevicesRequiredFunctions for Keyboard {
    /// 1 when the first key standing for button `key_id` is held, 0 otherwise.
    fn get_key_pressed(&self, key_id: i16) -> (r: i16)
        ensures
            r == key_pressed_spec(self.keymap(), key_id),
    {
        let n = self.key_map.len();
        let mut i: usize = 0;
        while i < n
            invariant
                n == self.key_map.len(),
                i <= n,
                find_button_from(self.key_map@, key_id, 0) == find_button_from(self.key_map@, key_id, i as int),
            decreases n - i,
        {
            if self.key_map[i].retro as i16 == key_id {
                return if self.key_map[i].pressed {
                    1
                } else {
                    0
                };
            }
            i = i + 1;
        }
        0
    }

    /// Bit `b` is set exactly when some held key stands for button `b`.
    fn get_key_bitmasks(&self) -> (r: i16)
        ensures
            forall|b: u32| b < 16 ==> (((r as u16) >> b) & 1 == 1 <==> button_held(self.keymap(), b)),
    {
        proof {
            use_type_invariant(self);
        }
        let n = self.key_map.len();
        let mut mask: u16 = 0;
        let mut i: usize = 0;
        proof {
            assert forall|b: u32| b < 16 implies ((mask >> b) & 1 == 1 <==> exists|j: int|
                0 <= j < 0 && (#[trigger] self.key_map@[j]).retro == b && self.key_map@[j].pressed) by {
                lemma_bit_zero(b);
            }
        }
        while i < n
            invariant
                n == self.key_map.len(),
                i <= n,
                keymap_wf(self.key_map@),
                forall|b: u32|
                    b < 16 ==> ((mask >> b) & 1 == 1 <==> exists|j: int|
                        0 <= j < i && (#[trigger] self.key_map@[j]).retro == b && self.key_map@[j].pressed),
            decreases n - i,
        {
            let k = self.key_map[i];
            let ghost old_mask = mask;
            if k.pressed {
                mask = mask | (1u16 << k.retro);
            }
            proof {
                assert forall|b: u32| b < 16 implies ((mask >> b) & 1 == 1 <==> exists|j: int|
                    0 <= j < i + 1 && (#[trigger] self.key_map@[j]).retro == b
                        && self.key_map@[j].pressed) by {
                    if k.pressed {
                        lemma_bit_or(old_mask, k.retro, b);
                    }
                    if exists|j: int| 0 <= j < i + 1 && (#[trigger] self.key_map@[j]).retro == b
                        && self.key_map@[j].pressed {
                        let j = choose|j: int| 0 <= j < i + 1 && (#[trigger] self.key_map@[j]).retro == b
                            && self.key_map@[j].pressed;
                        if j < i {
                        } else {
                            assert(self.key_map@[j] == k);
                        }
                    }
                }
            }
            i = i + 1;
        }
        let r = mask as i16;
        assert(r as u16 == mask) by (bit_vector)
            requires
                r == mask as i16,
        ;
        r
    }
}

/// Reading a button and reading the bits agree: with the keyboard's layout, button `b` reads
/// 1 exactly when bit `b` of the bits is set.
pub proof fn law_pressed_matches_bitmask(km: Seq<KeyboardKeymap>, b: u32, mask: i16)
    requires
        keymap_wf(km),
        b < 16,
        forall|c: u32| c < 16 ==> (((mask as u16) >> c) & 1 == 1 <==> button_held(km, c)),
    ensures
        (key_pressed_spec(km, b as i16) == 1) <==> ((mask as u16) >> b) & 1 == 1,
{
    match find_button_from(km, b as i16, 0) {
        Some(i) => {
            lemma_find_button_some(km, b as i16, 0, i);
            assert(km[i].retro as i16 == b as i16);
            assert(km[i].retro == b);
            if button_held(km, b) {
                let j = choose|j: int| 0 <= j < km.len() && (#[trigger] km[j]).retro == b && km[j].pressed;
                if j != i {
                    if j < i {
                        assert(km[j].retro != km[i].retro);
                    } else {
                        assert(km[i].retro != km[j].retro);
                    }
                }
            }
        },
        None => {
            lemma_find_button_none(km, b as i16, 0);
            if button_held(km, b) {
                let j = choose|j: int| 0 <= j < km.len() && (#[trigger] km[j]).retro == b && km[j].pressed;
                assert(km[j].retro as i16 == b as i16);
            }
        },
    }
}

proof fn lemma_find_button_some(km: Seq<KeyboardKeymap>, key_id: i16, from: int, i: int)
    requires
        0 <= from,
        find_button_from(km, key_id, from) == Some(i),
    ensures
        from <= i < km.len(),
        km[i].retro as i16 == key_id,
    decreases km.len() - from,
{
    if km[from].retro as i16 != key_id {
        lemma_find_button_some(km, key_id, from + 1, i);
    }
}

proof fn lemma_find_button_none(km: Seq<KeyboardKeymap>, key_id: i16, from: int)
    requires
        0 <= from,
        find_button_from(km, key_id, from) is None,
    ensures
        forall|j: int| from <= j < km.len() ==> (#[trigger] km[j]).retro as i16 != key_id,
    decreases km.len() - from,
{
    if from < km.len() {
        lemma_find_button_none(km, key_id, from + 1);
    }
}

/// A gamepad the front end handed a port to.
pub struct RetroGamePad {
    pub id: u128,
    pub inner_id: usize,
    pub name: String,
    pub retro_port: i16,
    pub retro_type: u32,
}

impl RetroGamePad {
    /// A gamepad with the given identity and port.
    pub fn new(id: u128, inner_id: usize, name: String, retro_port: i16, retro_type: u32) -> (r: RetroGamePad)
        ensures
            r == (RetroGamePad { id, inner_id, name, retro_port, retro_type }),
    {
        RetroGamePad { id, inner_id, name, retro_port, retro_type }
    }

    /// A copy of this gamepad.
    pub fn copy(&self) -> (r: RetroGamePad)
        ensures
            r == *self,
    {
        RetroGamePad {
            id: self.id,
            inner_id: self.inner_id,
            name: self.name.clone(),
            retro_port: self.retro_port,
            retro_type: self.retro_type,
        }
    }
}

/// A device as listeners see it.
pub struct Device {
    pub id: u128,
    pub name: String,
    pub retro_port: i16,
    pub retro_type: u32,
    pub device_type: DeviceType,
}

impl PartialEq for Device {
    /// Two devices are the same device when their ids are equal.
    fn eq(&self, other: &Self) -> (r: bool) {
        self.id == other.id
    }
}

impl vstd::std_specs::cmp::PartialEqSpecImpl for Device {
    open spec fn obeys_eq_spec() -> bool {
        true
    }

    open spec fn eq_spec(&self, other: &Device) -> bool {
        self.id == other.id
    }
}

impl Device {
    /// The device a gamepad is.
    pub fn from_gamepad(gamepad: &RetroGamePad) -> (r: Device)
        ensures
            r.id == gamepad.id,
            r.name == gamepad.name,
            r.retro_port == gamepad.retro_port,
            r.retro_type == gamepad.retro_type,
            r.device_type == DeviceType::Gamepad,
    {
        Device {
            id: gamepad.id,
            device_type: DeviceType::Gamepad,
            name: gamepad.name.clone(),
            retro_port: gamepad.retro_port,
            retro_type: gamepad.retro_type,
        }
    }
}

/// Whether some gamepad is on port `p`.
pub open spec fn port_held(pads: Seq<RetroGamePad>, p: int) -> bool {
    exists|j: int| 0 <= j < pads.len() && (#[trigger] pads[j]).retro_port == p
}

/// The last port a gamepad can be given: the last one the core supports, as far as a port
/// number reaches.
pub open spec fn last_port(max_ports: usize) -> int {
    if max_ports <= i16::MAX {
        max_ports as int
    } else {
        i16::MAX as int
    }
}

/// The lowest port from `p` up to `last` that no gamepad holds, or `-1` when every one of
/// them is held.
pub open spec fn first_free_port(pads: Seq<RetroGamePad>, last: int, p: int) -> int
    decreases last + 1 - p,
{
    if p < 0 || p > last {
        -1
    } else if !port_held(pads, p) {
        p
    } else {
        first_free_port(pads, last, p + 1)
    }
}

/// The highest port among the gamepads.
pub open spec fn max_port(pads: Seq<RetroGamePad>) -> i16
    recommends
        pads.len() > 0,
    decreases pads.len(),
{
    if pads.len() <= 1 {
        pads[0].retro_port
    } else {
        let m = max_port(pads.drop_last());
        if pads.last().retro_port > m {
            pads.last().retro_port
        } else {
            m
        }
    }
}

/// Whether the port after the highest one held is one the core supports.
pub open spec fn next_port_fits(max_ports: usize, pads: Seq<RetroGamePad>) -> bool {
    pads.len() > 0 && 0 <= max_port(pads) + 1 <= last_port(max_ports)
}

/// The port for a new gamepad: the one after the highest port held when the core supports
/// it; otherwise the lowest port the core supports that no gamepad holds (0 with no gamepad),
/// or `-1` when every one is taken.
pub open spec fn available_port_spec(max_ports: usize, pads: Seq<RetroGamePad>) -> i16 {
    if next_port_fits(max_ports, pads) {
        (max_port(pads) + 1) as i16
    } else {
        first_free_port(pads, last_port(max_ports), 0) as i16
    }
}

proof fn lemma_max_port(pads: Seq<RetroGamePad>)
    requires
        pads.len() > 0,
    ensures
        forall|j: int| 0 <= j < pads.len() ==> (#[trigger] pads[j]).retro_port <= max_port(pads),
        exists|j: int| 0 <= j < pads.len() && (#[trigger] pads[j]).retro_port == max_port(pads),
    decreases pads.len(),
{
    if pads.len() > 1 {
        lemma_max_port(pads.drop_last());
        let j = choose|j: int| 0 <= j < pads.drop_last().len() && (#[trigger] pads.drop_last()[j]).retro_port
            == max_port(pads.drop_last());
        assert(pads[j] == pads.drop_last()[j]);
        assert(pads[pads.len() - 1] == pads.last());
        assert forall|k: int| 0 <= k < pads.len() implies (#[trigger] pads[k]).retro_port <= max_port(pads) by {
            if k < pads.len() - 1 {
                assert(pads[k] == pads.drop_last()[k]);
            }
        }
    } else {
        assert(pads[0].retro_port == max_port(pads));
    }
}

/// The port after the highest one held is free.
proof fn lemma_next_port_free(pads: Seq<RetroGamePad>)
    requires
        pads.len() > 0,
    ensures
        !port_held(pads, max_port(pads) + 1),
{
    lemma_max_port(pads);
    if port_held(pads, max_port(pads) + 1) {
        let j = choose|j: int| 0 <= j < pads.len() && (#[trigger] pads[j]).retro_port == max_port(pads) + 1;
        assert(pads[j].retro_port <= max_port(pads));
    }
}

proof fn lemma_first_free_port(pads: Seq<RetroGamePad>, last: int, p: int)
    requires
        0 <= p,
    ensures
        first_free_port(pads, last, p) == -1 <==> forall|q: int| p <= q <= last ==> port_held(pads, q),
        first_free_port(pads, last, p) != -1 ==> {
            let r = first_free_port(pads, last, p);
            &&& p <= r <= last
            &&& !port_held(pads, r)
            &&& forall|q: int| p <= q < r ==> port_held(pads, q)
        },
    decreases last + 1 - p,
{
    if p <= last && port_held(pads, p) {
        lemma_first_free_port(pads, last, p + 1);
        assert forall|q: int| p <= q <= last && (forall|k: int| p + 1 <= k <= last ==> port_held(pads, k)) implies port_held(pads, q) by {
            if q > p {
                assert(p + 1 <= q <= last);
            }
        }
    }
}

fn port_held_exec(pads: &Vec<RetroGamePad>, p: i32) -> (r: bool)
    ensures
        r == port_held(pads@, p as int),
{
    let mut i: usize = 0;
    while i < pads.len()
        invariant
            i <= pads@.len(),
            forall|j: int| 0 <= j < i ==> (#[trigger] pads@[j]).retro_port != p,
        decreases pads@.len() - i,
    {
        if pads[i].retro_port as i32 == p {
            return true;
        }
        i = i + 1;
    }
    false
}

/// The port for a new gamepad, given the last port the core supports: the one after the
/// highest port held when the core supports it; otherwise the lowest port no gamepad holds,
/// or `-1` when every supported port is taken.
pub fn get_available_port(max_ports: usize, connected_gamepads: &Vec<RetroGamePad>) -> (r: i16)
    ensures
        r == available_port_spec(max_ports, connected_gamepads@),
        next_port_fits(max_ports, connected_gamepads@) ==> r == max_port(connected_gamepads@) + 1,
        !next_port_fits(max_ports, connected_gamepads@) && r != INVALID_CONTROLLER_PORT ==> forall|p: int|
            0 <= p < r ==> port_held(connected_gamepads@, p),
        r == INVALID_CONTROLLER_PORT <==> forall|p: int|
            0 <= p <= last_port(max_ports) ==> port_held(connected_gamepads@, p),
        r != INVALID_CONTROLLER_PORT ==> 0 <= r <= max_ports && !port_held(connected_gamepads@, r as int),
{
    let ghost pads = connected_gamepads@;
    let last: i32 = if max_ports <= 32767 {
        max_ports as i32
    } else {
        32767
    };
    assert(last == last_port(max_ports));
    proof {
        lemma_first_free_port(pads, last as int, 0);
    }
    let n = connected_gamepads.len();
    if n > 0 {
        let mut m = connected_gamepads[0].retro_port;
        let mut i: usize = 1;
        assert(pads.take(1).drop_last() =~= seq![]);
        while i < n
            invariant
                pads == connected_gamepads@,
                n == pads.len(),
                1 <= i <= n,
                m == max_port(pads.take(i as int)),
            decreases n - i,
        {
            let p = connected_gamepads[i].retro_port;
            assert(pads.take(i + 1).drop_last() =~= pads.take(i as int));
            if p > m {
                m = p;
            }
            i = i + 1;
        }
        assert(pads.take(n as int) =~= pads);
        let next: i32 = m as i32 + 1;
        if 0 <= next && next <= last {
            proof {
                lemma_next_port_free(pads);
                if forall|p: int| 0 <= p <= last_port(max_ports) ==> port_held(pads, p) {
                    assert(port_held(pads, next as int));
                }
            }
            return next as i16;
        }
    }
    let mut p: i32 = 0;
    while p <= last
        invariant
            pads == connected_gamepads@,
            last == last_port(max_ports),
            0 <= p <= last + 1,
            !next_port_fits(max_ports, pads),
            first_free_port(pads, last as int, 0) == first_free_port(pads, last as int, p as int),
        decreases last + 1 - p,
    {
        if !port_held_exec(connected_gamepads, p) {
            assert(first_free_port(pads, last as int, p as int) == p as int);
            proof {
                lemma_first_free_port(pads, last as int, 0);
            }
            assert((p as i16) as int == p as int);
            return p as i16;
        }
        p = p + 1;
    }
    INVALID_CONTROLLER_PORT
}

/// The gamepads without those whose inner id is `id`.
pub open spec fn without_pad(pads: Seq<RetroGamePad>, id: usize) -> Seq<RetroGamePad>
    decreases pads.len(),
{
    if pads.len() == 0 {
        seq![]
    } else {
        without_pad(pads.drop_last(), id) + if pads.last().inner_id == id {
            seq![]
        } else {
            seq![pads.last()]
        }
    }
}

/// The first gamepad, at `i` or after, whose inner id is `id`.
pub open spec fn find_pad_from(pads: Seq<RetroGamePad>, id: usize, i: int) -> Option<int>
    decreases pads.len() - i,
{
    if i < 0 || i >= pads.len() {
        None
    } else if pads[i].inner_id == id {
        Some(i)
    } else {
        find_pad_from(pads, id, i + 1)
    }
}

proof fn lemma_find_pad_some(pads: Seq<RetroGamePad>, id: usize, from: int, k: int)
    requires
        0 <= from,
        find_pad_from(pads, id, from) == Some(k),
    ensures
        from <= k < pads.len(),
        pads[k].inner_id == id,
    decreases pads.len() - from,
{
    if pads[from].inner_id != id {
        lemma_find_pad_some(pads, id, from + 1, k);
    }
}

/// After a gamepad is removed, no gamepad with its inner id is left, and every other one
/// stays.
pub proof fn law_removed_pad_is_gone(pads: Seq<RetroGamePad>, id: usize)
    ensures
        forall|j: int| 0 <= j < without_pad(pads, id).len() ==> (#[trigger] without_pad(pads, id)[j]).inner_id != id,
        forall|j: int| 0 <= j < pads.len() && pads[j].inner_id != id ==> without_pad(pads, id).contains(#[trigger] pads[j]),
    decreases pads.len(),
{
    if pads.len() > 0 {
        let init = pads.drop_last();
        law_removed_pad_is_gone(init, id);
        let tail = if pads.last().inner_id == id { seq![] } else { seq![pads.last()] };
        let w = without_pad(pads, id);
        assert(w == without_pad(init, id) + tail);
        assert forall|j: int| 0 <= j < w.len() implies (#[trigger] w[j]).inner_id != id by {
            if j < without_pad(init, id).len() {
                assert(w[j] == without_pad(init, id)[j]);
            }
        }
        assert forall|j: int| 0 <= j < pads.len() && pads[j].inner_id != id implies w.contains(#[trigger] pads[j]) by {
            if j < pads.len() - 1 {
                assert(pads[j] == init[j]);
                let k = choose|k: int| 0 <= k < without_pad(init, id).len() && without_pad(init, id)[k] == init[j];
                assert(w[k] == without_pad(init, id)[k]);
            } else {
                assert(w[w.len() - 1] == pads.last());
            }
        }
    }
}

/// Takes out every gamepad whose inner id is `id`, and returns the first of them.
pub fn remove(id: usize, connected_gamepads: &mut Vec<RetroGamePad>) -> (r: Option<RetroGamePad>)
    ensures
        final(connected_gamepads)@ == without_pad(old(connected_gamepads)@, id),
        match find_pad_from(old(connected_gamepads)@, id, 0) {
            None => r is None,
            Some(i) => r == Some(old(connected_gamepads)@[i]),
        },
{
    let ghost pads = connected_gamepads@;
    let n = connected_gamepads.len();
    let mut kept: Vec<RetroGamePad> = Vec::new();
    let mut found: Option<RetroGamePad> = None;
    let mut i: usize = 0;
    proof {
        match find_pad_from(pads, id, 0) {
            None => {},
            Some(k) => {
                lemma_find_pad_some(pads, id, 0, k);
            },
        }
        assert(pads.take(0) =~= seq![]);
    }
    while i < n
        invariant
            n == connected_gamepads@.len(),
            pads == connected_gamepads@,
            pads == old(connected_gamepads)@,
            i <= n,
            kept@ == without_pad(pads.take(i as int), id),
            match find_pad_from(pads, id, 0) {
                None => found is None,
                Some(k) => if k < i {
                    found == Some(pads[k])
                } else {
                    found is None && find_pad_from(pads, id, i as int) == Some(k)
                },
            },
            find_pad_from(pads, id, 0) is None ==> find_pad_from(pads, id, i as int) is None,
        decreases n - i,
    {
        let g = connected_gamepads[i].copy();
        assert(pads.take(i + 1).drop_last() =~= pads.take(i as int));
        proof {
            match find_pad_from(pads, id, 0) {
                None => {},
                Some(k) => {
                    lemma_find_pad_some(pads, id, 0, k);
                    if k >= i {
                        lemma_find_pad_some(pads, id, i as int, k);
                    }
                },
            }
        }
        if g.inner_id == id {
            if found.is_none() {
                found = Some(g);
            }
        } else {
            kept.push(g);
            assert(kept@ =~= without_pad(pads.take(i + 1), id));
        }
        i = i + 1;
    }
    assert(pads.take(n as int) =~= pads);
    *connected_gamepads = kept;
    found
}

/// Connects a gamepad: it gets the lowest free port and joins the list; the returned copy is
/// the one listeners hear about.
pub fn connect_gamepad(
    connected_gamepads: &mut Vec<RetroGamePad>,
    max_ports: usize,
    id: u128,
    inner_id: usize,
    name: String,
) -> (r: RetroGamePad)
    ensures
        r == (RetroGamePad {
            id,
            inner_id,
            name,
            retro_port: available_port_spec(max_ports, old(connected_gamepads)@),
            retro_type: RETRO_DEVICE_JOYPAD,
        }),
        final(connected_gamepads)@ == old(connected_gamepads)@.push(r),
{
    let port = get_available_port(max_ports, connected_gamepads);
    let gamepad = RetroGamePad::new(id, inner_id, name, port, RETRO_DEVICE_JOYPAD);
    connected_gamepads.push(gamepad.copy());
    gamepad
}

/// The devices to tell about a button press on the gamepad with inner id `id`: the gamepads
/// at the head of the list that have that id, up to the first that does not.
pub fn pressed_button_targets(connected_gamepads: &Vec<RetroGamePad>, id: usize) -> (r: Vec<Device>)
    ensures
        r@.len() <= connected_gamepads@.len(),
        forall|j: int| 0 <= j < r@.len() ==> (#[trigger] connected_gamepads@[j]).inner_id == id,
        r@.len() == connected_gamepads@.len() || connected_gamepads@[r@.len() as int].inner_id != id,
        forall|j: int|
            0 <= j < r@.len() ==> (#[trigger] r@[j]).id == connected_gamepads@[j].id && r@[j].name
                == connected_gamepads@[j].name && r@[j].retro_port == connected_gamepads@[j].retro_port
                && r@[j].retro_type == connected_gamepads@[j].retro_type && r@[j].device_type
                == DeviceType::Gamepad,
{
    let mut r: Vec<Device> = Vec::new();
    let mut i: usize = 0;
    while i < connected_gamepads.len() && connected_gamepads[i].inner_id == id
        invariant
            i <= connected_gamepads@.len(),
            r@.len() == i,
            forall|j: int| 0 <= j < i ==> (#[trigger] connected_gamepads@[j]).inner_id == id,
            forall|j: int|
                0 <= j < i ==> (#[trigger] r@[j]).id == connected_gamepads@[j].id && r@[j].name
                    == connected_gamepads@[j].name && r@[j].retro_port == connected_gamepads@[j].retro_port
                    && r@[j].retro_type == connected_gamepads@[j].retro_type && r@[j].device_type
                    == DeviceType::Gamepad,
        decreases connected_gamepads@.len() - i,
    {
        r.push(Device::from_gamepad(&connected_gamepads[i]));
        i = i + 1;
    }
    r
}

/// What to read to answer the core's question about button `key_id` of the device on a
/// port.
#[derive(PartialEq, Eq, Structural, Clone, Copy)]
pub enum InputRead {
    /// No gamepad is on the port: the answer is 0.
    NoDevice,
    /// The state of one button of the gamepad at this index of the list.
    Button(usize, i16),
    /// The bitmask of all the buttons of the gamepad at this index of the list.
    Bitmask(usize),
}

/// The first gamepad, at `i` or after, on port `port`.
pub open spec fn find_port_from(pads: Seq<RetroGamePad>, port: i16, i: int) -> Option<int>
    decreases pads.len() - i,
{
    if i < 0 || i >= pads.len() {
        None
    } else if pads[i].retro_port == port {
        Some(i)
    } else {
        find_port_from(pads, port, i + 1)
    }
}

/// Where the answer to a question about button `key_id` on `port` comes from: the first
/// gamepad on that port, read as a whole for the mask id and button by button otherwise.
pub fn get_input_state(connected_gamepads: &Vec<RetroGamePad>, port: i16, key_id: i16) -> (r: InputRead)
    ensures
        r == match find_port_from(connected_gamepads@, port, 0) {
            None => InputRead::NoDevice,
            Some(i) => if key_id == RETRO_DEVICE_ID_JOYPAD_MASK {
                InputRead::Bitmask(i as usize)
            } else {
                InputRead::Button(i as usize, key_id)
            },
        },
{
    let n = connected_gamepads.len();
    let mut i: usize = 0;
    while i < n
        invariant
            n == connected_gamepads@.len(),
            i <= n,
            find_port_from(connected_gamepads@, port, 0) == find_port_from(connected_gamepads@, port, i as int),
        decreases n - i,
    {
        if connected_gamepads[i].retro_port == port {
            return if key_id == 256 {
                InputRead::Bitmask(i)
            } else {
                InputRead::Button(i, key_id)
            };
        }
        i = i + 1;
    }
    InputRead::NoDevice
}

/// A new gamepad never takes a port some connected gamepad holds, and it is told that every
/// port is taken only when each port the core supports is held.
pub proof fn law_new_port_is_free(max_ports: usize, pads: Seq<RetroGamePad>)
    ensures
        available_port_spec(max_ports, pads) != INVALID_CONTROLLER_PORT ==> forall|j: int|
            0 <= j < pads.len() ==> (#[trigger] pads[j]).retro_port != available_port_spec(max_ports, pads),
        available_port_spec(max_ports, pads) == INVALID_CONTROLLER_PORT ==> forall|p: int|
            0 <= p <= last_port(max_ports) ==> port_held(pads, p),
{
    lemma_first_free_port(pads, last_port(max_ports), 0);
    let r = available_port_spec(max_ports, pads);
    if next_port_fits(max_ports, pads) {
        lemma_next_port_free(pads);
        assert((max_port(pads) + 1) as i16 as int == max_port(pads) + 1);
        assert forall|j: int| 0 <= j < pads.len() implies (#[trigger] pads[j]).retro_port != r by {
            if pads[j].retro_port == r {
                assert(port_held(pads, max_port(pads) + 1));
            }
        }
    } else {
        let f = first_free_port(pads, last_port(max_ports), 0);
        if f != -1 {
            assert(f as i16 as int == f);
            assert forall|j: int| 0 <= j < pads.len() implies (#[trigger] pads[j]).retro_port != r by {
                if pads[j].retro_port == r {
                    assert(port_held(pads, f));
                }
            }
        }
    }
}

} // verus!
