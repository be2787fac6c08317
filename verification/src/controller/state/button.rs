use vstd::prelude::*;
use crate::controller::ControllerType;
use crate::controller::state::StateError;
use crate::text::str_equal;

verus! {

/// Buttons of the Nintendo Switch controllers.
#[derive(Clone, Copy, Debug, PartialEq, Eq, Structural, PartialOrd, Ord, Hash)]
pub enum ButtonKey {
    Y,
    X,
    B,
    A,
    R,
    Zr,
    Minus,
    Plus,
    RStick,
    LStick,
    Home,
    Capture,
    Down,
    Up,
    Right,
    Left,
    Sr,
    Sl,
    L,
    Zl,
}

/// Error for a string that names no button.
#[derive(Clone, Copy, Debug, PartialEq, Eq, Structural)]
pub enum ParseError {
    VariantNotFound,
}

/// Whether `key` exists on `controller`.
pub open spec fn spec_can_use_button(controller: ControllerType, key: ButtonKey) -> bool {
    match controller {
        ControllerType::ProController => !(key is Sr || key is Sl),
        ControllerType::JoyConR => key is Y || key is X || key is B || key is A || key is Sr
            || key is Sl || key is R || key is Zr || key is Plus || key is RStick || key is Home,
        ControllerType::JoyConL => key is Minus || key is LStick || key is Capture || key is Down
            || key is Up || key is Right || key is Left || key is Sr || key is Sl || key is L
            || key is Zl,
    }
}

/// Byte index (0..3) and bit (0..8) of `key` in the button report of `controller`.
/// Meaningful where `spec_can_use_button(controller, key)` holds.
pub open spec fn spec_button_slot(controller: ControllerType, key: ButtonKey) -> (int, u8) {
    match key {
        ButtonKey::Y => (0, 0),
        ButtonKey::X => (0, 1),
        ButtonKey::B => (0, 2),
        ButtonKey::A => (0, 3),
        ButtonKey::R => (0, 6),
        ButtonKey::Zr => (0, 7),
        ButtonKey::Minus => (1, 0),
        ButtonKey::Plus => (1, 1),
        ButtonKey::RStick => (1, 2),
        ButtonKey::LStick => (1, 3),
        ButtonKey::Home => (1, 4),
        ButtonKey::Capture => (1, 5),
        ButtonKey::Down => (2, 0),
        ButtonKey::Up => (2, 1),
        ButtonKey::Right => (2, 2),
        ButtonKey::Left => (2, 3),
        ButtonKey::Sr => if controller is JoyConR { (0, 4) } else { (2, 4) },
        ButtonKey::Sl => if controller is JoyConR { (0, 5) } else { (2, 5) },
        ButtonKey::L => (2, 6),
        ButtonKey::Zl => (2, 7),
    }
}

/// Whether `key` reads as pressed in button bytes `bytes` of `controller`.
pub open spec fn spec_reads_pressed(controller: ControllerType, bytes: Seq<u8>, key: ButtonKey) -> bool {
    let (idx, bit) = spec_button_slot(controller, key);
    spec_can_use_button(controller, key) && spec_bit(bytes[idx], bit)
}

/// Button bytes `bytes` of `controller` with `key` set to `flag`.
pub open spec fn spec_after_set(
    controller: ControllerType,
    bytes: Seq<u8>,
    key: ButtonKey,
    flag: bool,
) -> Seq<u8> {
    let (idx, bit) = spec_button_slot(controller, key);
    bytes.update(idx, spec_with_bit(bytes[idx], bit, flag))
}

/// Bit `n` of `v`.
pub open spec fn spec_bit(v: u8, n: u8) -> bool {
    (v >> n) & 1u8 == 1u8
}

/// `v` with bit `n` set to `flag`.
pub open spec fn spec_with_bit(v: u8, n: u8, flag: bool) -> u8 {
    if flag {
        v | (1u8 << n)
    } else {
        v & !(1u8 << n)
    }
}

impl ButtonKey {
    /// The name under which the button is written and read.
    pub open spec fn spec_name(self) -> Seq<char> {
        match self {
            ButtonKey::Y => seq!['Y'],
            ButtonKey::X => seq!['X'],
            ButtonKey::B => seq!['B'],
            ButtonKey::A => seq!['A'],
            ButtonKey::R => seq!['R'],
            ButtonKey::Zr => seq!['Z', 'r'],
            ButtonKey::Minus => seq!['M', 'i', 'n', 'u', 's'],
            ButtonKey::Plus => seq!['P', 'l', 'u', 's'],
            ButtonKey::RStick => seq!['R', 'S', 't', 'i', 'c', 'k'],
            ButtonKey::LStick => seq!['L', 'S', 't', 'i', 'c', 'k'],
            ButtonKey::Home => seq!['H', 'o', 'm', 'e'],
            ButtonKey::Capture => seq!['C', 'a', 'p', 't', 'u', 'r', 'e'],
            ButtonKey::Down => seq!['D', 'o', 'w', 'n'],
            ButtonKey::Up => seq!['U', 'p'],
            ButtonKey::Right => seq!['R', 'i', 'g', 'h', 't'],
            ButtonKey::Left => seq!['L', 'e', 'f', 't'],
            ButtonKey::Sr => seq!['S', 'r'],
            ButtonKey::Sl => seq!['S', 'l'],
            ButtonKey::L => seq!['L'],
            ButtonKey::Zl => seq!['Z', 'l'],
        }
    }

    /// A name names one button, so parsing the name of a button gives
    /// that button.
    pub proof fn law_name_identifies(a: ButtonKey, b: ButtonKey)
        ensures
            a.spec_name() == b.spec_name() ==> a == b,
    {
        let (x, y) = (a.spec_name(), b.spec_name());
        if x == y {
            assert(x.len() == y.len());
            assert(x[0] == y[0]);
            if x.len() >= 2 {
                assert(x[1] == y[1]);
            }
        }
    }

    /// The name literal of the button.
    fn name_str(&self) -> (r: &'static str)
        ensures
            r@ == self.spec_name(),
    {
        match self {
            ButtonKey::Y => { let s = "Y"; proof { reveal_strlit("Y"); } s },
            ButtonKey::X => { let s = "X"; proof { reveal_strlit("X"); } s },
            ButtonKey::B => { let s = "B"; proof { reveal_strlit("B"); } s },
            ButtonKey::A => { let s = "A"; proof { reveal_strlit("A"); } s },
            ButtonKey::R => { let s = "R"; proof { reveal_strlit("R"); } s },
            ButtonKey::Zr => { let s = "Zr"; proof { reveal_strlit("Zr"); } s },
            ButtonKey::Minus => { let s = "Minus"; proof { reveal_strlit("Minus"); } s },
            ButtonKey::Plus => { let s = "Plus"; proof { reveal_strlit("Plus"); } s },
            ButtonKey::RStick => { let s = "RStick"; proof { reveal_strlit("RStick"); } s },
            ButtonKey::LStick => { let s = "LStick"; proof { reveal_strlit("LStick"); } s },
            ButtonKey::Home => { let s = "Home"; proof { reveal_strlit("Home"); } s },
            ButtonKey::Capture => { let s = "Capture"; proof { reveal_strlit("Capture"); } s },
            ButtonKey::Down => { let s = "Down"; proof { reveal_strlit("Down"); } s },
            ButtonKey::Up => { let s = "Up"; proof { reveal_strlit("Up"); } s },
            ButtonKey::Right => { let s = "Right"; proof { reveal_strlit("Right"); } s },
            ButtonKey::Left => { let s = "Left"; proof { reveal_strlit("Left"); } s },
            ButtonKey::Sr => { let s = "Sr"; proof { reveal_strlit("Sr"); } s },
            ButtonKey::Sl => { let s = "Sl"; proof { reveal_strlit("Sl"); } s },
            ButtonKey::L => { let s = "L"; proof { reveal_strlit("L"); } s },
            ButtonKey::Zl => { let s = "Zl"; proof { reveal_strlit("Zl"); } s },
        }
    }

    /// The button's name as text, e.g. `"Capture"`.
    pub fn to_string(&self) -> (r: String)
        ensures
            r@ == self.spec_name(),
    {
        self.name_str().to_owned()
    }

    /// Reads a button from its name; names are matched exactly.
    pub fn from_str(s: &str) -> (r: Result<ButtonKey, ParseError>)
        ensures
            r matches Ok(k) ==> k.spec_name() == s@,
            r is Err <==> (forall|k: ButtonKey| k.spec_name() != s@),
    {
        let all = [
            ButtonKey::Y, ButtonKey::X, ButtonKey::B, ButtonKey::A, ButtonKey::R, ButtonKey::Zr,
            ButtonKey::Minus, ButtonKey::Plus, ButtonKey::RStick, ButtonKey::LStick,
            ButtonKey::Home, ButtonKey::Capture, ButtonKey::Down, ButtonKey::Up,
            ButtonKey::Right, ButtonKey::Left, ButtonKey::Sr, ButtonKey::Sl, ButtonKey::L,
            ButtonKey::Zl,
        ];
        assert forall|k: ButtonKey| #[trigger] all@.contains(k) by {
            match k {
                ButtonKey::Y => assert(all@[0] == k),
                ButtonKey::X => assert(all@[1] == k),
                ButtonKey::B => assert(all@[2] == k),
                ButtonKey::A => assert(all@[3] == k),
                ButtonKey::R => assert(all@[4] == k),
                ButtonKey::Zr => assert(all@[5] == k),
                ButtonKey::Minus => assert(all@[6] == k),
                ButtonKey::Plus => assert(all@[7] == k),
                ButtonKey::RStick => assert(all@[8] == k),
                ButtonKey::LStick => assert(all@[9] == k),
                ButtonKey::Home => assert(all@[10] == k),
                ButtonKey::Capture => assert(all@[11] == k),
                ButtonKey::Down => assert(all@[12] == k),
                ButtonKey::Up => assert(all@[13] == k),
                ButtonKey::Right => assert(all@[14] == k),
                ButtonKey::Left => assert(all@[15] == k),
                ButtonKey::Sr => assert(all@[16] == k),
                ButtonKey::Sl => assert(all@[17] == k),
                ButtonKey::L => assert(all@[18] == k),
                ButtonKey::Zl => assert(all@[19] == k),
            }
        }
        let mut i: usize = 0;
        while i < 20
            invariant
                0 <= i <= 20,
                all@.len() == 20,
                forall|k: ButtonKey| #[trigger] all@.contains(k),
                forall|j: int| 0 <= j < i ==> (#[trigger] all@[j]).spec_name() != s@,
            decreases 20 - i,
        {
            let k = all[i];
            if str_equal(k.name_str(), s) {
                return Ok(k);
            }
            i = i + 1;
        }
        assert forall|k: ButtonKey| k.spec_name() != s@ by {
            let j = choose|j: int| 0 <= j < all@.len() && all@[j] == k;
            assert(all@[j].spec_name() != s@);
        }
        Err(ParseError::VariantNotFound)
    }

    /// Buttons that `controller` has, in report order.
    pub open spec fn spec_available_buttons(controller: ControllerType) -> Seq<ButtonKey> {
        match controller {
            ControllerType::ProController => seq![
                ButtonKey::Y, ButtonKey::X, ButtonKey::B, ButtonKey::A, ButtonKey::R,
                ButtonKey::Zr, ButtonKey::Minus, ButtonKey::Plus, ButtonKey::RStick,
                ButtonKey::LStick, ButtonKey::Home, ButtonKey::Capture, ButtonKey::Down,
                ButtonKey::Up, ButtonKey::Right, ButtonKey::Left, ButtonKey::L, ButtonKey::Zl,
            ],
            ControllerType::JoyConR => seq![
                ButtonKey::Y, ButtonKey::X, ButtonKey::B, ButtonKey::A, ButtonKey::Sr,
                ButtonKey::Sl, ButtonKey::R, ButtonKey::Zr, ButtonKey::Plus, ButtonKey::RStick,
                ButtonKey::Home,
            ],
            ControllerType::JoyConL => seq![
                ButtonKey::Minus, ButtonKey::LStick, ButtonKey::Capture, ButtonKey::Down,
                ButtonKey::Up, ButtonKey::Right, ButtonKey::Left, ButtonKey::Sr, ButtonKey::Sl,
                ButtonKey::L, ButtonKey::Zl,
            ],
        }
    }

    pub fn available_buttons(controller: ControllerType) -> (r: Vec<ButtonKey>)
        ensures
            r@ == Self::spec_available_buttons(controller),
    {
        match controller {
            ControllerType::ProController => vec![
                ButtonKey::Y, ButtonKey::X, ButtonKey::B, ButtonKey::A, ButtonKey::R,
                ButtonKey::Zr, ButtonKey::Minus, ButtonKey::Plus, ButtonKey::RStick,
                ButtonKey::LStick, ButtonKey::Home, ButtonKey::Capture, ButtonKey::Down,
                ButtonKey::Up, ButtonKey::Right, ButtonKey::Left, ButtonKey::L, ButtonKey::Zl,
            ],
            ControllerType::JoyConR => vec![
                ButtonKey::Y, ButtonKey::X, ButtonKey::B, ButtonKey::A, ButtonKey::Sr,
                ButtonKey::Sl, ButtonKey::R, ButtonKey::Zr, ButtonKey::Plus, ButtonKey::RStick,
                ButtonKey::Home,
            ],
            ControllerType::JoyConL => vec![
                ButtonKey::Minus, ButtonKey::LStick, ButtonKey::Capture, ButtonKey::Down,
                ButtonKey::Up, ButtonKey::Right, ButtonKey::Left, ButtonKey::Sr, ButtonKey::Sl,
                ButtonKey::L, ButtonKey::Zl,
            ],
        }
    }

    pub fn can_use_button(controller: ControllerType, key: Self) -> (r: bool)
        ensures
            r == spec_can_use_button(controller, key),
    {
        match controller {
            ControllerType::ProController => match key {
                ButtonKey::Sr | ButtonKey::Sl => false,
                _ => true,
            },
            ControllerType::JoyConR => match key {
                ButtonKey::Y | ButtonKey::X | ButtonKey::B | ButtonKey::A | ButtonKey::Sr
                | ButtonKey::Sl | ButtonKey::R | ButtonKey::Zr | ButtonKey::Plus
                | ButtonKey::RStick | ButtonKey::Home => true,
                _ => false,
            },
            ControllerType::JoyConL => match key {
                ButtonKey::Minus | ButtonKey::LStick | ButtonKey::Capture | ButtonKey::Down
                | ButtonKey::Up | ButtonKey::Right | ButtonKey::Left | ButtonKey::Sr
                | ButtonKey::Sl | ButtonKey::L | ButtonKey::Zl => true,
                _ => false,
            },
        }
    }
}

/// Byte index and bit of `key` for `controller`, where `key` exists on it.
fn button_slot(controller: ControllerType, key: ButtonKey) -> (r: (usize, u8))
    ensures
        r.0 as int == spec_button_slot(controller, key).0,
        r.1 == spec_button_slot(controller, key).1,
        r.0 < 3,
        r.1 < 8,
{
    match key {
        ButtonKey::Y => (0, 0),
        ButtonKey::X => (0, 1),
        ButtonKey::B => (0, 2),
        ButtonKey::A => (0, 3),
        ButtonKey::R => (0, 6),
        ButtonKey::Zr => (0, 7),
        ButtonKey::Minus => (1, 0),
        ButtonKey::Plus => (1, 1),
        ButtonKey::RStick => (1, 2),
        ButtonKey::LStick => (1, 3),
        ButtonKey::Home => (1, 4),
        ButtonKey::Capture => (1, 5),
        ButtonKey::Down => (2, 0),
        ButtonKey::Up => (2, 1),
        ButtonKey::Right => (2, 2),
        ButtonKey::Left => (2, 3),
        ButtonKey::Sr => match controller {
            ControllerType::JoyConR => (0, 4),
            _ => (2, 4),
        },
        ButtonKey::Sl => match controller {
            ControllerType::JoyConR => (0, 5),
            _ => (2, 5),
        },
        ButtonKey::L => (2, 6),
        ButtonKey::Zl => (2, 7),
    }
}

/// Button bytes of an input report.
///
/// Byte 0: Y X B A SR SL R ZR; byte 1: Minus Plus RStick LStick Home Capture;
/// byte 2: Down Up Right Left SR SL L ZL (bit 0 first). SR and SL sit in byte 0
/// on the right Joy-Con and in byte 2 on the left one.
#[derive(Clone, Copy, Debug)]
pub struct ButtonState {
    controller: ControllerType,
    bytes: [u8; 3],
}

impl Default for ButtonState {
    fn default() -> (r: Self)
        ensures
            r.spec_controller() == ControllerType::ProController,
            r.spec_bytes() == seq![0u8, 0u8, 0u8],
    {
        ButtonState::new()
    }
}

impl ButtonState {
    pub closed spec fn spec_controller(&self) -> ControllerType {
        self.controller
    }

    /// The three button bytes.
    pub closed spec fn spec_bytes(&self) -> Seq<u8> {
        self.bytes@
    }

    /// There are always three button bytes.
    pub proof fn lemma_bytes_len(b: ButtonState)
        ensures
            b.spec_bytes().len() == 3,
    {
    }

    /// Whether `key` reads as pressed.
    pub open spec fn spec_is_set(&self, key: ButtonKey) -> bool {
        spec_reads_pressed(self.spec_controller(), self.spec_bytes(), key)
    }

    pub fn new() -> (r: Self)
        ensures
            r.spec_controller() == ControllerType::ProController,
            r.spec_bytes() == seq![0u8, 0u8, 0u8],
    {
        ButtonState { controller: ControllerType::ProController, bytes: [0, 0, 0] }
    }

    pub fn with_controller(controller: ControllerType) -> (r: Self)
        ensures
            r.spec_controller() == controller,
            r.spec_bytes() == seq![0u8, 0u8, 0u8],
    {
        ButtonState { controller, bytes: [0, 0, 0] }
    }

    pub fn is_button_set(&self, key: ButtonKey) -> (r: bool)
        ensures
            r == self.spec_is_set(key),
    {
        if !ButtonKey::can_use_button(self.controller, key) {
            return false;
        }
        let (idx, bit) = button_slot(self.controller, key);
        check_bit(self.bytes[idx], bit)
    }

    pub fn toggle_button(&mut self, key: ButtonKey) -> (r: Result<(), StateError>)
        ensures
            final(self).spec_controller() == old(self).spec_controller(),
            !spec_can_use_button(old(self).spec_controller(), key) ==> r == Err::<(), StateError>(StateError::ButtonNotAvailable)
                && final(self).spec_bytes() == old(self).spec_bytes(),
            spec_can_use_button(old(self).spec_controller(), key) ==> r is Ok
                && final(self).spec_bytes() == spec_after_set(
                    old(self).spec_controller(),
                    old(self).spec_bytes(),
                    key,
                    !old(self).spec_is_set(key),
                ),
    {
        let flag = !self.is_button_set(key);
        self.set_button(key, flag)
    }

    pub fn set_button(&mut self, key: ButtonKey, flag: bool) -> (r: Result<(), StateError>)
        ensures
            final(self).spec_controller() == old(self).spec_controller(),
            !spec_can_use_button(old(self).spec_controller(), key) ==> r == Err::<(), StateError>(StateError::ButtonNotAvailable)
                && final(self).spec_bytes() == old(self).spec_bytes(),
            spec_can_use_button(old(self).spec_controller(), key) ==> r is Ok
                && final(self).spec_bytes() == spec_after_set(
                    old(self).spec_controller(),
                    old(self).spec_bytes(),
                    key,
                    flag,
                ),
    {
        if !ButtonKey::can_use_button(self.controller, key) {
            return Err(StateError::ButtonNotAvailable);
        }
        let (idx, bit) = button_slot(self.controller, key);
        let v = self.bytes[idx];
        if flag != check_bit(v, bit) {
            self.bytes[idx] = flip_bit(v, bit);
        }
        proof {
            lemma_flip_sets_bit(v, bit, flag);
        }
        assert(self.bytes@ =~= old(self).bytes@.update(idx as int, spec_with_bit(v, bit, flag)));
        Ok(())
    }

    pub fn controller(&self) -> (r: ControllerType)
        ensures
            r == self.spec_controller(),
    {
        self.controller
    }

    pub fn available_buttons(&self) -> (r: Vec<ButtonKey>)
        ensures
            r@ == ButtonKey::spec_available_buttons(self.spec_controller()),
    {
        ButtonKey::available_buttons(self.controller)
    }

    pub fn clear(&mut self)
        ensures
            final(self).spec_controller() == old(self).spec_controller(),
            final(self).spec_bytes() == seq![0u8, 0u8, 0u8],
    {
        self.bytes = [0, 0, 0];
    }

    pub fn as_bytes(&self) -> (r: &[u8; 3])
        ensures
            r@ == self.spec_bytes(),
    {
        &self.bytes
    }
}

fn check_bit(value: u8, n: u8) -> (r: bool)
    requires
        n < 8,
    ensures
        r == spec_bit(value, n),
{
    let r = (value >> n) & 1 != 0;
    assert(((value >> n) & 1u8 != 0u8) == ((value >> n) & 1u8 == 1u8)) by (bit_vector);
    r
}

fn flip_bit(value: u8, n: u8) -> (r: u8)
    requires
        n < 8,
    ensures
        r == value ^ (1u8 << n),
{
    value ^ (1u8 << n)
}

/// Setting a bit to `flag` reads back `flag` there and leaves the other bits.
proof fn lemma_with_bit(v: u8, n: u8, m: u8, flag: bool)
    requires
        n < 8,
        m < 8,
    ensures
        spec_bit(spec_with_bit(v, n, flag), n) == flag,
        m != n ==> spec_bit(spec_with_bit(v, n, flag), m) == spec_bit(v, m),
{
    if flag {
        assert(((v | (1u8 << n)) >> n) & 1u8 == 1u8) by (bit_vector) requires n < 8;
        assert(m != n ==> (((v | (1u8 << n)) >> m) & 1u8 == 1u8) == ((v >> m) & 1u8 == 1u8))
            by (bit_vector) requires n < 8, m < 8;
    } else {
        assert(((v & !(1u8 << n)) >> n) & 1u8 != 1u8) by (bit_vector) requires n < 8;
        assert(m != n ==> (((v & !(1u8 << n)) >> m) & 1u8 == 1u8) == ((v >> m) & 1u8 == 1u8))
            by (bit_vector) requires n < 8, m < 8;
    }
}

/// Two different buttons of a controller sit in different places.
proof fn lemma_slots_distinct(controller: ControllerType, a: ButtonKey, b: ButtonKey)
    requires
        spec_can_use_button(controller, a),
        spec_can_use_button(controller, b),
        a != b,
    ensures
        spec_button_slot(controller, a) != spec_button_slot(controller, b),
        spec_button_slot(controller, a).1 < 8,
        0 <= spec_button_slot(controller, a).0 < 3,
{
}

/// Setting a button reads back what was set, and every other button reads
/// as before.
pub proof fn law_set_button_reads_back(
    controller: ControllerType,
    bytes: Seq<u8>,
    key: ButtonKey,
    flag: bool,
    other: ButtonKey,
)
    requires
        bytes.len() == 3,
        spec_can_use_button(controller, key),
    ensures
        spec_reads_pressed(controller, spec_after_set(controller, bytes, key, flag), key) == flag,
        other != key ==> spec_reads_pressed(
            controller,
            spec_after_set(controller, bytes, key, flag),
            other,
        ) == spec_reads_pressed(controller, bytes, other),
{
    let (i, n) = spec_button_slot(controller, key);
    assert(n < 8 && 0 <= i < 3);
    lemma_with_bit(bytes[i], n, n, flag);
    if other != key && spec_can_use_button(controller, other) {
        lemma_slots_distinct(controller, key, other);
        let (j, m) = spec_button_slot(controller, other);
        lemma_slots_distinct(controller, other, key);
        if j == i {
            lemma_with_bit(bytes[i], n, m, flag);
        }
    }
}

/// Toggling a button twice restores its bytes.
pub proof fn law_toggle_twice_restores(controller: ControllerType, bytes: Seq<u8>, key: ButtonKey)
    requires
        bytes.len() == 3,
        spec_can_use_button(controller, key),
    ensures
        ({
            let once = spec_after_set(
                controller,
                bytes,
                key,
                !spec_reads_pressed(controller, bytes, key),
            );
            spec_after_set(controller, once, key, !spec_reads_pressed(controller, once, key))
                == bytes
        }),
{
    let (i, n) = spec_button_slot(controller, key);
    let v = bytes[i];
    let f = !spec_reads_pressed(controller, bytes, key);
    law_set_button_reads_back(controller, bytes, key, f, key);
    let w = spec_with_bit(v, n, f);
    assert(n < 8);
    if f {
        assert(((v >> n) & 1u8 != 1u8) ==> (v | (1u8 << n)) & !(1u8 << n) == v) by (bit_vector)
            requires n < 8;
    } else {
        assert(((v >> n) & 1u8 == 1u8) ==> (v & !(1u8 << n)) | (1u8 << n) == v) by (bit_vector)
            requires n < 8;
    }
    let once = spec_after_set(controller, bytes, key, f);
    assert(spec_after_set(controller, once, key, !f) =~= bytes);
}

/// After clearing, no button reads as pressed.
pub proof fn law_cleared_reads_released(controller: ControllerType, key: ButtonKey)
    ensures
        !spec_reads_pressed(controller, seq![0u8, 0u8, 0u8], key),
{
    let (i, n) = spec_button_slot(controller, key);
    if spec_can_use_button(controller, key) {
        assert(n < 8 && 0 <= i < 3);
        assert((0u8 >> n) & 1u8 != 1u8) by (bit_vector) requires n < 8;
    }
}

proof fn lemma_flip_sets_bit(v: u8, n: u8, flag: bool)
    requires
        n < 8,
    ensures
        flag != spec_bit(v, n) ==> v ^ (1u8 << n) == spec_with_bit(v, n, flag),
        flag == spec_bit(v, n) ==> v == spec_with_bit(v, n, flag),
{
    if flag {
        assert(((v >> n) & 1u8 == 1u8) != true ==> v ^ (1u8 << n) == v | (1u8 << n))
            by (bit_vector) requires n < 8;
        assert(((v >> n) & 1u8 == 1u8) == true ==> v == v | (1u8 << n))
            by (bit_vector) requires n < 8;
    } else {
        assert(((v >> n) & 1u8 == 1u8) != false ==> v ^ (1u8 << n) == v & !(1u8 << n))
            by (bit_vector) requires n < 8;
        assert(((v >> n) & 1u8 == 1u8) == false ==> v == v & !(1u8 << n))
            by (bit_vector) requires n < 8;
    }
}

/// The report's button layout, bit 0 first in each byte:
/// byte 0 = Y X B A SR SL R ZR, byte 1 = Minus Plus RStick LStick Home
/// Capture, byte 2 = Down Up Right Left SR SL L ZL. SR and SL sit in byte 0
/// for a right Joy-Con and in byte 2 otherwise.
pub open spec fn spec_button_layout() -> Seq<Seq<Option<ButtonKey>>> {
    seq![
        seq![
            Some(ButtonKey::Y), Some(ButtonKey::X), Some(ButtonKey::B), Some(ButtonKey::A),
            Some(ButtonKey::Sr), Some(ButtonKey::Sl), Some(ButtonKey::R), Some(ButtonKey::Zr),
        ],
        seq![
            Some(ButtonKey::Minus), Some(ButtonKey::Plus), Some(ButtonKey::RStick),
            Some(ButtonKey::LStick), Some(ButtonKey::Home), Some(ButtonKey::Capture), None, None,
        ],
        seq![
            Some(ButtonKey::Down), Some(ButtonKey::Up), Some(ButtonKey::Right),
            Some(ButtonKey::Left), Some(ButtonKey::Sr), Some(ButtonKey::Sl), Some(ButtonKey::L),
            Some(ButtonKey::Zl),
        ],
    ]
}

/// Every usable button sits where the report layout puts it: a button at
/// byte `i`, bit `n` of the layout (for SR and SL, the byte of the
/// controller) is read and written at exactly that bit, and pressing it
/// alone on released bytes sets only that bit.
pub proof fn law_button_layout(controller: ControllerType, key: ButtonKey, i: int, n: int)
    requires
        0 <= i < 3,
        0 <= n < 8,
        spec_button_layout()[i][n] == Some(key),
        spec_can_use_button(controller, key),
        key is Sr || key is Sl ==> (i == 0 <==> controller is JoyConR),
    ensures
        spec_button_slot(controller, key) == (i, n as u8),
        spec_after_set(controller, seq![0u8, 0u8, 0u8], key, true) == seq![0u8, 0u8, 0u8].update(
            i,
            1u8 << (n as u8),
        ),
{
    let l = spec_button_layout();
    assert(l[0] =~= seq![
        Some(ButtonKey::Y), Some(ButtonKey::X), Some(ButtonKey::B), Some(ButtonKey::A),
        Some(ButtonKey::Sr), Some(ButtonKey::Sl), Some(ButtonKey::R), Some(ButtonKey::Zr),
    ]);
    if i == 0 {
        assert(n == 0 || n == 1 || n == 2 || n == 3 || n == 4 || n == 5 || n == 6 || n == 7);
    } else if i == 1 {
        assert(n == 0 || n == 1 || n == 2 || n == 3 || n == 4 || n == 5);
    } else {
        assert(n == 0 || n == 1 || n == 2 || n == 3 || n == 4 || n == 5 || n == 6 || n == 7);
    }
    let b = n as u8;
    assert(spec_with_bit(0u8, b, true) == 1u8 << b) by (bit_vector)
        requires
            b < 8,
    ;
    assert(spec_after_set(controller, seq![0u8, 0u8, 0u8], key, true) =~= seq![0u8, 0u8, 0u8].update(
        i,
        1u8 << b,
    ));
}

/// Which buttons each controller has, by the report layout: a Pro
/// Controller has all but SR and SL; a right Joy-Con has the buttons of
/// the first byte plus Plus, RStick and Home; a left Joy-Con has those of
/// the third byte plus Minus, LStick and Capture.
pub proof fn law_buttons_of_each_controller(key: ButtonKey)
    ensures
        spec_can_use_button(ControllerType::ProController, key) <==> !(key is Sr || key is Sl),
        spec_can_use_button(ControllerType::JoyConR, key) <==> (spec_button_layout()[0].contains(
            Some(key),
        ) || key is Plus || key is RStick || key is Home),
        spec_can_use_button(ControllerType::JoyConL, key) <==> (spec_button_layout()[2].contains(
            Some(key),
        ) || key is Minus || key is LStick || key is Capture),
{
    let l = spec_button_layout();
    let b0 = l[0];
    let b2 = l[2];
    let n: int = match key {
        ButtonKey::Y => 0,
        ButtonKey::X => 1,
        ButtonKey::B => 2,
        ButtonKey::A => 3,
        ButtonKey::Sr => 4,
        ButtonKey::Sl => 5,
        ButtonKey::R => 6,
        ButtonKey::Zr => 7,
        ButtonKey::Down => 0,
        ButtonKey::Up => 1,
        ButtonKey::Right => 2,
        ButtonKey::Left => 3,
        ButtonKey::L => 6,
        ButtonKey::Zl => 7,
        _ => 0,
    };
    if b0.contains(Some(key)) {
        let j = choose|j: int| 0 <= j < b0.len() && b0[j] == Some(key);
        assert(j == 0 || j == 1 || j == 2 || j == 3 || j == 4 || j == 5 || j == 6 || j == 7);
    }
    if b2.contains(Some(key)) {
        let j = choose|j: int| 0 <= j < b2.len() && b2[j] == Some(key);
        assert(j == 0 || j == 1 || j == 2 || j == 3 || j == 4 || j == 5 || j == 6 || j == 7);
    }
    if key is Y || key is X || key is B || key is A || key is Sr || key is Sl || key is R || key is Zr {
        assert(b0[n] == Some(key));
    }
    if key is Down || key is Up || key is Right || key is Left || key is Sr || key is Sl || key is L
        || key is Zl {
        let m: int = if key is Sr { 4 } else if key is Sl { 5 } else { n };
        assert(b2[m] == Some(key));
    }
}

} // verus!
