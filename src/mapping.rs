//! Mapping of one GameCube port onto the N64 controller layout.
use vstd::prelude::*;
use crate::report::{Connection, InputState, PortState};

verus! {

/// N64 button bits, in the order of the host's BUTTONS word.
pub const DPAD_RIGHT: u16 = 0x0001;
pub const DPAD_LEFT: u16 = 0x0002;
pub const DPAD_DOWN: u16 = 0x0004;
pub const DPAD_UP: u16 = 0x0008;
pub const START: u16 = 0x0010;
pub const Z_TRIG: u16 = 0x0020;
pub const B_BUTTON: u16 = 0x0040;
pub const A_BUTTON: u16 = 0x0080;
pub const C_RIGHT: u16 = 0x0100;
pub const C_LEFT: u16 = 0x0200;
pub const C_DOWN: u16 = 0x0400;
pub const C_UP: u16 = 0x0800;
pub const R_TRIG: u16 = 0x1000;
pub const L_TRIG: u16 = 0x2000;

/// An analog trigger beyond this value counts as a pressed shoulder button.
pub const TRIGGER_THRESHOLD: u8 = 148;

/// A C-stick axis below this value points to the low direction.
pub const CSTICK_LOW: u8 = 88;

/// A C-stick axis above this value points to the high direction.
pub const CSTICK_HIGH: u8 = 168;

/// Radius of the circular dead zone of the main stick.
pub const DEADZONE: i32 = 40;

/// One port in N64 terms: the button word and the two signed stick axes.
#[derive(Clone, Copy, Debug, PartialEq, Eq, Structural)]
pub struct MappedButtons {
    pub buttons: u16,
    pub x_axis: i8,
    pub y_axis: i8,
}

/// N64 Z: the digital L button, or the left trigger pressed far enough.
pub open spec fn z_pressed(s: PortState) -> bool {
    s.l || s.trigger_left > TRIGGER_THRESHOLD
}

/// N64 R: the digital R button, or the right trigger pressed far enough.
pub open spec fn r_pressed(s: PortState) -> bool {
    s.r || s.trigger_right > TRIGGER_THRESHOLD
}

/// C-left: the Y button, or the C-stick pushed left.
pub open spec fn c_left(s: PortState) -> bool {
    s.y || s.substick_x < CSTICK_LOW
}

/// C-right: the X button, or the C-stick pushed right.
pub open spec fn c_right(s: PortState) -> bool {
    s.x || s.substick_x > CSTICK_HIGH
}

/// C-down: the C-stick pushed down.
pub open spec fn c_down(s: PortState) -> bool {
    s.substick_y < CSTICK_LOW
}

/// C-up: the C-stick pushed up.
pub open spec fn c_up(s: PortState) -> bool {
    s.substick_y > CSTICK_HIGH
}

/// `bit` where `on` holds, else nothing.
pub open spec fn bit_if(on: bool, bit: u16) -> u16 {
    if on {
        bit
    } else {
        0
    }
}

/// The N64 button word for a connected port.
pub open spec fn button_word(s: PortState) -> u16 {
    bit_if(s.right, DPAD_RIGHT) | bit_if(s.left, DPAD_LEFT) | bit_if(s.down, DPAD_DOWN)
        | bit_if(s.up, DPAD_UP) | bit_if(s.start, START) | bit_if(z_pressed(s), Z_TRIG)
        | bit_if(s.b, B_BUTTON) | bit_if(s.a, A_BUTTON) | bit_if(c_right(s), C_RIGHT)
        | bit_if(c_left(s), C_LEFT) | bit_if(c_down(s), C_DOWN) | bit_if(c_up(s), C_UP)
        | bit_if(r_pressed(s), R_TRIG) | bit_if(s.z, L_TRIG)
}

/// Each bit of the button word is set exactly when its button counts as
/// pressed.
pub proof fn lemma_button_word_bits(s: PortState)
    ensures
        (button_word(s) & DPAD_RIGHT != 0) == s.right,
        (button_word(s) & DPAD_LEFT != 0) == s.left,
        (button_word(s) & DPAD_DOWN != 0) == s.down,
        (button_word(s) & DPAD_UP != 0) == s.up,
        (button_word(s) & START != 0) == s.start,
        (button_word(s) & Z_TRIG != 0) == z_pressed(s),
        (button_word(s) & B_BUTTON != 0) == s.b,
        (button_word(s) & A_BUTTON != 0) == s.a,
        (button_word(s) & C_RIGHT != 0) == c_right(s),
        (button_word(s) & C_LEFT != 0) == c_left(s),
        (button_word(s) & C_DOWN != 0) == c_down(s),
        (button_word(s) & C_UP != 0) == c_up(s),
        (button_word(s) & R_TRIG != 0) == r_pressed(s),
        (button_word(s) & L_TRIG != 0) == s.z,
{
    let (b0, b1, b2, b3, b4, b5, b6) = (s.right, s.left, s.down, s.up, s.start, z_pressed(s), s.b);
    let (b7, b8, b9, b10, b11, b12, b13) = (s.a, c_right(s), c_left(s), c_down(s), c_up(s), r_pressed(s), s.z);
    let w = button_word(s);
    assert(w == (if b0 { 1u16 } else { 0u16 }) | (if b1 { 2u16 } else { 0u16 }) | (if b2 { 4u16 } else { 0u16 })
        | (if b3 { 8u16 } else { 0u16 }) | (if b4 { 0x10u16 } else { 0u16 }) | (if b5 { 0x20u16 } else { 0u16 })
        | (if b6 { 0x40u16 } else { 0u16 }) | (if b7 { 0x80u16 } else { 0u16 }) | (if b8 { 0x100u16 } else { 0u16 })
        | (if b9 { 0x200u16 } else { 0u16 }) | (if b10 { 0x400u16 } else { 0u16 }) | (if b11 { 0x800u16 } else { 0u16 })
        | (if b12 { 0x1000u16 } else { 0u16 }) | (if b13 { 0x2000u16 } else { 0u16 }));
    assert({
        &&& (w & 1u16 != 0) == b0
        &&& (w & 2u16 != 0) == b1
        &&& (w & 4u16 != 0) == b2
        &&& (w & 8u16 != 0) == b3
        &&& (w & 0x10u16 != 0) == b4
        &&& (w & 0x20u16 != 0) == b5
        &&& (w & 0x40u16 != 0) == b6
        &&& (w & 0x80u16 != 0) == b7
        &&& (w & 0x100u16 != 0) == b8
        &&& (w & 0x200u16 != 0) == b9
        &&& (w & 0x400u16 != 0) == b10
        &&& (w & 0x800u16 != 0) == b11
        &&& (w & 0x1000u16 != 0) == b12
        &&& (w & 0x2000u16 != 0) == b13
    }) by (bit_vector)
        requires
            w == (if b0 { 1u16 } else { 0u16 }) | (if b1 { 2u16 } else { 0u16 }) | (if b2 { 4u16 } else { 0u16 })
                | (if b3 { 8u16 } else { 0u16 }) | (if b4 { 0x10u16 } else { 0u16 }) | (if b5 { 0x20u16 } else { 0u16 })
                | (if b6 { 0x40u16 } else { 0u16 }) | (if b7 { 0x80u16 } else { 0u16 }) | (if b8 { 0x100u16 } else { 0u16 })
                | (if b9 { 0x200u16 } else { 0u16 }) | (if b10 { 0x400u16 } else { 0u16 }) | (if b11 { 0x800u16 } else { 0u16 })
                | (if b12 { 0x1000u16 } else { 0u16 }) | (if b13 { 0x2000u16 } else { 0u16 }),
    ;
}

/// A shoulder trigger turns on its digital bit exactly when it is pressed
/// beyond 148: 148 does not, 149 does. The digital button turns it on too.
pub proof fn lemma_trigger_threshold(s: PortState)
    requires
        s.connection != Connection::Disconnected,
    ensures
        (mapped(s).buttons & Z_TRIG != 0) == (s.l || s.trigger_left > 148),
        (mapped(s).buttons & R_TRIG != 0) == (s.r || s.trigger_right > 148),
        !s.l ==> (s.trigger_left == 148 ==> mapped(s).buttons & Z_TRIG == 0),
        s.trigger_left == 149 ==> mapped(s).buttons & Z_TRIG != 0,
{
    lemma_button_word_bits(s);
}

/// The C-stick is read in bands: an axis below 88 gives the low direction,
/// above 168 the high one, and 88 to 168 neither. X and Y also give C-right
/// and C-left, so the horizontal bands are stated with those released.
pub proof fn lemma_cstick_bands(s: PortState)
    requires
        s.connection != Connection::Disconnected,
    ensures
        (mapped(s).buttons & C_DOWN != 0) == (s.substick_y < 88),
        (mapped(s).buttons & C_UP != 0) == (s.substick_y > 168),
        !s.y ==> (mapped(s).buttons & C_LEFT != 0) == (s.substick_x < 88),
        !s.x ==> (mapped(s).buttons & C_RIGHT != 0) == (s.substick_x > 168),
{
    lemma_button_word_bits(s);
}

/// The main stick passes through a circular dead zone: offsets whose squared
/// length is under 40 squared give (0, 0), all others come out unchanged.
pub proof fn lemma_deadzone_radial(s: PortState)
    requires
        s.connection != Connection::Disconnected,
    ensures
        ({
            let x = s.stick_x as int - 128;
            let y = s.stick_y as int - 128;
            &&& x * x + y * y < 1600 ==> mapped(s).x_axis == 0 && mapped(s).y_axis == 0
            &&& x * x + y * y >= 1600 ==> mapped(s).x_axis == x && mapped(s).y_axis == y
        }),
{
}

/// Signed offset of a stick byte from its center 128.
pub open spec fn offset_of(b: u8) -> int {
    b as int - 128
}

/// Whether the offsets (x, y) lie strictly inside the dead zone.
pub open spec fn in_deadzone(x: int, y: int) -> bool {
    x * x + y * y < DEADZONE * DEADZONE
}

/// What the mapper yields for a port.
pub open spec fn mapped(s: PortState) -> MappedButtons {
    if s.connection == Connection::Disconnected {
        MappedButtons { buttons: 0, x_axis: 0, y_axis: 0 }
    } else {
        let x = offset_of(s.stick_x);
        let y = offset_of(s.stick_y);
        MappedButtons {
            buttons: button_word(s),
            x_axis: if in_deadzone(x, y) { 0 } else { x as i8 },
            y_axis: if in_deadzone(x, y) { 0 } else { y as i8 },
        }
    }
}

/// A stick axis byte as a signed offset from the center.
pub fn stick_offset(b: u8) -> (r: i8)
    ensures
        r as int == offset_of(b),
{
    (b as i16 - 128) as i8
}

/// Circular dead zone: offsets whose squared length is under 40 squared
/// become (0, 0); all others pass through unchanged.
pub fn apply_deadzone(x: i8, y: i8) -> (r: (i8, i8))
    ensures
        in_deadzone(x as int, y as int) ==> r == (0i8, 0i8),
        !in_deadzone(x as int, y as int) ==> r == (x, y),
{
    let xi = x as i32;
    let yi = y as i32;
    assert(0 <= xi * xi <= 128 * 128 && 0 <= yi * yi <= 128 * 128) by (nonlinear_arith)
        requires -128 <= xi <= 127, -128 <= yi <= 127;
    let pos = xi * xi + yi * yi;
    if pos < DEADZONE * DEADZONE {
        (0, 0)
    } else {
        (x, y)
    }
}

/// Maps one port onto the N64 layout; a disconnected port maps to nothing
/// pressed and a centered stick.
pub fn map_port(s: &PortState) -> (m: MappedButtons)
    ensures
        m == mapped(*s),
{
    if s.connection == Connection::Disconnected {
        return MappedButtons { buttons: 0, x_axis: 0, y_axis: 0 };
    }
    let z = s.l || s.trigger_left > TRIGGER_THRESHOLD;
    let r = s.r || s.trigger_right > TRIGGER_THRESHOLD;
    let cl = s.y || s.substick_x < CSTICK_LOW;
    let cr = s.x || s.substick_x > CSTICK_HIGH;
    let cd = s.substick_y < CSTICK_LOW;
    let cu = s.substick_y > CSTICK_HIGH;
    let buttons = (if s.right { DPAD_RIGHT } else { 0 })
        | (if s.left { DPAD_LEFT } else { 0 })
        | (if s.down { DPAD_DOWN } else { 0 })
        | (if s.up { DPAD_UP } else { 0 })
        | (if s.start { START } else { 0 })
        | (if z { Z_TRIG } else { 0 })
        | (if s.b { B_BUTTON } else { 0 })
        | (if s.a { A_BUTTON } else { 0 })
        | (if cr { C_RIGHT } else { 0 })
        | (if cl { C_LEFT } else { 0 })
        | (if cd { C_DOWN } else { 0 })
        | (if cu { C_UP } else { 0 })
        | (if r { R_TRIG } else { 0 })
        | (if s.z { L_TRIG } else { 0 });
    let (x_axis, y_axis) = apply_deadzone(stick_offset(s.stick_x), stick_offset(s.stick_y));
    MappedButtons { buttons, x_axis, y_axis }
}

/// The byte that a signed axis takes in the host's word (two's complement).
pub open spec fn axis_byte(a: i8) -> int {
    if a < 0 {
        a as int + 256
    } else {
        a as int
    }
}

/// The host's 32-bit BUTTONS word: the button bits in the low half, the X axis
/// in the third byte and the Y axis in the fourth.
pub open spec fn packed(m: MappedButtons) -> int {
    m.buttons as int + 0x10000 * axis_byte(m.x_axis) + 0x1000000 * axis_byte(m.y_axis)
}

impl MappedButtons {
    /// The host's 32-bit BUTTONS word for this state.
    pub fn raw_value(&self) -> (r: u32)
        ensures
            r as int == packed(*self),
    {
        let xb: u32 = if self.x_axis < 0 {
            (self.x_axis as i32 + 256) as u32
        } else {
            self.x_axis as u32
        };
        let yb: u32 = if self.y_axis < 0 {
            (self.y_axis as i32 + 256) as u32
        } else {
            self.y_axis as u32
        };
        self.buttons as u32 + 0x10000 * xb + 0x1000000 * yb
    }
}

/// The mapped state of `port` in `state`, or `None` where no controller is
/// attached there (or the index names no port).
pub fn query(state: &InputState, port: i32) -> (r: Option<MappedButtons>)
    ensures
        r == (if 0 <= port < 4 && state.ports@[port as int].connection != Connection::Disconnected {
            Some(mapped(state.ports@[port as int]))
        } else {
            None::<MappedButtons>
        }),
{
    if !state.is_connected(port) {
        return None;
    }
    let s = state.controller_state(port as usize);
    Some(map_port(&s))
}

} // verus!
