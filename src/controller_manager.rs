//! Encoding of one pad's input into its 8-byte state word.
use bytebuffer::ByteBuffer;
use crate::wire::{be_i32, be_u32};
use vstd::prelude::*;

verus! {

/// The buttons a pad reports.
#[derive(Clone, Copy, Debug, PartialEq, Eq, Structural)]
pub enum Button {
    South,
    East,
    North,
    West,
    C,
    Z,
    LeftTrigger,
    LeftTrigger2,
    RightTrigger,
    RightTrigger2,
    Select,
    Start,
    Mode,
    LeftThumb,
    RightThumb,
    DPadUp,
    DPadDown,
    DPadLeft,
    DPadRight,
    Unknown,
}

/// The analog axes a pad reports.
#[derive(Clone, Copy, Debug, PartialEq, Eq, Structural)]
pub enum Axis {
    LeftStickX,
    LeftStickY,
    LeftZ,
    RightStickX,
    RightStickY,
    RightZ,
    DPadX,
    DPadY,
    Unknown,
}

/// One reading of a pad: the buttons held down, and each analog axis as an
/// 8-bit sample (`None` where the pad does not report the axis). A sample
/// in [0, 255] stands for a value v in [-1, 1] as `clamp_u8(v * 128 + 128)`.
pub struct PadSnapshot {
    pub pressed: Vec<Button>,
    pub left_stick_x: Option<u8>,
    pub left_stick_y: Option<u8>,
    pub right_stick_x: Option<u8>,
    pub right_stick_y: Option<u8>,
    pub left_z: Option<u8>,
    pub right_z: Option<u8>,
}

/// The bit a button sets in the button word; `C`, `Z` and the secondary
/// triggers set none.
pub open spec fn button_bit(b: Button) -> u32 {
    match b {
        Button::South => 0x0001,
        Button::East => 0x0002,
        Button::North => 0x0004,
        Button::West => 0x0008,
        Button::DPadLeft => 0x0010,
        Button::DPadUp => 0x0020,
        Button::DPadRight => 0x0040,
        Button::DPadDown => 0x0080,
        Button::Select => 0x0100,
        Button::Start => 0x0200,
        Button::C => 0,
        Button::Z => 0,
        Button::LeftTrigger => 0x0400,
        Button::LeftTrigger2 => 0,
        Button::RightTrigger => 0x0800,
        Button::RightTrigger2 => 0,
        Button::LeftThumb => 0x1000,
        Button::RightThumb => 0x2000,
        Button::Unknown => 0x4000,
        Button::Mode => 0x8000,
    }
}

/// What `b` contributes when `pressed` are held down.
pub open spec fn button_flag(pressed: Set<Button>, b: Button) -> u32 {
    if pressed.contains(b) {
        button_bit(b)
    } else {
        0
    }
}

/// The button word: the OR of the bits of the buttons held down.
pub open spec fn button_word(p: Set<Button>) -> u32 {
    button_flag(p, Button::South) | button_flag(p, Button::East) | button_flag(p, Button::North)
        | button_flag(p, Button::West) | button_flag(p, Button::DPadLeft) | button_flag(
        p,
        Button::DPadUp,
    ) | button_flag(p, Button::DPadRight) | button_flag(p, Button::DPadDown) | button_flag(
        p,
        Button::Select,
    ) | button_flag(p, Button::Start) | button_flag(p, Button::C) | button_flag(p, Button::Z)
        | button_flag(p, Button::LeftTrigger) | button_flag(p, Button::LeftTrigger2) | button_flag(
        p,
        Button::RightTrigger,
    ) | button_flag(p, Button::RightTrigger2) | button_flag(p, Button::LeftThumb) | button_flag(
        p,
        Button::RightThumb,
    ) | button_flag(p, Button::Unknown) | button_flag(p, Button::Mode)
}

/// A sample's byte; an axis the pad does not report contributes zero.
pub open spec fn sample_value(s: Option<u8>) -> nat {
    match s {
        Some(v) => v as nat,
        None => 0,
    }
}

/// The stick word: the left stick's X and Y, then the right stick's X and
/// Y, one byte each, most significant first.
pub open spec fn stick_word(s: PadSnapshot) -> nat {
    sample_value(s.left_stick_x) * 0x1000000 + sample_value(s.left_stick_y) * 0x10000
        + sample_value(s.right_stick_x) * 0x100 + sample_value(s.right_stick_y)
}

/// The trigger word: left trigger in the high byte, right trigger in the
/// low byte.
pub open spec fn trigger_word(s: PadSnapshot) -> nat {
    sample_value(s.left_z) * 0x100 + sample_value(s.right_z)
}

/// The buttons-and-triggers word: the trigger word in the upper half, the
/// button word in the lower half.
pub open spec fn buttons_state_word(s: PadSnapshot) -> nat {
    trigger_word(s) * 0x10000 + button_word(s.pressed@.to_set()) as nat
}

/// The 8-byte state of a pad: the stick word, then the buttons-and-triggers
/// word, both big-endian.
pub open spec fn pad_state_bytes(s: PadSnapshot) -> Seq<u8> {
    be_u32(stick_word(s) as u32) + be_u32(buttons_state_word(s) as u32)
}

/// The button word never reaches past bit 15.
proof fn lemma_button_word_fits(p: Set<Button>)
    ensures
        button_word(p) < 0x10000,
{
    let w0 = button_flag(p, Button::South);
    let w1 = button_flag(p, Button::East);
    let w2 = button_flag(p, Button::North);
    let w3 = button_flag(p, Button::West);
    let w4 = button_flag(p, Button::DPadLeft);
    let w5 = button_flag(p, Button::DPadUp);
    let w6 = button_flag(p, Button::DPadRight);
    let w7 = button_flag(p, Button::DPadDown);
    let w8 = button_flag(p, Button::Select);
    let w9 = button_flag(p, Button::Start);
    let w10 = button_flag(p, Button::C);
    let w11 = button_flag(p, Button::Z);
    let w12 = button_flag(p, Button::LeftTrigger);
    let w13 = button_flag(p, Button::LeftTrigger2);
    let w14 = button_flag(p, Button::RightTrigger);
    let w15 = button_flag(p, Button::RightTrigger2);
    let w16 = button_flag(p, Button::LeftThumb);
    let w17 = button_flag(p, Button::RightThumb);
    let w18 = button_flag(p, Button::Unknown);
    let w19 = button_flag(p, Button::Mode);
    assert(w0 | w1 | w2 | w3 | w4 | w5 | w6 | w7 | w8 | w9 | w10 | w11 | w12 | w13 | w14 | w15
        | w16 | w17 | w18 | w19 < 0x10000) by (bit_vector)
        requires
            w0 < 0x10000, w1 < 0x10000, w2 < 0x10000, w3 < 0x10000, w4 < 0x10000,
            w5 < 0x10000, w6 < 0x10000, w7 < 0x10000, w8 < 0x10000, w9 < 0x10000,
            w10 < 0x10000, w11 < 0x10000, w12 < 0x10000, w13 < 0x10000, w14 < 0x10000,
            w15 < 0x10000, w16 < 0x10000, w17 < 0x10000, w18 < 0x10000, w19 < 0x10000,
    ;
}

/// The buttons-and-triggers word of a reading carries the trigger word in
/// its upper 16 bits; its lower 16 bits are the button word, and so depend
/// only on the set of buttons held down, whatever the axes read.
pub proof fn buttons_state_layout(a: PadSnapshot, b: PadSnapshot)
    requires
        a.pressed@.to_set() == b.pressed@.to_set(),
    ensures
        buttons_state_word(a) < 0x1_0000_0000,
        buttons_state_word(a) / 0x10000 == sample_value(a.left_z) * 0x100 + sample_value(a.right_z),
        buttons_state_word(a) % 0x10000 == button_word(a.pressed@.to_set()),
        buttons_state_word(a) % 0x10000 == buttons_state_word(b) % 0x10000,
{
    lemma_button_word_fits(a.pressed@.to_set());
    let t = trigger_word(a);
    let w = button_word(a.pressed@.to_set()) as nat;
    assert(t < 0x10000);
    assert((t * 0x10000 + w) / 0x10000 == t && (t * 0x10000 + w) % 0x10000 == w) by (nonlinear_arith)
        requires
            w < 0x10000,
    ;
    let tb = trigger_word(b);
    assert((tb * 0x10000 + w) % 0x10000 == w) by (nonlinear_arith)
        requires
            w < 0x10000,
    ;
}

/// Encodes each of a pad's readings into its state word; it keeps no state.
pub struct ControllerManager {}

impl ControllerManager {
    pub fn new() -> (r: ControllerManager) {
        ControllerManager {}
    }

    /// The 8-byte state of the pad as it goes on the wire.
    pub fn poll(&self, pad: &PadSnapshot) -> (r: Vec<u8>)
        ensures
            r@ == pad_state_bytes(*pad),
    {
        let (buttons_state, stick_state) = self.fetch(pad);
        let mut data = ByteBuffer::new();
        data.write_i32(stick_state);
        data.write_i32(buttons_state);
        let bytes = data.into_vec();
        proof {
            let s = stick_word(*pad) as u32;
            let b = buttons_state_word(*pad) as u32;
            assert((s as i32) as u32 == s) by (bit_vector);
            assert((b as i32) as u32 == b) by (bit_vector);
            assert(bytes@ =~= pad_state_bytes(*pad));
        }
        bytes
    }

    /// The pad's (buttons-and-triggers word, stick word), as signed 32-bit
    /// values with the same bits.
    pub fn fetch(&self, pad: &PadSnapshot) -> (r: (i32, i32))
        ensures
            r.0 as u32 == buttons_state_word(*pad),
            r.1 as u32 == stick_word(*pad),
    {
        let p = &pad.pressed;
        let buttons = flag(p, Button::South) | flag(p, Button::East) | flag(p, Button::North)
            | flag(p, Button::West) | flag(p, Button::DPadLeft) | flag(p, Button::DPadUp)
            | flag(p, Button::DPadRight) | flag(p, Button::DPadDown) | flag(p, Button::Select)
            | flag(p, Button::Start) | flag(p, Button::C) | flag(p, Button::Z)
            | flag(p, Button::LeftTrigger) | flag(p, Button::LeftTrigger2)
            | flag(p, Button::RightTrigger) | flag(p, Button::RightTrigger2)
            | flag(p, Button::LeftThumb) | flag(p, Button::RightThumb)
            | flag(p, Button::Unknown) | flag(p, Button::Mode);
        let a = axis_part(pad.left_stick_x, Axis::LeftStickX);
        let b = axis_part(pad.left_stick_y, Axis::LeftStickY);
        let c = axis_part(pad.right_stick_x, Axis::RightStickX);
        let d = axis_part(pad.right_stick_y, Axis::RightStickY);
        let stick_state = a | b | c | d;
        let tl = trigger_part(pad.left_z, Axis::LeftZ);
        let tr = trigger_part(pad.right_z, Axis::RightZ);
        let trigger_state = tl | tr;
        let upper = self.overflow(trigger_state as i32);
        let buttons_state = (buttons as i32) | upper;
        proof {
            lemma_button_word_fits(pad.pressed@.to_set());
            let w = buttons;
            let lx = sample_value(pad.left_stick_x) as u32;
            let ly = sample_value(pad.left_stick_y) as u32;
            let rx = sample_value(pad.right_stick_x) as u32;
            let ry = sample_value(pad.right_stick_y) as u32;
            let lz = sample_value(pad.left_z) as u16;
            let rz = sample_value(pad.right_z) as u16;
            assert((a | b | c | d) as u32 == lx * 0x1000000 + ly * 0x10000 + rx * 0x100 + ry)
                by (bit_vector)
                requires
                    lx < 256, ly < 256, rx < 256, ry < 256,
                    a as u32 == lx * 0x1000000,
                    b as u32 == ly * 0x10000,
                    c as u32 == rx * 0x100,
                    d as u32 == ry,
            ;
            assert(((w as i32) | upper) as u32 == (lz as u32 * 0x100 + rz as u32) * 0x10000 + w)
                by (bit_vector)
                requires
                    w < 0x10000,
                    lz < 256, rz < 256,
                    tl as u16 == lz * 0x100,
                    tr as u16 == rz,
                    upper as u32 == (((tl | tr) as i32) as u32 % 0x10000) * 0x10000,
            ;
        }
        (buttons_state, stick_state)
    }

    /// Moves the low half of `state` into the upper half; the upper half
    /// of `state` is dropped.
    pub fn overflow(&self, state: i32) -> (r: i32)
        ensures
            r as u32 == (state as u32 % 0x10000) * 0x10000,
    {
        let r = ((state as u32) << 16u32) as i32;
        proof {
            let s = state as u32;
            assert((((s << 16u32) as i32) as u32) == (s % 0x10000) * 0x10000) by (bit_vector);
        }
        r
    }

    /// The buttons a pad is asked about, in the order their bits are
    /// gathered.
    pub fn buttons_iterator() -> (r: Vec<Button>)
        ensures
            r@ == seq![Button::South, Button::East, Button::North, Button::West,
                Button::DPadLeft, Button::DPadUp, Button::DPadRight, Button::DPadDown,
                Button::Select, Button::Start, Button::C, Button::Z, Button::LeftTrigger,
                Button::LeftTrigger2, Button::RightTrigger, Button::RightTrigger2,
                Button::LeftThumb, Button::RightThumb, Button::Unknown, Button::Mode],
    {
        vec![Button::South, Button::East, Button::North, Button::West, Button::DPadLeft,
            Button::DPadUp, Button::DPadRight, Button::DPadDown, Button::Select, Button::Start,
            Button::C, Button::Z, Button::LeftTrigger, Button::LeftTrigger2, Button::RightTrigger,
            Button::RightTrigger2, Button::LeftThumb, Button::RightThumb, Button::Unknown,
            Button::Mode]
    }

    /// The stick axes, in the order of their bytes in the stick word.
    pub fn axes_iterator() -> (r: Vec<Axis>)
        ensures
            r@ == seq![Axis::LeftStickX, Axis::LeftStickY, Axis::RightStickX, Axis::RightStickY],
    {
        vec![Axis::LeftStickX, Axis::LeftStickY, Axis::RightStickX, Axis::RightStickY]
    }

    /// The trigger axes, in the order of their bytes in the trigger word.
    pub fn triggers_iterator() -> (r: Vec<Axis>)
        ensures
            r@ == seq![Axis::LeftZ, Axis::RightZ],
    {
        vec![Axis::LeftZ, Axis::RightZ]
    }

    /// The bit a pressed button sets.
    pub fn map_button_state(button: Button) -> (r: i32)
        ensures
            r == button_bit(button) as int,
    {
        match button {
            Button::South => 0x0001,
            Button::East => 0x0002,
            Button::North => 0x0004,
            Button::West => 0x0008,
            Button::DPadLeft => 0x0010,
            Button::DPadUp => 0x0020,
            Button::DPadRight => 0x0040,
            Button::DPadDown => 0x0080,
            Button::Select => 0x0100,
            Button::Start => 0x0200,
            Button::C => 0,
            Button::Z => 0,
            Button::LeftTrigger => 0x0400,
            Button::LeftTrigger2 => 0,
            Button::RightTrigger => 0x0800,
            Button::RightTrigger2 => 0,
            Button::LeftThumb => 0x1000,
            Button::RightThumb => 0x2000,
            Button::Unknown => 0x4000,
            Button::Mode => 0x8000,
        }
    }

    /// A stick sample moved to its byte of the stick word; other axes give 0.
    pub fn map_axis_data(sample: u8, axis: Axis) -> (r: i32)
        ensures
            r as u32 == match axis {
                Axis::LeftStickX => sample * 0x1000000,
                Axis::LeftStickY => sample * 0x10000,
                Axis::RightStickX => sample * 0x100,
                Axis::RightStickY => sample as int,
                _ => 0,
            },
    {
        let result = sample as u32;
        proof {
            assert((((result << 24u32) as i32) as u32) == result * 0x1000000) by (bit_vector)
                requires
                    result < 256,
            ;
            assert(result << 16u32 == result * 0x10000) by (bit_vector)
                requires
                    result < 256,
            ;
            assert(result << 8u32 == result * 0x100) by (bit_vector)
                requires
                    result < 256,
            ;
        }
        match axis {
            Axis::LeftStickX => (result << 24u32) as i32,
            Axis::LeftStickY => (result << 16u32) as i32,
            Axis::RightStickX => (result << 8u32) as i32,
            Axis::RightStickY => result as i32,
            _ => 0,
        }
    }

    /// A trigger sample moved to its byte of the trigger word; other axes
    /// give 0.
    pub fn map_trigger_data(sample: u8, trigger: Axis) -> (r: i16)
        ensures
            r as u16 == match trigger {
                Axis::LeftZ => sample * 0x100,
                Axis::RightZ => sample as int,
                _ => 0,
            },
    {
        let result = sample as u16;
        proof {
            assert((((result << 8u16) as i16) as u16) == result * 0x100) by (bit_vector)
                requires
                    result < 256,
            ;
        }
        match trigger {
            Axis::LeftZ => (result << 8u16) as i16,
            Axis::RightZ => result as i16,
            _ => 0,
        }
    }
}

/// Whether `b` is among the buttons held down.
fn is_pressed(pressed: &Vec<Button>, b: Button) -> (r: bool)
    ensures
        r == pressed@.contains(b),
{
    let mut i: usize = 0;
    while i < pressed.len()
        invariant
            i <= pressed.len(),
            forall|j: int| 0 <= j < i ==> pressed@[j] != b,
        decreases pressed.len() - i,
    {
        if pressed[i] == b {
            return true;
        }
        i = i + 1;
    }
    false
}

/// What `b` contributes to the button word.
fn flag(pressed: &Vec<Button>, b: Button) -> (r: u32)
    ensures
        r == button_flag(pressed@.to_set(), b),
{
    if is_pressed(pressed, b) {
        ControllerManager::map_button_state(b) as u32
    } else {
        0
    }
}

/// A stick axis's part of the stick word; an axis not reported gives 0.
fn axis_part(sample: Option<u8>, axis: Axis) -> (r: i32)
    ensures
        r as u32 == match axis {
            Axis::LeftStickX => sample_value(sample) * 0x1000000,
            Axis::LeftStickY => sample_value(sample) * 0x10000,
            Axis::RightStickX => sample_value(sample) * 0x100,
            Axis::RightStickY => sample_value(sample),
            _ => 0,
        },
{
    match sample {
        Some(v) => ControllerManager::map_axis_data(v, axis),
        None => 0,
    }
}

/// A trigger axis's part of the trigger word; an axis not reported gives 0.
fn trigger_part(sample: Option<u8>, trigger: Axis) -> (r: i16)
    ensures
        r as u16 == match trigger {
            Axis::LeftZ => sample_value(sample) * 0x100,
            Axis::RightZ => sample_value(sample),
            _ => 0,
        },
{
    match sample {
        Some(v) => ControllerManager::map_trigger_data(v, trigger),
        None => 0,
    }
}

} // verus!
