//! The input snapshot of one controller and its packed 32-bit form.
//!
//! Bit 0 is the least significant bit of the packed word:
//!
//! ```text
//!  0: D-right   1: D-left    2: D-down    3: D-up
//!  4: start     5: Z         6: B         7: A
//!  8: C-right   9: C-left   10: C-down   11: C-up
//! 12: R        13: L        14: reserved 15: reserved
//! 16..23: x (two's complement)   24..31: y (two's complement)
//! ```
use vstd::prelude::*;

verus! {

/// The two reserved bits of the packed word. No field of a snapshot maps to
/// them.
pub const RESERVED_MASK: u32 = 0x0000_C000;

/// The bits of the packed word that carry a field of the snapshot.
pub const FIELD_MASK: u32 = 0xFFFF_3FFF;

/// The least value of an analog axis that the interactive session offers.
pub const AXIS_MIN: i8 = -127;

/// The greatest value of an analog axis that the interactive session offers.
pub const AXIS_MAX: i8 = 127;

/// Whether bit `index` of `value` is set.
#[verifier::opaque]
pub open spec fn bit_at(value: u32, index: u8) -> bool {
    (value >> index) & 1 == 1
}

/// Byte `index` of `value`; byte 0 is the least significant.
#[verifier::opaque]
pub open spec fn byte_at(value: u32, index: u8) -> u8 {
    ((value >> (8 * index) as u8) & 0xFF) as u8
}

/// `value` with bit `index` set to `bit` and every other bit kept.
#[verifier::opaque]
pub open spec fn with_bit(value: u32, index: u8, bit: bool) -> u32 {
    if bit {
        value | (1u32 << index)
    } else {
        value & !(1u32 << index)
    }
}

/// `value` with byte `index` replaced by `byte` and every other byte kept.
#[verifier::opaque]
pub open spec fn with_byte(value: u32, index: u8, byte: u8) -> u32 {
    ((byte as u32) << (8 * index) as u8) | (value & !(0xFFu32 << (8 * index) as u8))
}

/// The word in which bit `index` is set exactly if `pressed` holds, and no
/// other bit is.
#[verifier::opaque]
pub open spec fn flag(pressed: bool, index: u8) -> u32 {
    if pressed {
        1u32 << index
    } else {
        0u32
    }
}

/// The word that holds the fourteen buttons at bits 0 to 13, in the order
/// of the parameters, `x` in byte 2 and `y` in byte 3. Bits 14 and 15 are
/// clear.
#[verifier::opaque]
pub open spec fn packed(
    d_right: bool,
    d_left: bool,
    d_down: bool,
    d_up: bool,
    start: bool,
    z: bool,
    b: bool,
    a: bool,
    c_right: bool,
    c_left: bool,
    c_down: bool,
    c_up: bool,
    r: bool,
    l: bool,
    x: u8,
    y: u8,
) -> u32 {
    flag(d_right, 0) | flag(d_left, 1) | flag(d_down, 2) | flag(d_up, 3) | flag(start, 4) | flag(
        z,
        5,
    ) | flag(b, 6) | flag(a, 7) | flag(c_right, 8) | flag(c_left, 9) | flag(c_down, 10) | flag(
        c_up,
        11,
    ) | flag(r, 12) | flag(l, 13) | ((x as u32) << 16) | ((y as u32) << 24)
}

/// Reads bit `bit_index` of `value`.
pub fn get_bit(value: u32, bit_index: u8) -> (bit: bool)
    requires
        bit_index < 32,
    ensures
        bit == bit_at(value, bit_index),
{
    proof {
        reveal(bit_at);
    }
    ((value >> (bit_index as u32)) & 0x01) == 0x01
}

/// Reads byte `byte_index` of `value`.
pub fn get_byte(value: u32, byte_index: u8) -> (byte: u8)
    requires
        byte_index < 4,
    ensures
        byte == byte_at(value, byte_index),
{
    proof {
        reveal(byte_at);
    }
    let shifted: u32 = value >> ((byte_index * 8) as u32);
    assert(shifted & 0xFF <= 0xFF) by (bit_vector);
    (shifted & 0xFF) as u8
}

/// Sets bit `bit_index` of `value` to `bit_value`. Every other bit keeps its
/// value.
pub fn set_bit(value: &mut u32, bit_index: u8, bit_value: bool)
    requires
        bit_index < 32,
    ensures
        *final(value) == with_bit(*old(value), bit_index, bit_value),
{
    proof {
        reveal(with_bit);
    }
    let mask: u32 = 0x01u32 << bit_index;
    if bit_value {
        *value |= mask;
    } else {
        *value &= !mask;
    }
}

/// Replaces byte `byte_index` of `value` by `byte_value`. Every other byte
/// keeps its value.
pub fn set_byte(value: &mut u32, byte_index: u8, byte_value: u8)
    requires
        byte_index < 4,
    ensures
        *final(value) == with_byte(*old(value), byte_index, byte_value),
{
    proof {
        reveal(with_byte);
    }
    let shift: u32 = (byte_index * 8) as u32;
    let mask: u32 = !(0xFFu32 << shift);
    let byte_value_converted: u32 = byte_value as u32;
    *value = (byte_value_converted << shift) | (*value & mask);
}

/// `with_bit` changes the bit it names and no other.
pub proof fn lemma_with_bit(value: u32, index: u8, bit: bool)
    by (bit_vector)
    requires
        index < 32,
    ensures
        forall|i: u8|
            i < 32 ==> bit_at(with_bit(value, index, bit), i) == (if i == index {
                bit
            } else {
                bit_at(value, i)
            }),
{
}

/// `with_byte` changes the byte it names and no other.
pub proof fn lemma_with_byte(value: u32, index: u8, byte: u8)
    by (bit_vector)
    requires
        index < 4,
    ensures
        forall|i: u8|
            i < 4 ==> byte_at(with_byte(value, index, byte), i) == (if i == index {
                byte
            } else {
                byte_at(value, i)
            }),
{
}

/// The axis value for a number that the interactive session reports, if the
/// number lies in the range of an axis.
pub open spec fn axis_of(number: i32) -> Option<i8> {
    if AXIS_MIN <= number <= AXIS_MAX {
        Some(number as i8)
    } else {
        None
    }
}

/// Checks a number that the interactive session reports for an axis. The
/// range of an axis is `AXIS_MIN` to `AXIS_MAX`, both included; a number
/// outside it is no axis value.
pub fn axis_value(number: i32) -> (axis: Option<i8>)
    ensures
        axis == axis_of(number),
        axis matches Some(value) ==> value == number,
{
    if -127 <= number && number <= 127 {
        Some(number as i8)
    } else {
        None
    }
}

/// Builds the packed word from zero: the fourteen buttons bit by bit, then
/// the two axes byte by byte.
fn pack(
    d_right: bool,
    d_left: bool,
    d_down: bool,
    d_up: bool,
    start: bool,
    z: bool,
    b: bool,
    a: bool,
    c_right: bool,
    c_left: bool,
    c_down: bool,
    c_up: bool,
    r: bool,
    l: bool,
    x: u8,
    y: u8,
) -> (value: u32)
    ensures
        value == packed(
            d_right,
            d_left,
            d_down,
            d_up,
            start,
            z,
            b,
            a,
            c_right,
            c_left,
            c_down,
            c_up,
            r,
            l,
            x,
            y,
        ),
{
    let mut value: u32 = 0;
    set_bit(&mut value, 0, d_right);
    set_bit(&mut value, 1, d_left);
    set_bit(&mut value, 2, d_down);
    set_bit(&mut value, 3, d_up);
    set_bit(&mut value, 4, start);
    set_bit(&mut value, 5, z);
    set_bit(&mut value, 6, b);
    set_bit(&mut value, 7, a);
    set_bit(&mut value, 8, c_right);
    set_bit(&mut value, 9, c_left);
    set_bit(&mut value, 10, c_down);
    set_bit(&mut value, 11, c_up);
    set_bit(&mut value, 12, r);
    set_bit(&mut value, 13, l);
    set_byte(&mut value, 2, x);
    set_byte(&mut value, 3, y);
    proof {
        lemma_packing(
            d_right,
            d_left,
            d_down,
            d_up,
            start,
            z,
            b,
            a,
            c_right,
            c_left,
            c_down,
            c_up,
            r,
            l,
            x,
            y,
        );
    }
    value
}

/// One four-way group of directional buttons.
#[derive(Debug, Copy, Clone, PartialEq, Eq, Structural)]
pub struct Directional {
    pub up: bool,
    pub down: bool,
    pub left: bool,
    pub right: bool,
}

impl Directional {
    /// A group with the given buttons pressed.
    pub fn new(up: bool, down: bool, left: bool, right: bool) -> (group: Directional)
        ensures
            group == (Directional { up, down, left, right }),
    {
        Directional { up, down, left, right }
    }
}

/// Names one of the two directional groups of a controller.
#[derive(Debug, Copy, Clone, PartialEq, Eq, Structural)]
pub enum DirectionalType {
    /// The C buttons.
    C,
    /// The directional pad.
    D,
}

/// The logical inputs of one controller at one moment.
///
/// Every combination of field values is a valid snapshot.
#[derive(Debug, Copy, Clone, PartialEq, Eq, Structural)]
pub struct Inputs {
    pub a: bool,
    pub b: bool,
    pub z: bool,
    pub l: bool,
    pub r: bool,
    pub c: Directional,
    pub d: Directional,
    pub start: bool,
    pub x: i8,
    pub y: i8,
}

/// A snapshot under the names of the host's bit-field record: one member
/// for each field of that record, in its order. A button member is 1 when
/// the button is pressed and 0 when it is not.
#[derive(Debug, Copy, Clone, PartialEq, Eq, Structural)]
pub struct Buttons {
    pub r_dpad: u32,
    pub l_dpad: u32,
    pub d_dpad: u32,
    pub u_dpad: u32,
    pub start_button: u32,
    pub z_trig: u32,
    pub b_button: u32,
    pub a_button: u32,
    pub r_cbutton: u32,
    pub l_cbutton: u32,
    pub d_cbutton: u32,
    pub u_cbutton: u32,
    pub r_trig: u32,
    pub l_trig: u32,
    pub reserved1: u32,
    pub reserved2: u32,
    pub x_axis: i32,
    pub y_axis: i32,
}

/// The member that stands for a button: 1 when pressed, else 0.
#[verifier::opaque]
pub open spec fn member(pressed: bool) -> u32 {
    if pressed {
        1
    } else {
        0
    }
}

impl Buttons {
    /// Whether every member fits the width that the host's record gives it:
    /// one bit for a button, none for the reserved members, a signed byte
    /// for an axis.
    pub open spec fn well_formed(self) -> bool {
        &&& self.r_dpad <= 1
        &&& self.l_dpad <= 1
        &&& self.d_dpad <= 1
        &&& self.u_dpad <= 1
        &&& self.start_button <= 1
        &&& self.z_trig <= 1
        &&& self.b_button <= 1
        &&& self.a_button <= 1
        &&& self.r_cbutton <= 1
        &&& self.l_cbutton <= 1
        &&& self.d_cbutton <= 1
        &&& self.u_cbutton <= 1
        &&& self.r_trig <= 1
        &&& self.l_trig <= 1
        &&& self.reserved1 == 0
        &&& self.reserved2 == 0
        &&& -128 <= self.x_axis <= 127
        &&& -128 <= self.y_axis <= 127
    }

    /// The snapshot that a well-formed record stands for.
    pub open spec fn snapshot(self) -> Inputs {
        Inputs {
            a: self.a_button == 1,
            b: self.b_button == 1,
            z: self.z_trig == 1,
            l: self.l_trig == 1,
            r: self.r_trig == 1,
            c: Directional {
                up: self.u_cbutton == 1,
                down: self.d_cbutton == 1,
                left: self.l_cbutton == 1,
                right: self.r_cbutton == 1,
            },
            d: Directional {
                up: self.u_dpad == 1,
                down: self.d_dpad == 1,
                left: self.l_dpad == 1,
                right: self.r_dpad == 1,
            },
            start: self.start_button == 1,
            x: self.x_axis as i8,
            y: self.y_axis as i8,
        }
    }

    /// The 32-bit word that the host reads from the record. Each member
    /// stands at its place, in order from bit 0 upwards, cut to the width
    /// of its field: one bit for a button or a reserved member, one byte
    /// for an axis.
    pub open spec fn word(self) -> u32 {
        packed(
            bit_at(self.r_dpad, 0),
            bit_at(self.l_dpad, 0),
            bit_at(self.d_dpad, 0),
            bit_at(self.u_dpad, 0),
            bit_at(self.start_button, 0),
            bit_at(self.z_trig, 0),
            bit_at(self.b_button, 0),
            bit_at(self.a_button, 0),
            bit_at(self.r_cbutton, 0),
            bit_at(self.l_cbutton, 0),
            bit_at(self.d_cbutton, 0),
            bit_at(self.u_cbutton, 0),
            bit_at(self.r_trig, 0),
            bit_at(self.l_trig, 0),
            self.x_axis as u8,
            self.y_axis as u8,
        ) | flag(bit_at(self.reserved1, 0), 14) | flag(bit_at(self.reserved2, 0), 15)
    }

    /// Packs the record into the word that the host reads. For a
    /// well-formed record that is the encoding of its snapshot.
    pub fn value(&self) -> (word: u32)
        ensures
            word == self.word(),
            self.well_formed() ==> word == self.snapshot().encoding(),
    {
        let x: u32 = (#[verifier::truncate] (self.x_axis as u32)) & 0xFF;
        let y: u32 = (#[verifier::truncate] (self.y_axis as u32)) & 0xFF;
        proof {
            lemma_record_word(
                self.r_dpad,
                self.l_dpad,
                self.d_dpad,
                self.u_dpad,
                self.start_button,
                self.z_trig,
                self.b_button,
                self.a_button,
                self.r_cbutton,
                self.l_cbutton,
                self.d_cbutton,
                self.u_cbutton,
                self.r_trig,
                self.l_trig,
                self.reserved1,
                self.reserved2,
                self.x_axis,
                self.y_axis,
            );
            if self.well_formed() {
                lemma_well_formed_word(*self);
            }
        }
        (self.r_dpad & 1) | ((self.l_dpad & 1) << 1) | ((self.d_dpad & 1) << 2) | ((self.u_dpad
            & 1) << 3) | ((self.start_button & 1) << 4) | ((self.z_trig & 1) << 5) | ((
        self.b_button & 1) << 6) | ((self.a_button & 1) << 7) | ((self.r_cbutton & 1) << 8) | ((
        self.l_cbutton & 1) << 9) | ((self.d_cbutton & 1) << 10) | ((self.u_cbutton & 1) << 11)
            | ((self.r_trig & 1) << 12) | ((self.l_trig & 1) << 13) | ((self.reserved1 & 1) << 14)
            | ((self.reserved2 & 1) << 15) | (x << 16) | (y << 24)
    }
}

impl Inputs {
    /// The packed word of this snapshot: each button at its bit, each axis
    /// in its byte, the reserved bits clear.
    pub open spec fn encoding(self) -> u32 {
        packed(
            self.d.right,
            self.d.left,
            self.d.down,
            self.d.up,
            self.start,
            self.z,
            self.b,
            self.a,
            self.c.right,
            self.c.left,
            self.c.down,
            self.c.up,
            self.r,
            self.l,
            self.x as u8,
            self.y as u8,
        )
    }

    /// The snapshot that a packed word stands for. The reserved bits of the
    /// word are not read.
    pub open spec fn decoding(value: u32) -> Inputs {
        Inputs {
            a: bit_at(value, 7),
            b: bit_at(value, 6),
            z: bit_at(value, 5),
            l: bit_at(value, 13),
            r: bit_at(value, 12),
            c: Directional {
                up: bit_at(value, 11),
                down: bit_at(value, 10),
                left: bit_at(value, 9),
                right: bit_at(value, 8),
            },
            d: Directional {
                up: bit_at(value, 3),
                down: bit_at(value, 2),
                left: bit_at(value, 1),
                right: bit_at(value, 0),
            },
            start: bit_at(value, 4),
            x: byte_at(value, 2) as i8,
            y: byte_at(value, 3) as i8,
        }
    }

    /// The snapshot with nothing pressed and both axes at rest.
    pub open spec fn neutral() -> Inputs {
        Inputs {
            a: false,
            b: false,
            z: false,
            l: false,
            r: false,
            c: Directional { up: false, down: false, left: false, right: false },
            d: Directional { up: false, down: false, left: false, right: false },
            start: false,
            x: 0,
            y: 0,
        }
    }

    /// Packs this snapshot into its 32-bit word.
    pub fn to_value(&self) -> (value: u32)
        ensures
            value == self.encoding(),
    {
        pack(
            self.d.right,
            self.d.left,
            self.d.down,
            self.d.up,
            self.start,
            self.z,
            self.b,
            self.a,
            self.c.right,
            self.c.left,
            self.c.down,
            self.c.up,
            self.r,
            self.l,
            #[verifier::truncate]
            (self.x as u8),
            #[verifier::truncate]
            (self.y as u8),
        )
    }

    /// A snapshot from its axes, its buttons and its two directional groups.
    pub fn with_directionals(
        x: i8,
        y: i8,
        a: bool,
        b: bool,
        z: bool,
        l: bool,
        r: bool,
        start: bool,
        c: Directional,
        d: Directional,
    ) -> (inputs: Inputs)
        ensures
            inputs == (Inputs { a, b, z, l, r, c, d, start, x, y }),
    {
        Inputs { a, b, z, l, r, c, d, start, x, y }
    }

    /// A snapshot from its axes and each of its buttons.
    pub fn new(
        x: i8,
        y: i8,
        a: bool,
        b: bool,
        z: bool,
        l: bool,
        r: bool,
        start: bool,
        c_up: bool,
        c_down: bool,
        c_left: bool,
        c_right: bool,
        d_up: bool,
        d_down: bool,
        d_left: bool,
        d_right: bool,
    ) -> (inputs: Inputs)
        ensures
            inputs == (Inputs {
                a,
                b,
                z,
                l,
                r,
                c: Directional { up: c_up, down: c_down, left: c_left, right: c_right },
                d: Directional { up: d_up, down: d_down, left: d_left, right: d_right },
                start,
                x,
                y,
            }),
    {
        Inputs::with_directionals(
            x,
            y,
            a,
            b,
            z,
            l,
            r,
            start,
            Directional::new(c_up, c_down, c_left, c_right),
            Directional::new(d_up, d_down, d_left, d_right),
        )
    }

    /// Unpacks a 32-bit word. Every word stands for a snapshot.
    pub fn from_value(value: u32) -> (inputs: Inputs)
        ensures
            inputs == Inputs::decoding(value),
    {
        let d = Directional::new(
            get_bit(value, 3),
            get_bit(value, 2),
            get_bit(value, 1),
            get_bit(value, 0),
        );
        let start = get_bit(value, 4);
        let z = get_bit(value, 5);
        let b = get_bit(value, 6);
        let a = get_bit(value, 7);
        let c = Directional::new(
            get_bit(value, 11),
            get_bit(value, 10),
            get_bit(value, 9),
            get_bit(value, 8),
        );
        let r = get_bit(value, 12);
        let l = get_bit(value, 13);
        let x = get_byte(value, 2) as i8;
        let y = get_byte(value, 3) as i8;
        Inputs::with_directionals(x, y, a, b, z, l, r, start, c, d)
    }

    /// The directional group that `which` names.
    pub fn directional(&self, which: DirectionalType) -> (group: Directional)
        ensures
            group == (match which {
                DirectionalType::C => self.c,
                DirectionalType::D => self.d,
            }),
    {
        match which {
            DirectionalType::C => self.c,
            DirectionalType::D => self.d,
        }
    }

    /// Replaces the directional group that `which` names. Nothing else
    /// changes.
    pub fn set_directional(&mut self, which: DirectionalType, group: Directional)
        ensures
            *final(self) == (match which {
                DirectionalType::C => Inputs { c: group, ..*old(self) },
                DirectionalType::D => Inputs { d: group, ..*old(self) },
            }),
    {
        match which {
            DirectionalType::C => {
                self.c = group;
            },
            DirectionalType::D => {
                self.d = group;
            },
        }
    }

    /// This snapshot under the names of the host's record.
    pub open spec fn canonical(self) -> Buttons {
        Buttons {
            r_dpad: member(self.d.right),
            l_dpad: member(self.d.left),
            d_dpad: member(self.d.down),
            u_dpad: member(self.d.up),
            start_button: member(self.start),
            z_trig: member(self.z),
            b_button: member(self.b),
            a_button: member(self.a),
            r_cbutton: member(self.c.right),
            l_cbutton: member(self.c.left),
            d_cbutton: member(self.c.down),
            u_cbutton: member(self.c.up),
            r_trig: member(self.r),
            l_trig: member(self.l),
            reserved1: 0,
            reserved2: 0,
            x_axis: self.x as i32,
            y_axis: self.y as i32,
        }
    }

    /// This snapshot under the names of the host's record: 1 for each
    /// pressed button, 0 for the others and for the reserved members, and
    /// each axis at its value.
    pub fn to_canonical(&self) -> (record: Buttons)
        ensures
            record == self.canonical(),
            record.well_formed(),
            record.snapshot() == *self,
    {
        proof {
            lemma_canonical(*self);
        }
        Buttons {
            r_dpad: cify_bool(self.d.right),
            l_dpad: cify_bool(self.d.left),
            d_dpad: cify_bool(self.d.down),
            u_dpad: cify_bool(self.d.up),
            start_button: cify_bool(self.start),
            z_trig: cify_bool(self.z),
            b_button: cify_bool(self.b),
            a_button: cify_bool(self.a),
            r_cbutton: cify_bool(self.c.right),
            l_cbutton: cify_bool(self.c.left),
            d_cbutton: cify_bool(self.c.down),
            u_cbutton: cify_bool(self.c.up),
            r_trig: cify_bool(self.r),
            l_trig: cify_bool(self.l),
            reserved1: 0,
            reserved2: 0,
            x_axis: self.x as i32,
            y_axis: self.y as i32,
        }
    }
}

/// The host's number for a truth value.
fn cify_bool(pressed: bool) -> (number: u32)
    ensures
        number == member(pressed),
{
    proof {
        reveal(member);
    }
    if pressed {
        1
    } else {
        0
    }
}

impl Default for Inputs {
    /// The snapshot with nothing pressed and both axes at rest.
    fn default() -> (inputs: Inputs)
        ensures
            inputs == Inputs::neutral(),
    {
        proof {
            lemma_zero_is_neutral();
        }
        Inputs::from_value(0)
    }
}

/// Setting the fourteen buttons bit by bit and the two axes byte by byte,
/// from zero, gives the word in which every field stands at its place.
proof fn lemma_packing(
    dr: bool,
    dl: bool,
    dd: bool,
    du: bool,
    st: bool,
    z: bool,
    b: bool,
    a: bool,
    cr: bool,
    cl: bool,
    cd: bool,
    cu: bool,
    r: bool,
    l: bool,
    x: u8,
    y: u8,
)
    by (bit_vector)
    ensures
        with_byte(
            with_byte(
                with_bit(
                    with_bit(
                        with_bit(
                            with_bit(
                                with_bit(
                                    with_bit(
                                        with_bit(
                                            with_bit(
                                                with_bit(
                                                    with_bit(
                                                        with_bit(
                                                            with_bit(
                                                                with_bit(
                                                                    with_bit(0u32, 0, dr),
                                                                    1,
                                                                    dl,
                                                                ),
                                                                2,
                                                                dd,
                                                            ),
                                                            3,
                                                            du,
                                                        ),
                                                        4,
                                                        st,
                                                    ),
                                                    5,
                                                    z,
                                                ),
                                                6,
                                                b,
                                            ),
                                            7,
                                            a,
                                        ),
                                        8,
                                        cr,
                                    ),
                                    9,
                                    cl,
                                ),
                                10,
                                cd,
                            ),
                            11,
                            cu,
                        ),
                        12,
                        r,
                    ),
                    13,
                    l,
                ),
                2,
                x,
            ),
            3,
            y,
        ) == packed(dr, dl, dd, du, st, z, b, a, cr, cl, cd, cu, r, l, x, y),
{
}

/// The word zero stands for the neutral snapshot.
pub proof fn lemma_zero_is_neutral()
    ensures
        Inputs::decoding(0) == Inputs::neutral(),
{
    assert(forall|i: u8| i < 32 ==> !#[trigger] bit_at(0u32, i)) by (bit_vector);
    assert(byte_at(0u32, 2) as i8 == 0i8 && byte_at(0u32, 3) as i8 == 0i8) by (bit_vector);
}

/// Each field of a packed word can be read back at its place, and the
/// reserved bits are clear.
proof fn lemma_unpacking(
    dr: bool,
    dl: bool,
    dd: bool,
    du: bool,
    st: bool,
    z: bool,
    b: bool,
    a: bool,
    cr: bool,
    cl: bool,
    cd: bool,
    cu: bool,
    r: bool,
    l: bool,
    x: u8,
    y: u8,
)
    by (bit_vector)
    ensures
        ({
            let w = packed(dr, dl, dd, du, st, z, b, a, cr, cl, cd, cu, r, l, x, y);
            &&& bit_at(w, 0) == dr
            &&& bit_at(w, 1) == dl
            &&& bit_at(w, 2) == dd
            &&& bit_at(w, 3) == du
            &&& bit_at(w, 4) == st
            &&& bit_at(w, 5) == z
            &&& bit_at(w, 6) == b
            &&& bit_at(w, 7) == a
            &&& bit_at(w, 8) == cr
            &&& bit_at(w, 9) == cl
            &&& bit_at(w, 10) == cd
            &&& bit_at(w, 11) == cu
            &&& bit_at(w, 12) == r
            &&& bit_at(w, 13) == l
            &&& !bit_at(w, 14)
            &&& !bit_at(w, 15)
            &&& byte_at(w, 2) == x
            &&& byte_at(w, 3) == y
            &&& w & RESERVED_MASK == 0
        }),
{
}

/// Packing the fields read from a word gives the word back, but for its
/// reserved bits.
proof fn lemma_repacking(value: u32)
    by (bit_vector)
    ensures
        packed(
            bit_at(value, 0),
            bit_at(value, 1),
            bit_at(value, 2),
            bit_at(value, 3),
            bit_at(value, 4),
            bit_at(value, 5),
            bit_at(value, 6),
            bit_at(value, 7),
            bit_at(value, 8),
            bit_at(value, 9),
            bit_at(value, 10),
            bit_at(value, 11),
            bit_at(value, 12),
            bit_at(value, 13),
            byte_at(value, 2),
            byte_at(value, 3),
        ) == value & FIELD_MASK,
{
}

/// A signed byte and its two's complement bit pattern determine each
/// other.
proof fn lemma_axis_bytes(signed: i8, unsigned: u8)
    by (bit_vector)
    ensures
        (signed as u8) as i8 == signed,
        (unsigned as i8) as u8 == unsigned,
{
}

/// Decoding what `encoding` gives reproduces every field of the snapshot.
pub proof fn lemma_decode_encode(s: Inputs)
    ensures
        Inputs::decoding(s.encoding()) == s,
{
    let t = Inputs::decoding(s.encoding());
    lemma_unpacking(
        s.d.right,
        s.d.left,
        s.d.down,
        s.d.up,
        s.start,
        s.z,
        s.b,
        s.a,
        s.c.right,
        s.c.left,
        s.c.down,
        s.c.up,
        s.r,
        s.l,
        s.x as u8,
        s.y as u8,
    );
    lemma_axis_bytes(s.x, 0);
    lemma_axis_bytes(s.y, 0);
    assert(t.c == s.c);
    assert(t.d == s.d);
    assert(t.x == s.x);
    assert(t.y == s.y);
}

/// The two reserved bits of an encoding are clear: no snapshot reaches
/// them.
pub proof fn lemma_reserved_clear(s: Inputs)
    ensures
        s.encoding() & RESERVED_MASK == 0,
        !bit_at(s.encoding(), 14),
        !bit_at(s.encoding(), 15),
{
    lemma_unpacking(
        s.d.right,
        s.d.left,
        s.d.down,
        s.d.up,
        s.start,
        s.z,
        s.b,
        s.a,
        s.c.right,
        s.c.left,
        s.c.down,
        s.c.up,
        s.r,
        s.l,
        s.x as u8,
        s.y as u8,
    );
}

/// Two snapshots that differ in any field have different encodings.
pub proof fn lemma_encode_injective(s1: Inputs, s2: Inputs)
    requires
        s1 != s2,
    ensures
        s1.encoding() != s2.encoding(),
{
    lemma_decode_encode(s1);
    lemma_decode_encode(s2);
}

/// Encoding what `decoding` reads from a word gives the word back with its
/// two reserved bits cleared, whatever they held.
pub proof fn lemma_encode_decode(value: u32)
    ensures
        Inputs::decoding(value).encoding() == value & FIELD_MASK,
{
    lemma_repacking(value);
    lemma_axis_bytes(0, byte_at(value, 2));
    lemma_axis_bytes(0, byte_at(value, 3));
}

/// The reserved bits of a word have no part in what it decodes to.
pub proof fn lemma_reserved_ignored(value: u32)
    ensures
        Inputs::decoding(value) == Inputs::decoding(value & FIELD_MASK),
{
    let masked = value & FIELD_MASK;
    assert(forall|i: u8| i < 14 ==> #[trigger] bit_at(masked, i) == bit_at(value, i))
        by (bit_vector)
        requires
            masked == value & FIELD_MASK,
    ;
    assert(byte_at(masked, 2) == byte_at(value, 2) && byte_at(masked, 3) == byte_at(value, 3))
        by (bit_vector)
        requires
            masked == value & FIELD_MASK,
    ;
    let t = Inputs::decoding(masked);
    let u = Inputs::decoding(value);
    assert(t.c == u.c);
    assert(t.d == u.d);
}

/// The members of a record, each cut to its width and shifted to its
/// place, make up the word of the record.
proof fn lemma_record_word(
    dr: u32,
    dl: u32,
    dd: u32,
    du: u32,
    st: u32,
    z: u32,
    b: u32,
    a: u32,
    cr: u32,
    cl: u32,
    cd: u32,
    cu: u32,
    r: u32,
    l: u32,
    r1: u32,
    r2: u32,
    x: i32,
    y: i32,
)
    by (bit_vector)
    ensures
        (dr & 1) | ((dl & 1) << 1) | ((dd & 1) << 2) | ((du & 1) << 3) | ((st & 1) << 4) | ((z & 1)
            << 5) | ((b & 1) << 6) | ((a & 1) << 7) | ((cr & 1) << 8) | ((cl & 1) << 9) | ((cd & 1)
            << 10) | ((cu & 1) << 11) | ((r & 1) << 12) | ((l & 1) << 13) | ((r1 & 1) << 14) | ((r2
            & 1) << 15) | (((x as u32) & 0xFF) << 16) | (((y as u32) & 0xFF) << 24) == packed(
            bit_at(dr, 0),
            bit_at(dl, 0),
            bit_at(dd, 0),
            bit_at(du, 0),
            bit_at(st, 0),
            bit_at(z, 0),
            bit_at(b, 0),
            bit_at(a, 0),
            bit_at(cr, 0),
            bit_at(cl, 0),
            bit_at(cd, 0),
            bit_at(cu, 0),
            bit_at(r, 0),
            bit_at(l, 0),
            x as u8,
            y as u8,
        ) | flag(bit_at(r1, 0), 14) | flag(bit_at(r2, 0), 15),
{
}

/// A button's member is 0 or 1, and is 1 exactly if the button is pressed.
pub proof fn lemma_member(pressed: bool)
    ensures
        member(pressed) <= 1,
        (member(pressed) == 1) == pressed,
{
    reveal(member);
}

/// The canonical record of a snapshot is well-formed and stands for the
/// snapshot: naming the fields as the host does loses nothing.
pub proof fn lemma_canonical(s: Inputs)
    ensures
        s.canonical().well_formed(),
        s.canonical().snapshot() == s,
{
    lemma_member(s.d.right);
    lemma_member(s.d.left);
    lemma_member(s.d.down);
    lemma_member(s.d.up);
    lemma_member(s.start);
    lemma_member(s.z);
    lemma_member(s.b);
    lemma_member(s.a);
    lemma_member(s.c.right);
    lemma_member(s.c.left);
    lemma_member(s.c.down);
    lemma_member(s.c.up);
    lemma_member(s.r);
    lemma_member(s.l);
    let t = s.canonical().snapshot();
    assert(t.c == s.c);
    assert(t.d == s.d);
}

/// The lowest bit of a member that is 0 or 1 tells whether it is 1, and a
/// member that is 0 adds nothing to a word.
proof fn lemma_member_bits(member: u32, word: u32, axis: i32)
    by (bit_vector)
    ensures
        member <= 1 ==> bit_at(member, 0) == (member == 1),
        word | flag(bit_at(0u32, 0), 14) | flag(bit_at(0u32, 0), 15) == word,
        -128 <= axis <= 127 ==> axis as u8 == (axis as i8) as u8,
{
}

/// The word of a well-formed record is the encoding of its snapshot.
pub proof fn lemma_well_formed_word(record: Buttons)
    requires
        record.well_formed(),
    ensures
        record.word() == record.snapshot().encoding(),
{
    lemma_member_bits(record.r_dpad, 0, record.x_axis);
    lemma_member_bits(record.l_dpad, 0, record.y_axis);
    lemma_member_bits(record.d_dpad, 0, 0);
    lemma_member_bits(record.u_dpad, 0, 0);
    lemma_member_bits(record.start_button, 0, 0);
    lemma_member_bits(record.z_trig, 0, 0);
    lemma_member_bits(record.b_button, 0, 0);
    lemma_member_bits(record.a_button, 0, 0);
    lemma_member_bits(record.r_cbutton, 0, 0);
    lemma_member_bits(record.l_cbutton, 0, 0);
    lemma_member_bits(record.d_cbutton, 0, 0);
    lemma_member_bits(record.u_cbutton, 0, 0);
    lemma_member_bits(record.r_trig, 0, 0);
    lemma_member_bits(record.l_trig, 0, 0);
    lemma_member_bits(0, record.snapshot().encoding(), 0);
}

} // verus!
