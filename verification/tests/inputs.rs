use tasinput2::inputs::{
    axis_value, get_bit, get_byte, set_bit, set_byte, AXIS_MAX, AXIS_MIN, FIELD_MASK,
    RESERVED_MASK,
};
use tasinput2::{Buttons, Directional, DirectionalType, Inputs};

fn sample() -> Inputs {
    Inputs::new(
        -5, 100, true, false, true, false, true, false, true, false, false, true, false, true,
        true, false,
    )
}

#[test]
fn get_bit_test() {
    let val: u32 = 0b10101100;
    assert_eq!(get_bit(val, 0), false);
    assert_eq!(get_bit(val, 1), false);
    assert_eq!(get_bit(val, 2), true);
    assert_eq!(get_bit(val, 3), true);
    assert_eq!(get_bit(val, 4), false);
    assert_eq!(get_bit(val, 5), true);
    assert_eq!(get_bit(val, 6), false);
    assert_eq!(get_bit(val, 7), true);
}

#[test]
fn get_byte_test() {
    let val: u32 = 0b10101100010101011111000010101010;
    assert_eq!(get_byte(val, 0), 0b10101010);
    assert_eq!(get_byte(val, 1), 0b11110000);
    assert_eq!(get_byte(val, 2), 0b01010101);
    assert_eq!(get_byte(val, 3), 0b10101100);
}

#[test]
fn set_bit_test() {
    let mut val: u32 = 0b10101100;
    set_bit(&mut val, 1, true);
    assert_eq!(val, 0b10101110);
    set_bit(&mut val, 7, false);
    assert_eq!(val, 0b00101110);
}

#[test]
fn set_byte_test() {
    let mut val: u32 = 0b10101100010101011111000010101010;
    set_byte(&mut val, 0, 0b11111111);
    assert_eq!(val, 0b10101100010101011111000011111111);
}

#[test]
fn get_bit_reads_the_highest_bit() {
    assert_eq!(get_bit(0x8000_0000, 31), true);
    assert_eq!(get_bit(0x7FFF_FFFF, 31), false);
}

#[test]
fn set_bit_keeps_a_bit_that_already_holds_the_value() {
    let mut val: u32 = 0xFFFF_FFFF;
    set_bit(&mut val, 31, true);
    assert_eq!(val, 0xFFFF_FFFF);
    let mut zero: u32 = 0;
    set_bit(&mut zero, 0, false);
    assert_eq!(zero, 0);
}

#[test]
fn set_byte_replaces_each_byte_in_turn() {
    let mut val: u32 = 0x1122_3344;
    set_byte(&mut val, 3, 0xAB);
    assert_eq!(val, 0xAB22_3344);
    set_byte(&mut val, 2, 0x00);
    assert_eq!(val, 0xAB00_3344);
    set_byte(&mut val, 1, 0xFF);
    assert_eq!(val, 0xAB00_FF44);
}

#[test]
fn directional_new_keeps_the_order_of_its_arguments() {
    let group = Directional::new(true, false, false, true);
    assert_eq!(group, Directional { up: true, down: false, left: false, right: true });
}

#[test]
fn new_and_with_directionals_agree() {
    let direct = Inputs::with_directionals(
        -5,
        100,
        true,
        false,
        true,
        false,
        true,
        false,
        Directional::new(true, false, false, true),
        Directional::new(false, true, true, false),
    );
    assert_eq!(sample(), direct);
    assert_eq!(direct.x, -5);
    assert_eq!(direct.y, 100);
    assert!(direct.a && !direct.b && direct.z && !direct.l && direct.r && !direct.start);
    assert_eq!(direct.c, Directional { up: true, down: false, left: false, right: true });
    assert_eq!(direct.d, Directional { up: false, down: true, left: true, right: false });
}

#[test]
fn default_is_the_neutral_snapshot() {
    let neutral = Inputs::default();
    assert_eq!(
        neutral,
        Inputs::new(
            0, 0, false, false, false, false, false, false, false, false, false, false, false,
            false, false, false
        )
    );
    assert_eq!(neutral.to_value(), 0);
}

#[test]
fn each_button_has_its_bit() {
    let none = Inputs::default();
    assert_eq!(Inputs { d: Directional { right: true, ..none.d }, ..none }.to_value(), 1 << 0);
    assert_eq!(Inputs { d: Directional { left: true, ..none.d }, ..none }.to_value(), 1 << 1);
    assert_eq!(Inputs { d: Directional { down: true, ..none.d }, ..none }.to_value(), 1 << 2);
    assert_eq!(Inputs { d: Directional { up: true, ..none.d }, ..none }.to_value(), 1 << 3);
    assert_eq!(Inputs { start: true, ..none }.to_value(), 1 << 4);
    assert_eq!(Inputs { z: true, ..none }.to_value(), 1 << 5);
    assert_eq!(Inputs { b: true, ..none }.to_value(), 1 << 6);
    assert_eq!(Inputs { a: true, ..none }.to_value(), 1 << 7);
    assert_eq!(Inputs { c: Directional { right: true, ..none.c }, ..none }.to_value(), 1 << 8);
    assert_eq!(Inputs { c: Directional { left: true, ..none.c }, ..none }.to_value(), 1 << 9);
    assert_eq!(Inputs { c: Directional { down: true, ..none.c }, ..none }.to_value(), 1 << 10);
    assert_eq!(Inputs { c: Directional { up: true, ..none.c }, ..none }.to_value(), 1 << 11);
    assert_eq!(Inputs { r: true, ..none }.to_value(), 1 << 12);
    assert_eq!(Inputs { l: true, ..none }.to_value(), 1 << 13);
}

#[test]
fn axes_are_packed_in_twos_complement() {
    let none = Inputs::default();
    assert_eq!(Inputs { x: 42, ..none }.to_value(), 0x002A_0000);
    assert_eq!(Inputs { x: -1, ..none }.to_value(), 0x00FF_0000);
    assert_eq!(Inputs { x: -128, ..none }.to_value(), 0x0080_0000);
    assert_eq!(Inputs { y: 127, ..none }.to_value(), 0x7F00_0000);
    assert_eq!(Inputs { y: -127, ..none }.to_value(), 0x8100_0000);
}

#[test]
fn a_pressed_and_x_42_pack_to_the_documented_word() {
    let none = Inputs::default();
    let snapshot = Inputs { a: true, x: 42, ..none };
    assert_eq!(snapshot.to_value(), 0x002A_0080);
    assert_eq!(
        snapshot.to_value().to_le_bytes(),
        [0b10000000, 0b00000000, 0b00101010, 0b00000000]
    );
}

#[test]
fn decoding_an_encoding_gives_the_snapshot_back() {
    let snapshot = sample();
    assert_eq!(Inputs::from_value(snapshot.to_value()), snapshot);
    assert_eq!(snapshot.to_value() & RESERVED_MASK, 0);
    let mut x: i8 = -128;
    loop {
        let probe = Inputs { x, y: x.wrapping_neg(), ..snapshot };
        assert_eq!(Inputs::from_value(probe.to_value()), probe);
        if x == 127 {
            break;
        }
        x += 1;
    }
}

#[test]
fn every_combination_of_buttons_survives_the_round_trip() {
    let mut bits: u32 = 0;
    while bits < (1 << 14) {
        let snapshot = Inputs::from_value(bits | 0x1234_0000);
        assert_eq!(snapshot.to_value(), bits | 0x1234_0000);
        assert_eq!(Inputs::from_value(snapshot.to_value()), snapshot);
        bits += 1;
    }
}

#[test]
fn different_snapshots_have_different_encodings() {
    let snapshot = sample();
    let other = Inputs { l: !snapshot.l, ..snapshot };
    assert_ne!(snapshot.to_value(), other.to_value());
    let shifted = Inputs { y: snapshot.y - 1, ..snapshot };
    assert_ne!(snapshot.to_value(), shifted.to_value());
}

#[test]
fn reserved_bits_are_read_back_as_zero() {
    let word: u32 = 0xFFFF_FFFF;
    let snapshot = Inputs::from_value(word);
    assert_eq!(snapshot.to_value(), 0xFFFF_3FFF);
    assert_eq!(snapshot.to_value(), word & FIELD_MASK);
    assert_eq!(Inputs::from_value(0x0000_C000), Inputs::default());
    assert_eq!(Inputs::from_value(0x0000_4000).to_value(), 0);
}

#[test]
fn from_value_reads_each_field_at_its_place() {
    let snapshot = Inputs::from_value(0x81_7F_2A_95);
    assert_eq!(snapshot.y, -127);
    assert_eq!(snapshot.x, 127);
    assert_eq!(snapshot.d, Directional { up: false, down: true, left: false, right: true });
    assert!(snapshot.start && !snapshot.z && !snapshot.b && snapshot.a);
    assert_eq!(snapshot.c, Directional { up: true, down: false, left: true, right: false });
    assert!(!snapshot.r && snapshot.l);
}

#[test]
fn directional_selects_the_named_group() {
    let mut snapshot = sample();
    assert_eq!(snapshot.directional(DirectionalType::C), snapshot.c);
    assert_eq!(snapshot.directional(DirectionalType::D), snapshot.d);
    let before = snapshot;
    let group = Directional::new(false, false, true, true);
    snapshot.set_directional(DirectionalType::D, group);
    assert_eq!(snapshot, Inputs { d: group, ..before });
    snapshot.set_directional(DirectionalType::C, group);
    assert_eq!(snapshot, Inputs { c: group, d: group, ..before });
}

#[test]
fn to_canonical_names_the_fields_as_the_host_does() {
    let record = sample().to_canonical();
    assert_eq!(
        record,
        Buttons {
            r_dpad: 0,
            l_dpad: 1,
            d_dpad: 1,
            u_dpad: 0,
            start_button: 0,
            z_trig: 1,
            b_button: 0,
            a_button: 1,
            r_cbutton: 1,
            l_cbutton: 0,
            d_cbutton: 0,
            u_cbutton: 1,
            r_trig: 1,
            l_trig: 0,
            reserved1: 0,
            reserved2: 0,
            x_axis: -5,
            y_axis: 100,
        }
    );
}

#[test]
fn the_canonical_record_holds_the_packed_word() {
    let snapshot = sample();
    assert_eq!(snapshot.to_canonical().value(), snapshot.to_value());
    let none = Inputs::default();
    assert_eq!(Inputs { a: true, x: 42, ..none }.to_canonical().value(), 0x002A_0080);
    assert_eq!(Inputs { x: -128, y: -1, ..none }.to_canonical().value(), 0xFF80_0000);
}

#[test]
fn axis_value_accepts_the_range_of_an_axis_only() {
    assert_eq!(axis_value(0), Some(0));
    assert_eq!(axis_value(42), Some(42));
    assert_eq!(axis_value(127), Some(AXIS_MAX));
    assert_eq!(axis_value(-127), Some(AXIS_MIN));
    assert_eq!(axis_value(128), None);
    assert_eq!(axis_value(-128), None);
    assert_eq!(axis_value(i32::MAX), None);
    assert_eq!(axis_value(i32::MIN), None);
}
