use intel_8080_emu::proc_state::DataBus;
use space_invaders_core::machine::Button;
use space_invaders_core::machine::SpaceInvaderDataBus;
use space_invaders_core::machine::SpaceInvaderMachine;
use space_invaders_core::PortError;
use std::cell::RefCell;
use std::rc::Rc;

#[test]
fn shift() {
    let machine = SpaceInvaderMachine::new();
    let mut shifter = SpaceInvaderDataBus::new(Rc::new(RefCell::new(machine)));
    shifter.write_port(4, 0xee);
    shifter.write_port(4, 0xff);
    assert_eq!(0xff, shifter.read_port(3));
    shifter.write_port(2, 4);
    assert_eq!(0xfe, shifter.read_port(3));
}

#[test]
fn power_up_port_baselines() {
    let m = SpaceInvaderMachine::new();
    assert_eq!(m.read_port(0), Ok(0b0000_1111));
    assert_eq!(m.read_port(1), Ok(0b0000_1000));
    assert_eq!(m.read_port(2), Ok(0b0000_0000));
    assert_eq!(m.read_port(3), Ok(0));
}

#[test]
fn coin_bit_set_and_cleared() {
    let mut m = SpaceInvaderMachine::new();
    m.insert_coin(true);
    assert_eq!(m.read_port(1), Ok(0b0000_1001));
    m.insert_coin(false);
    assert_eq!(m.read_port(1), Ok(0b0000_1000));
}

#[test]
fn player_one_button_bits() {
    let mut m = SpaceInvaderMachine::new();
    m.fire_button(true);
    assert_eq!(m.read_port(1), Ok(0b0001_1000));
    m.left_button(true);
    assert_eq!(m.read_port(1), Ok(0b0011_1000));
    m.right_button(true);
    assert_eq!(m.read_port(1), Ok(0b0111_1000));
    m.start_button(true);
    assert_eq!(m.read_port(1), Ok(0b0111_1100));
    m.fire_button(false);
    m.left_button(false);
    m.right_button(false);
    m.start_button(false);
    assert_eq!(m.read_port(1), Ok(0b0000_1000));
}

#[test]
fn per_player_setters_hit_their_ports() {
    let mut m = SpaceInvaderMachine::new();
    m.p1_start_button(true);
    m.p2_start_button(true);
    assert_eq!(m.read_port(1), Ok(0b0000_1110));
    m.p2_fire_button(true);
    m.p2_left_button(true);
    m.p2_right_button(true);
    assert_eq!(m.read_port(2), Ok(0b0111_0000));
    m.p1_fire_button(true);
    m.p1_left_button(true);
    m.p1_right_button(true);
    assert_eq!(m.read_port(1), Ok(0b0111_1110));
}

#[test]
fn setters_are_idempotent() {
    let mut m = SpaceInvaderMachine::new();
    m.insert_coin(true);
    let after_once = m.read_port(1);
    m.insert_coin(true);
    assert_eq!(m.read_port(1), after_once);
    m.left_button(false);
    let after_release = m.read_port(1);
    m.left_button(false);
    assert_eq!(m.read_port(1), after_release);
    m.p2_fire_button(true);
    let p2_once = m.read_port(2);
    m.p2_fire_button(true);
    assert_eq!(m.read_port(2), p2_once);
}

#[test]
fn logical_buttons_drive_the_same_bits_as_the_setters() {
    let mut by_button = SpaceInvaderMachine::new();
    let mut by_setter = SpaceInvaderMachine::new();
    by_button.set_button(Button::Coin, true);
    by_setter.insert_coin(true);
    assert_eq!(by_button.read_port(1), by_setter.read_port(1));
    by_button.set_button(Button::P1Fire, true);
    by_setter.fire_button(true);
    assert_eq!(by_button.read_port(1), by_setter.read_port(1));
    by_button.set_button(Button::P2Left, true);
    by_setter.p2_left_button(true);
    assert_eq!(by_button.read_port(2), by_setter.read_port(2));
    by_button.set_button(Button::P2Left, false);
    assert_eq!(by_button.read_port(2), Ok(0));
}

#[test]
fn undefined_port_reads_are_errors() {
    let m = SpaceInvaderMachine::new();
    assert_eq!(m.read_port(4), Err(PortError::UnknownIn(4)));
    assert_eq!(m.read_port(7), Err(PortError::UnknownIn(7)));
    assert_eq!(m.read_port(255), Err(PortError::UnknownIn(255)));
}

#[test]
fn undefined_port_writes_are_errors() {
    let mut m = SpaceInvaderMachine::new();
    assert_eq!(m.write_port(0, 0xaa), Err(PortError::UnknownOut(0)));
    assert_eq!(m.write_port(1, 0xaa), Err(PortError::UnknownOut(1)));
    assert_eq!(m.write_port(7, 0xaa), Err(PortError::UnknownOut(7)));
    assert_eq!(m.write_port(200, 0xaa), Err(PortError::UnknownOut(200)));
    // the failed writes left the readable state untouched
    assert_eq!(m.read_port(1), Ok(0b0000_1000));
    assert_eq!(m.read_port(3), Ok(0));
}

#[test]
fn sound_and_watchdog_writes_are_accepted_noops() {
    let mut m = SpaceInvaderMachine::new();
    assert_eq!(m.write_port(3, 0x55), Ok(()));
    assert_eq!(m.write_port(5, 0x55), Ok(()));
    assert_eq!(m.write_port(6, 0x55), Ok(()));
    assert_eq!(m.read_port(3), Ok(0));
}

#[test]
fn shift_offset_uses_low_three_bits() {
    let mut m = SpaceInvaderMachine::new();
    assert_eq!(m.write_port(4, 0xee), Ok(()));
    assert_eq!(m.write_port(4, 0xff), Ok(()));
    // 12 & 0x07 == 4, so this behaves as offset 4
    assert_eq!(m.write_port(2, 12), Ok(()));
    assert_eq!(m.read_port(3), Ok(0xfe));
}

#[test]
fn shift_reload_moves_old_high_byte_down() {
    let mut m = SpaceInvaderMachine::new();
    m.write_port(4, 0xab).unwrap();
    assert_eq!(m.read_port(3), Ok(0xab));
    m.write_port(4, 0xcd).unwrap();
    assert_eq!(m.read_port(3), Ok(0xcd));
    // offset 7 reads across the byte boundary of 0xcdab
    m.write_port(2, 7).unwrap();
    assert_eq!(m.read_port(3), Ok(0xd5));
}
