//! The cabinet's discrete I/O hardware: three port registers, the dip
//! switches, and the 16-bit bit-serial shift register, together with the
//! data bus that connects them to the CPU core.
//!
//! Port bit layout (read side):
//!   port 0: static status/dip byte, low four bits fixed at 1
//!   port 1: bit 0 coin, bit 1 player-2 start, bit 2 player-1 start,
//!           bit 3 always 1, bit 4 fire, bit 5 left, bit 6 right
//!   port 2: dip switches, bit 2 tilt, bits 4-6 player-2 shot/left/right
//!   port 3: shift register output
//! Port write layout:
//!   port 2: shift offset (3 bits), port 4: shift register reload,
//!   ports 3/5/6: sound and watchdog triggers (placeholders)
//! Every other port has no hardware path and is a fatal access.

use std::cell::RefCell;
use std::rc::Rc;
use vstd::prelude::*;

verus! {

pub const COIN_OFFSET: u8 = 0;
pub const START_P2_OFFSET: u8 = 1;
pub const START_P1_OFFSET: u8 = 2;
pub const FIRE_BTN_OFFSET: u8 = 4;
pub const LEFT_BTN_OFFSET: u8 = 5;
pub const RIGHT_BTN_OFFSET: u8 = 6;

/// A port access outside the ranges the cabinet wires up. There is no
/// hardware path for such an access, so it must surface as a hard error.
#[derive(Clone, Copy, Debug, PartialEq, Eq, Structural)]
pub enum PortError {
    UnknownIn(u8),
    UnknownOut(u8),
}

/// A logical input line of the cabinet. The host translates its platform
/// key codes into these; this core folds them into the port bits.
#[derive(Clone, Copy, Debug, PartialEq, Eq, Structural)]
pub enum Button {
    Coin,
    P1Start,
    P2Start,
    P1Fire,
    P1Left,
    P1Right,
    P2Fire,
    P2Left,
    P2Right,
}

/// The port-register bit a logical button drives.
pub open spec fn button_offset(button: Button) -> u8 {
    match button {
        Button::Coin => COIN_OFFSET,
        Button::P1Start => START_P1_OFFSET,
        Button::P2Start => START_P2_OFFSET,
        Button::P1Fire => FIRE_BTN_OFFSET,
        Button::P1Left => LEFT_BTN_OFFSET,
        Button::P1Right => RIGHT_BTN_OFFSET,
        Button::P2Fire => FIRE_BTN_OFFSET,
        Button::P2Left => LEFT_BTN_OFFSET,
        Button::P2Right => RIGHT_BTN_OFFSET,
    }
}

/// Whether a logical button lives in port 2 (the player-2 controls) rather
/// than port 1.
pub open spec fn button_on_port2(button: Button) -> bool {
    match button {
        Button::P2Fire => true,
        Button::P2Left => true,
        Button::P2Right => true,
        _ => false,
    }
}

/// Clears bit `k` of `bits`, then ORs in the pressed state at that bit.
pub open spec fn set_bit(bits: u8, k: u8, pressed: bool) -> u8
    recommends
        k < 8,
{
    (bits & !(1u8 << k)) | (if pressed {
        1u8 << k
    } else {
        0u8
    })
}

/// The byte read back from port 3: the shift register shifted left by the
/// programmed offset, keeping the high eight bits.
pub open spec fn shift_output(value: u16, offset: u8) -> u8
    recommends
        offset < 8,
{
    (((value << (offset as u16)) >> 8) as u8)
}

/// `b` agrees with `a` everywhere but possibly in port 1.
pub open spec fn same_but_port1(a: SpaceInvaderMachine, b: SpaceInvaderMachine) -> bool {
    b.port0() == a.port0() && b.port2() == a.port2() && b.shift_value() == a.shift_value()
        && b.shift_offset() == a.shift_offset()
}

/// `b` agrees with `a` everywhere but possibly in port 2.
pub open spec fn same_but_port2(a: SpaceInvaderMachine, b: SpaceInvaderMachine) -> bool {
    b.port0() == a.port0() && b.port1() == a.port1() && b.shift_value() == a.shift_value()
        && b.shift_offset() == a.shift_offset()
}

#[derive(Clone, Copy, Debug, PartialEq, Eq, Structural)]
pub struct SpaceInvaderMachine {
    port_0: u8,
    port_1: u8,
    port_2: u8,
    shift_value: u16,
    shift_offset: u8,
}

impl SpaceInvaderMachine {
    /// The shift offset is three bits wide on the real board.
    #[verifier::type_invariant]
    pub closed spec fn wf(self) -> bool {
        self.shift_offset < 8
    }

    pub closed spec fn port0(self) -> u8 {
        self.port_0
    }

    pub closed spec fn port1(self) -> u8 {
        self.port_1
    }

    pub closed spec fn port2(self) -> u8 {
        self.port_2
    }

    pub closed spec fn shift_value(self) -> u16 {
        self.shift_value
    }

    pub closed spec fn shift_offset(self) -> u8 {
        self.shift_offset
    }

    /// The machine with bit `k` of port 1 set to the pressed state.
    pub closed spec fn with_port1_bit(self, k: u8, pressed: bool) -> SpaceInvaderMachine {
        SpaceInvaderMachine { port_1: set_bit(self.port_1, k, pressed), ..self }
    }

    /// The machine with bit `k` of port 2 set to the pressed state.
    pub closed spec fn with_port2_bit(self, k: u8, pressed: bool) -> SpaceInvaderMachine {
        SpaceInvaderMachine { port_2: set_bit(self.port_2, k, pressed), ..self }
    }

    pub fn new() -> (m: SpaceInvaderMachine)
        ensures
            m.port0() == 0b00001111u8,
            m.port1() == 0b00001000u8,
            m.port2() == 0b00000000u8,
            m.shift_value() == 0u16,
            m.shift_offset() == 0u8,
    {
        SpaceInvaderMachine {
            shift_value: 0,
            shift_offset: 0,
            port_0: 0b00001111,
            port_1: 0b00001000,
            port_2: 0b00000000,
        }
    }

    /// Read-modify-write of one bit of port 1.
    fn set_port1_bit(&mut self, k: u8, pressed: bool)
        requires
            k < 8,
        ensures
            *final(self) == old(self).with_port1_bit(k, pressed),
            final(self).port1() == set_bit(old(self).port1(), k, pressed),
            final(self).port0() == old(self).port0(),
            final(self).port2() == old(self).port2(),
            final(self).shift_value() == old(self).shift_value(),
            final(self).shift_offset() == old(self).shift_offset(),
    {
        proof {
            use_type_invariant(&*self);
        }
        self.port_1 = (self.port_1 & !(1u8 << k)) | (if pressed {
            1u8 << k
        } else {
            0u8
        });
    }

    /// Read-modify-write of one bit of port 2.
    fn set_port2_bit(&mut self, k: u8, pressed: bool)
        requires
            k < 8,
        ensures
            *final(self) == old(self).with_port2_bit(k, pressed),
            final(self).port2() == set_bit(old(self).port2(), k, pressed),
            final(self).port0() == old(self).port0(),
            final(self).port1() == old(self).port1(),
            final(self).shift_value() == old(self).shift_value(),
            final(self).shift_offset() == old(self).shift_offset(),
    {
        proof {
            use_type_invariant(&*self);
        }
        self.port_2 = (self.port_2 & !(1u8 << k)) | (if pressed {
            1u8 << k
        } else {
            0u8
        });
    }

    pub fn insert_coin(&mut self, pressed: bool)
        ensures
            *final(self) == old(self).with_port1_bit(COIN_OFFSET, pressed),
            final(self).port1() == set_bit(old(self).port1(), COIN_OFFSET, pressed),
            same_but_port1(*old(self), *final(self)),
    {
        self.set_port1_bit(COIN_OFFSET, pressed);
    }

    pub fn left_button(&mut self, pressed: bool)
        ensures
            *final(self) == old(self).with_port1_bit(LEFT_BTN_OFFSET, pressed),
            final(self).port1() == set_bit(old(self).port1(), LEFT_BTN_OFFSET, pressed),
            same_but_port1(*old(self), *final(self)),
    {
        self.set_port1_bit(LEFT_BTN_OFFSET, pressed);
    }

    pub fn right_button(&mut self, pressed: bool)
        ensures
            *final(self) == old(self).with_port1_bit(RIGHT_BTN_OFFSET, pressed),
            final(self).port1() == set_bit(old(self).port1(), RIGHT_BTN_OFFSET, pressed),
            same_but_port1(*old(self), *final(self)),
    {
        self.set_port1_bit(RIGHT_BTN_OFFSET, pressed);
    }

    pub fn fire_button(&mut self, pressed: bool)
        ensures
            *final(self) == old(self).with_port1_bit(FIRE_BTN_OFFSET, pressed),
            final(self).port1() == set_bit(old(self).port1(), FIRE_BTN_OFFSET, pressed),
            same_but_port1(*old(self), *final(self)),
    {
        self.set_port1_bit(FIRE_BTN_OFFSET, pressed);
    }

    pub fn start_button(&mut self, pressed: bool)
        ensures
            *final(self) == old(self).with_port1_bit(START_P1_OFFSET, pressed),
            final(self).port1() == set_bit(old(self).port1(), START_P1_OFFSET, pressed),
            same_but_port1(*old(self), *final(self)),
    {
        self.set_port1_bit(START_P1_OFFSET, pressed);
    }

    pub fn p1_start_button(&mut self, pressed: bool)
        ensures
            *final(self) == old(self).with_port1_bit(START_P1_OFFSET, pressed),
            final(self).port1() == set_bit(old(self).port1(), START_P1_OFFSET, pressed),
            same_but_port1(*old(self), *final(self)),
    {
        self.set_port1_bit(START_P1_OFFSET, pressed);
    }

    pub fn p2_start_button(&mut self, pressed: bool)
        ensures
            *final(self) == old(self).with_port1_bit(START_P2_OFFSET, pressed),
            final(self).port1() == set_bit(old(self).port1(), START_P2_OFFSET, pressed),
            same_but_port1(*old(self), *final(self)),
    {
        self.set_port1_bit(START_P2_OFFSET, pressed);
    }

    pub fn p1_fire_button(&mut self, pressed: bool)
        ensures
            *final(self) == old(self).with_port1_bit(FIRE_BTN_OFFSET, pressed),
            final(self).port1() == set_bit(old(self).port1(), FIRE_BTN_OFFSET, pressed),
            same_but_port1(*old(self), *final(self)),
    {
        self.set_port1_bit(FIRE_BTN_OFFSET, pressed);
    }

    pub fn p1_left_button(&mut self, pressed: bool)
        ensures
            *final(self) == old(self).with_port1_bit(LEFT_BTN_OFFSET, pressed),
            final(self).port1() == set_bit(old(self).port1(), LEFT_BTN_OFFSET, pressed),
            same_but_port1(*old(self), *final(self)),
    {
        self.set_port1_bit(LEFT_BTN_OFFSET, pressed);
    }

    pub fn p1_right_button(&mut self, pressed: bool)
        ensures
            *final(self) == old(self).with_port1_bit(RIGHT_BTN_OFFSET, pressed),
            final(self).port1() == set_bit(old(self).port1(), RIGHT_BTN_OFFSET, pressed),
            same_but_port1(*old(self), *final(self)),
    {
        self.set_port1_bit(RIGHT_BTN_OFFSET, pressed);
    }

    pub fn p2_fire_button(&mut self, pressed: bool)
        ensures
            *final(self) == old(self).with_port2_bit(FIRE_BTN_OFFSET, pressed),
            final(self).port2() == set_bit(old(self).port2(), FIRE_BTN_OFFSET, pressed),
            same_but_port2(*old(self), *final(self)),
    {
        self.set_port2_bit(FIRE_BTN_OFFSET, pressed);
    }

    pub fn p2_left_button(&mut self, pressed: bool)
        ensures
            *final(self) == old(self).with_port2_bit(LEFT_BTN_OFFSET, pressed),
            final(self).port2() == set_bit(old(self).port2(), LEFT_BTN_OFFSET, pressed),
            same_but_port2(*old(self), *final(self)),
    {
        self.set_port2_bit(LEFT_BTN_OFFSET, pressed);
    }

    pub fn p2_right_button(&mut self, pressed: bool)
        ensures
            *final(self) == old(self).with_port2_bit(RIGHT_BTN_OFFSET, pressed),
            final(self).port2() == set_bit(old(self).port2(), RIGHT_BTN_OFFSET, pressed),
            same_but_port2(*old(self), *final(self)),
    {
        self.set_port2_bit(RIGHT_BTN_OFFSET, pressed);
    }

    /// One host input event: folds the pressed state of a logical button
    /// into the port bit it drives.
    pub fn set_button(&mut self, button: Button, pressed: bool)
        ensures
            !button_on_port2(button) ==> *final(self) == old(self).with_port1_bit(
                button_offset(button),
                pressed,
            ) && final(self).port1() == set_bit(old(self).port1(), button_offset(button), pressed)
                && same_but_port1(*old(self), *final(self)),
            button_on_port2(button) ==> *final(self) == old(self).with_port2_bit(
                button_offset(button),
                pressed,
            ) && final(self).port2() == set_bit(old(self).port2(), button_offset(button), pressed)
                && same_but_port2(*old(self), *final(self)),
    {
        match button {
            Button::Coin => self.insert_coin(pressed),
            Button::P1Start => self.p1_start_button(pressed),
            Button::P2Start => self.p2_start_button(pressed),
            Button::P1Fire => self.p1_fire_button(pressed),
            Button::P1Left => self.p1_left_button(pressed),
            Button::P1Right => self.p1_right_button(pressed),
            Button::P2Fire => self.p2_fire_button(pressed),
            Button::P2Left => self.p2_left_button(pressed),
            Button::P2Right => self.p2_right_button(pressed),
        }
    }

    /// Port read as the CPU core's `IN` instruction sees it. An index outside
    /// the wired ports is a fatal access, never a silent zero.
    pub fn read_port(&self, port: u8) -> (r: Result<u8, PortError>)
        ensures
            r is Err <==> port > 3,
            port == 0 ==> r == Ok::<u8, PortError>(self.port0()),
            port == 1 ==> r == Ok::<u8, PortError>(self.port1()),
            port == 2 ==> r == Ok::<u8, PortError>(self.port2()),
            port == 3 ==> r == Ok::<u8, PortError>(
                shift_output(self.shift_value(), self.shift_offset()),
            ),
            port > 3 ==> r == Err::<u8, PortError>(PortError::UnknownIn(port)),
    {
        proof {
            use_type_invariant(&*self);
        }
        match port {
            0 => Ok(self.port_0),
            1 => Ok(self.port_1),
            2 => Ok(self.port_2),
            3 => Ok(((self.shift_value << (self.shift_offset as u16)) >> 8) as u8),
            _ => Err(PortError::UnknownIn(port)),
        }
    }

    /// Port write as the CPU core's `OUT` instruction performs it. Ports 3, 5
    /// and 6 are sound and watchdog triggers with no state in this core; an
    /// index outside the wired ports is a fatal access.
    pub fn write_port(&mut self, port: u8, value: u8) -> (r: Result<(), PortError>)
        ensures
            r is Ok <==> 2 <= port <= 6,
            final(self).port0() == old(self).port0(),
            final(self).port1() == old(self).port1(),
            final(self).port2() == old(self).port2(),
            port == 2 ==> final(self).shift_offset() == (value & 0x07)
                && final(self).shift_value() == old(self).shift_value(),
            port == 4 ==> final(self).shift_value() == ((old(self).shift_value() >> 8) | ((value
                as u16) << 8)) && final(self).shift_offset() == old(self).shift_offset(),
            (port == 3 || port == 5 || port == 6) ==> *final(self) == *old(self),
            !(2 <= port <= 6) ==> *final(self) == *old(self) && r == Err::<(), PortError>(
                PortError::UnknownOut(port),
            ),
    {
        proof {
            use_type_invariant(&*self);
        }
        match port {
            2 => {
                assert((value & 0x07) < 8) by (bit_vector);
                self.shift_offset = value & 0x07;
                Ok(())
            },
            3 => Ok(()),
            4 => {
                self.shift_value = (self.shift_value >> 8) | ((value as u16) << 8);
                Ok(())
            },
            5 => Ok(()),
            6 => Ok(()),
            _ => Err(PortError::UnknownOut(port)),
        }
    }
}

/// Writing the same pressed state to the same bit twice gives the same byte
/// as writing it once.
pub proof fn lemma_set_bit_idempotent(bits: u8, k: u8, pressed: bool)
    requires
        k < 8,
    ensures
        set_bit(set_bit(bits, k, pressed), k, pressed) == set_bit(bits, k, pressed),
{
    if pressed {
        assert(((bits & !(1u8 << k)) | (1u8 << k)) == (((bits & !(1u8 << k)) | (1u8 << k)) & !(
        1u8 << k)) | (1u8 << k)) by (bit_vector);
    } else {
        assert(((bits & !(1u8 << k)) | 0u8) == (((bits & !(1u8 << k)) | 0u8) & !(1u8 << k)) | 0u8)
            by (bit_vector);
    }
}

/// A button or coin setter called twice with the same pressed state leaves
/// the machine exactly as one call would: the setters are idempotent, on
/// both port 1 and port 2, whatever sequence of presses and releases came
/// before.
pub proof fn lemma_button_setter_idempotent(m: SpaceInvaderMachine, k: u8, pressed: bool)
    requires
        k < 8,
    ensures
        m.with_port1_bit(k, pressed).with_port1_bit(k, pressed) == m.with_port1_bit(k, pressed),
        m.with_port2_bit(k, pressed).with_port2_bit(k, pressed) == m.with_port2_bit(k, pressed),
{
    lemma_set_bit_idempotent(m.port_1, k, pressed);
    lemma_set_bit_idempotent(m.port_2, k, pressed);
}

#[verifier::external_type_specification]
#[verifier::external_body]
#[verifier::reject_recursive_types(T)]
pub struct ExRefCell<T: ?Sized>(RefCell<T>);

/// The data bus the CPU core talks to: it routes each `IN`/`OUT` instruction
/// to the machine's port registers through a shared handle.
pub struct SpaceInvaderDataBus {
    machine_ref: Rc<RefCell<SpaceInvaderMachine>>,
}

impl SpaceInvaderDataBus {
    pub closed spec fn machine_handle(self) -> Rc<RefCell<SpaceInvaderMachine>> {
        self.machine_ref
    }

    pub fn new(machine_ref: Rc<RefCell<SpaceInvaderMachine>>) -> (b: SpaceInvaderDataBus)
        ensures
            b.machine_handle() == machine_ref,
    {
        SpaceInvaderDataBus { machine_ref }
    }
}

impl intel_8080_emu::proc_state::DataBus for SpaceInvaderDataBus {
    /// Called by `Proc8080` for each `IN` instruction. Relies on
    /// `RefCell::borrow`; the port logic itself is the verified
    /// `SpaceInvaderMachine::read_port`. An undefined input port has no
    /// hardware path and is a fatal fault, so it aborts.
    #[verifier::external_body]
    fn read_port(&self, port: u8) -> u8 {
        self.machine_ref.borrow().read_port(port).expect("unknown in port")
    }

    /// Called by `Proc8080` for each `OUT` instruction. Relies on
    /// `RefCell::borrow_mut`; the port logic itself is the verified
    /// `SpaceInvaderMachine::write_port`. An undefined output port has no
    /// hardware path and is a fatal fault, so it aborts.
    #[verifier::external_body]
    fn write_port(&mut self, port: u8, value: u8) {
        self.machine_ref.borrow_mut().write_port(port, value).expect("unknown out port")
    }
}

} // verus!
