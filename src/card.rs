use vstd::prelude::*;

use crate::cf::{Cf, CfState};
use crate::empty::Empty;
use crate::timer::Via;

verus! {

/// The kind of card that sits in an expansion slot.
#[derive(PartialEq, Eq, Structural, Clone, Copy, Debug)]
pub enum CardType {
    CF,
    Serial,
    IO,
    Ram,
    Vacant,
}

/// A memory-mapped peripheral: a private register file that the bus reads
/// and writes, a clock input, and an interrupt line.
///
/// Each operation is described by a spec function over the device's view,
/// and the executable method is held to it.
pub trait Card: View + Sized {
    /// The register file after a read of register `reg`.
    spec fn read_state(s: Self::V, reg: u16) -> Self::V;

    /// The byte a read of register `reg` returns.
    spec fn read_value(s: Self::V, reg: u16) -> u8;

    /// The register file after `val` is written to register `reg`.
    spec fn write_state(s: Self::V, reg: u16, val: u8) -> Self::V;

    /// The register file after one clock tick.
    spec fn tick_state(s: Self::V) -> Self::V;

    /// Whether the interrupt line is asserted.
    spec fn interrupt_line(s: Self::V) -> bool;

    fn get_interrupt(&mut self) -> (r: bool)
        ensures
            r == Self::interrupt_line(old(self)@),
            final(self)@ == old(self)@,
    ;

    fn tick(&mut self)
        ensures
            final(self)@ == Self::tick_state(old(self)@),
    ;

    fn read(&mut self, reg: u16) -> (r: u8)
        ensures
            r == Self::read_value(old(self)@, reg),
            final(self)@ == Self::read_state(old(self)@, reg),
    ;

    fn write(&mut self, reg: u16, val: u8)
        ensures
            final(self)@ == Self::write_state(old(self)@, reg, val),
    ;
}

/// One of the peripherals a slot can hold.
pub enum Device {
    Disk(Cf),
    Timer(Via),
    Vacant(Empty),
}

/// The register file of whichever peripheral a [`Device`] holds.
pub enum DeviceState {
    Disk(CfState),
    Timer(Via),
    Vacant,
}

impl View for Device {
    type V = DeviceState;

    open spec fn view(&self) -> DeviceState {
        match self {
            Device::Disk(c) => DeviceState::Disk(c@),
            Device::Timer(v) => DeviceState::Timer(v@),
            Device::Vacant(_) => DeviceState::Vacant,
        }
    }
}

impl Card for Device {
    open spec fn read_state(s: DeviceState, reg: u16) -> DeviceState {
        match s {
            DeviceState::Disk(c) => DeviceState::Disk(Cf::read_state(c, reg)),
            DeviceState::Timer(v) => DeviceState::Timer(Via::read_state(v, reg)),
            DeviceState::Vacant => DeviceState::Vacant,
        }
    }

    open spec fn read_value(s: DeviceState, reg: u16) -> u8 {
        match s {
            DeviceState::Disk(c) => Cf::read_value(c, reg),
            DeviceState::Timer(v) => Via::read_value(v, reg),
            DeviceState::Vacant => 0,
        }
    }

    open spec fn write_state(s: DeviceState, reg: u16, val: u8) -> DeviceState {
        match s {
            DeviceState::Disk(c) => DeviceState::Disk(Cf::write_state(c, reg, val)),
            DeviceState::Timer(v) => DeviceState::Timer(Via::write_state(v, reg, val)),
            DeviceState::Vacant => DeviceState::Vacant,
        }
    }

    open spec fn tick_state(s: DeviceState) -> DeviceState {
        match s {
            DeviceState::Disk(c) => DeviceState::Disk(Cf::tick_state(c)),
            DeviceState::Timer(v) => DeviceState::Timer(Via::tick_state(v)),
            DeviceState::Vacant => DeviceState::Vacant,
        }
    }

    open spec fn interrupt_line(s: DeviceState) -> bool {
        match s {
            DeviceState::Disk(c) => Cf::interrupt_line(c),
            DeviceState::Timer(v) => Via::interrupt_line(v),
            DeviceState::Vacant => false,
        }
    }

    fn get_interrupt(&mut self) -> (r: bool) {
        match self {
            Device::Disk(c) => c.get_interrupt(),
            Device::Timer(v) => v.get_interrupt(),
            Device::Vacant(e) => e.get_interrupt(),
        }
    }

    fn tick(&mut self) {
        match self {
            Device::Disk(c) => c.tick(),
            Device::Timer(v) => v.tick(),
            Device::Vacant(e) => e.tick(),
        }
    }

    fn read(&mut self, reg: u16) -> (r: u8) {
        match self {
            Device::Disk(c) => c.read(reg),
            Device::Timer(v) => v.read(reg),
            Device::Vacant(e) => e.read(reg),
        }
    }

    fn write(&mut self, reg: u16, val: u8) {
        match self {
            Device::Disk(c) => c.write(reg, val),
            Device::Timer(v) => v.write(reg, val),
            Device::Vacant(e) => e.write(reg, val),
        }
    }
}

/// An expansion slot: what kind of card it holds, and the card.
pub struct CardData {
    pub card_type: CardType,
    pub value: Device,
}

} // verus!
