use vstd::prelude::*;

use crate::card::Card;

verus! {

/// The card of an unused slot: reads give 0, writes are ignored, and it
/// never interrupts.
#[derive(Clone, Copy, Debug)]
pub struct Empty {}

impl View for Empty {
    type V = Empty;

    open spec fn view(&self) -> Empty {
        *self
    }
}

impl Card for Empty {
    open spec fn read_state(s: Empty, reg: u16) -> Empty {
        s
    }

    open spec fn read_value(s: Empty, reg: u16) -> u8 {
        0
    }

    open spec fn write_state(s: Empty, reg: u16, val: u8) -> Empty {
        s
    }

    open spec fn tick_state(s: Empty) -> Empty {
        s
    }

    open spec fn interrupt_line(s: Empty) -> bool {
        false
    }

    fn get_interrupt(&mut self) -> (r: bool) {
        false
    }

    fn tick(&mut self) {
    }

    fn read(&mut self, reg: u16) -> (r: u8) {
        0
    }

    fn write(&mut self, reg: u16, val: u8) {
    }
}

} // verus!
