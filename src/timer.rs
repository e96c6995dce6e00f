use vstd::prelude::*;

use crate::card::Card;

verus! {

/// Bit of the interrupt-enable register that lets timer 1 interrupt.
pub const IER_TIMER1: u8 = 0x40;
/// Bit of the auxiliary control register that makes timer 1 reload itself.
pub const ACR_FREE_RUN: u8 = 0x40;
/// Interrupt-flag bits raised when timer 1 runs out.
pub const IFR_TIMER1: u8 = 0xC0;

/// A VIA-style timer and interrupt controller: two down-counters with their
/// reload latches, the interrupt flag and enable registers, the two control
/// registers, and the interrupt line.
#[derive(Clone, Copy, Debug)]
pub struct Via {
    pub interrupt: bool,
    pub timer1cnt: u16,
    pub timer2cnt: u16,
    pub timer1latch: u16,
    pub timer2latch: u16,
    pub ifr: u8,
    pub ier: u8,
    pub acr: u8,
    pub pcr: u8,
}

impl View for Via {
    type V = Via;

    open spec fn view(&self) -> Via {
        *self
    }
}

/// The controller with its pending interrupt cleared.
pub open spec fn acknowledged(s: Via) -> Via {
    Via { interrupt: false, ifr: 0, ..s }
}

impl Via {
    /// A controller with every register 0.
    pub fn new() -> (r: Via)
        ensures
            r == (Via {
                interrupt: false,
                timer1cnt: 0,
                timer2cnt: 0,
                timer1latch: 0,
                timer2latch: 0,
                ifr: 0,
                ier: 0,
                acr: 0,
                pcr: 0,
            }),
    {
        Via {
            interrupt: false,
            timer1cnt: 0,
            timer2cnt: 0,
            timer1latch: 0,
            timer2latch: 0,
            ifr: 0,
            ier: 0,
            acr: 0,
            pcr: 0,
        }
    }
}

impl Card for Via {
    open spec fn read_state(s: Via, reg: u16) -> Via {
        if reg == 4 || reg == 0xD {
            acknowledged(s)
        } else {
            s
        }
    }

    open spec fn read_value(s: Via, reg: u16) -> u8 {
        if reg == 4 {
            (s.timer1cnt & 0xFF) as u8
        } else if reg == 5 {
            (s.timer1cnt >> 8u16) as u8
        } else if reg == 6 {
            (s.timer1latch & 0xFF) as u8
        } else if reg == 7 {
            (s.timer1latch >> 8u16) as u8
        } else if reg == 0xB {
            s.acr
        } else if reg == 0xC {
            s.pcr
        } else if reg == 0xD {
            s.ifr
        } else if reg == 0xE {
            s.ier
        } else {
            0
        }
    }

    open spec fn write_state(s: Via, reg: u16, val: u8) -> Via {
        if reg == 4 || reg == 6 {
            Via { timer1latch: (s.timer1latch & 0xFF00) | (val as u16), ..s }
        } else if reg == 5 {
            let latch = (s.timer1latch & 0x00FF) | ((val as u16) << 8u16);
            acknowledged(Via { timer1latch: latch, timer1cnt: latch, ..s })
        } else if reg == 7 {
            acknowledged(Via { timer1latch: (s.timer1latch & 0x00FF) | ((val as u16) << 8u16), ..s })
        } else if reg == 0xB {
            Via { acr: val, ..s }
        } else if reg == 0xC {
            Via { pcr: val, ..s }
        } else if reg == 0xD {
            acknowledged(s)
        } else if reg == 0xE {
            Via { ier: val, ..s }
        } else {
            s
        }
    }

    open spec fn tick_state(s: Via) -> Via {
        if s.timer1cnt > 0 {
            let cnt = (s.timer1cnt - 1) as u16;
            if cnt == 0 && s.ier & IER_TIMER1 != 0 {
                Via {
                    ifr: s.ifr | IFR_TIMER1,
                    interrupt: true,
                    timer1cnt: if s.acr & ACR_FREE_RUN != 0 { s.timer1latch } else { cnt },
                    ..s
                }
            } else {
                Via { interrupt: false, timer1cnt: cnt, ..s }
            }
        } else {
            s
        }
    }

    open spec fn interrupt_line(s: Via) -> bool {
        s.interrupt
    }

    fn get_interrupt(&mut self) -> (r: bool) {
        self.interrupt
    }

    fn tick(&mut self) {
        if self.timer1cnt > 0 {
            self.interrupt = false;
            self.timer1cnt = self.timer1cnt - 1;
            if self.timer1cnt == 0 && self.ier & IER_TIMER1 != 0 {
                self.ifr = self.ifr | IFR_TIMER1;
                self.interrupt = true;
                if self.acr & ACR_FREE_RUN != 0 {
                    self.timer1cnt = self.timer1latch;
                }
            }
        }
    }

    fn read(&mut self, reg: u16) -> (r: u8) {
        if reg == 4 {
            self.interrupt = false;
            self.ifr = 0;
            (self.timer1cnt & 0xFF) as u8
        } else if reg == 5 {
            (self.timer1cnt >> 8u16) as u8
        } else if reg == 6 {
            (self.timer1latch & 0xFF) as u8
        } else if reg == 7 {
            (self.timer1latch >> 8u16) as u8
        } else if reg == 0xB {
            self.acr
        } else if reg == 0xC {
            self.pcr
        } else if reg == 0xD {
            let v = self.ifr;
            self.interrupt = false;
            self.ifr = 0;
            v
        } else if reg == 0xE {
            self.ier
        } else {
            0
        }
    }

    fn write(&mut self, reg: u16, val: u8) {
        if reg == 4 || reg == 6 {
            self.timer1latch = (self.timer1latch & 0xFF00) | (val as u16);
        } else if reg == 5 {
            self.timer1latch = (self.timer1latch & 0x00FF) | ((val as u16) << 8u16);
            self.timer1cnt = self.timer1latch;
            self.interrupt = false;
            self.ifr = 0;
        } else if reg == 7 {
            self.timer1latch = (self.timer1latch & 0x00FF) | ((val as u16) << 8u16);
            self.interrupt = false;
            self.ifr = 0;
        } else if reg == 0xB {
            self.acr = val;
        } else if reg == 0xC {
            self.pcr = val;
        } else if reg == 0xD {
            self.interrupt = false;
            self.ifr = 0;
        } else if reg == 0xE {
            self.ier = val;
        }
    }
}

} // verus!

verus! {

/// The controller after `n` clock ticks.
pub open spec fn ticks(s: Via, n: nat) -> Via
    decreases n,
{
    if n == 0 { s } else { Via::tick_state(ticks(s, (n - 1) as nat)) }
}

proof fn lemma_counting_down(s: Via, k: nat)
    requires
        s.timer1cnt >= 1,
        !s.interrupt,
        k < s.timer1cnt,
    ensures
        ticks(s, k).timer1cnt == s.timer1cnt - k,
        !ticks(s, k).interrupt,
        ticks(s, k).ier == s.ier,
    decreases k,
{
    if k > 0 {
        lemma_counting_down(s, (k - 1) as nat);
    }
}

/// Loading timer 1 with a count of `lo + 256 * hi` (low latch byte, then
/// the high byte, which starts the count) makes the interrupt line rise on
/// exactly that tick, and not before, when the timer's interrupt is enabled.
pub proof fn lemma_timer_fires_on_count(s: Via, lo: u8, hi: u8, k: nat)
    requires
        s.ier & IER_TIMER1 != 0,
        lo as int + 256 * hi as int >= 1,
        k <= lo as int + 256 * hi as int,
    ensures
        ({
            let loaded = Via::write_state(Via::write_state(s, 4, lo), 5, hi);
            ticks(loaded, k).interrupt <==> k == lo as int + 256 * hi as int
        }),
{
    let s1 = Via::write_state(s, 4, lo);
    let loaded = Via::write_state(s1, 5, hi);
    let latch = s.timer1latch;
    assert((((latch & 0xFF00) | (lo as u16)) & 0x00FF) | ((hi as u16) << 8u16)
        == (lo as u16) | ((hi as u16) << 8u16)) by (bit_vector);
    assert((lo as u16) | ((hi as u16) << 8u16) == lo as int + 256 * hi as int) by (bit_vector);
    let n: nat = (lo as int + 256 * hi as int) as nat;
    assert(loaded.timer1cnt == n);
    if k < n {
        lemma_counting_down(loaded, k);
    } else {
        lemma_counting_down(loaded, (n - 1) as nat);
    }
}

} // verus!
