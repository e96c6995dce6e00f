use vstd::prelude::*;

use crate::card::Card;
use crate::cf::{Cf, CfState};
use crate::alu::{
    add_binary, add_decimal, asl_value, bit_flags, compare_values, lsr_value, rol_value,
    ror_value, sub_decimal,
};
use crate::decode::{
    AdressingMode, Mnemonic, decode_mnemonic, get_adressing_mode, get_opcode_name,
    instruction_length, mnemonic_of, name_of,
};
use crate::isa::{
    Register, charge, cycles, dispatch, fetch_operand, modify, op_alu, op_bit,
    op_bit_branch, op_branch, op_brk, op_compare, op_flag, op_jmp, op_jsr, op_load, op_modify,
    op_plp, op_pull, op_push, op_rti, op_rts, op_step_reg, op_store, op_test_bits, op_transfer,
    reg, resolve, retire, stack_addr, with_cpu, with_reg, branch_target, branch_taken, pull,
    execute,
};

pub use crate::cf::DiskCommand;

verus! {

/// One line of the diagnostic log, with how many times in a row it came.
#[derive(Debug)]
pub struct Info {
    pub msg: String,
    pub qty: u64,
}

/// A command from the front end to the engine.
#[derive(Debug)]
pub enum ControllerMessage {
    ButtonPressed(String),
    GetMemory,
    GetProc,
    Reset,
    SendChar(char),
    SetDebug(u8),
    SetSpeed(u64),
    TogglePause,
    Step,
}

/// An event from the engine to the front end.
#[derive(Debug)]
pub enum ComputerMessage {
    Info(String),
    Output(u8),
    Memory(Vec<u8>),
    Processor(Processor),
}

/// A [`ComputerMessage`] with its payload as plain values.
pub enum Event {
    Info(Seq<char>),
    Output(u8),
    Memory(Seq<u8>),
    Processor(Processor),
}

impl View for ComputerMessage {
    type V = Event;

    open spec fn view(&self) -> Event {
        match self {
            ComputerMessage::Info(s) => Event::Info(s@),
            ComputerMessage::Output(b) => Event::Output(*b),
            ComputerMessage::Memory(m) => Event::Memory(m@),
            ComputerMessage::Processor(p) => Event::Processor(*p),
        }
    }
}

/// The register file of the processor.
#[derive(Clone, Copy, Debug, PartialEq, Eq, Structural)]
pub struct Processor {
    pub flags: u8,
    pub acc: u8,
    pub rx: u8,
    pub ry: u8,
    pub pc: u16,
    pub sp: u8,
    pub clock: u128,
    pub inst: u8,
    pub irq: bool,
}

pub const FLAG_C: u8 = 1;
pub const FLAG_Z: u8 = 2;
pub const FLAG_I: u8 = 4;
pub const FLAG_D: u8 = 8;
pub const FLAG_O: u8 = 0x40;
pub const FLAG_N: u8 = 0x80;
/// The two status bits that always read as set.
pub const FLAGS_FIXED: u8 = 0x30;

/// First address of the disk controller's register window.
pub const CF_ADDRESS: u16 = 0xFFD0;
/// Serial mailbox: writes go out to the front end, reads take the input byte.
pub const SERIAL: u16 = 0xFFE0;
/// Companion of the serial mailbox that tells an input byte is waiting.
pub const SERIAL_READY: u16 = 0xFFE1;
/// The value the front end puts in [`SERIAL_READY`] with an input byte.
pub const INPUT_WAITING: u8 = 0x08;
/// Where the reset vector is read from.
pub const RESET_VECTOR: u16 = 0xFFFC;
/// Where the break vector is read from.
pub const BREAK_VECTOR: u16 = 0xFFFE;
/// Bottom of the stack page.
pub const STACK_BASE: u16 = 0x100;
/// Size of the address space.
pub const MEMORY_SIZE: usize = 0x10000;
/// Log level at or above which every instruction is traced.
pub const TRACE_LEVEL: u8 = 1;
/// Milliseconds the engine rests while paused.
pub const IDLE_MS: u64 = 100;

/// The whole machine as plain values: registers, memory, the disk
/// controller, the events waiting for the front end, and the run state.
pub struct Machine {
    pub cpu: Processor,
    pub mem: Seq<u8>,
    pub cf: CfState,
    pub events: Seq<Event>,
    pub log: Seq<(Seq<char>, u64)>,
    pub log_level: u8,
    pub paused: bool,
    pub step: bool,
    pub speed: u64,
}

/// The emulated computer: processor, 64KB address space, disk controller,
/// and the queue of events for the front end.
#[derive(Debug)]
pub struct Computer {
    log_level: u8,
    processor: Processor,
    paused: bool,
    step: bool,
    speed: u64,
    data: Vec<u8>,
    cf: Cf,
    outbox: Vec<ComputerMessage>,
    pub info: Vec<Info>,
}

impl View for Computer {
    type V = Machine;

    closed spec fn view(&self) -> Machine {
        Machine {
            cpu: self.processor,
            mem: self.data@,
            cf: self.cf@,
            events: self.outbox@.map_values(|e: ComputerMessage| e@),
            log: self.info@.map_values(|i: Info| (i.msg@, i.qty)),
            log_level: self.log_level,
            paused: self.paused,
            step: self.step,
            speed: self.speed,
        }
    }
}

/// The status flags after a result byte: Zero and Negative follow the
/// byte, the fixed bits are set, the rest are kept.
pub open spec fn nz_flags(flags: u8, val: u8) -> u8 {
    (flags & !(FLAG_Z | FLAG_N)) | (if val == 0 { FLAG_Z } else { 0 }) | (val & FLAG_N) | FLAGS_FIXED
}

/// A little-endian word from its two bytes.
pub open spec fn word(lo: u8, hi: u8) -> u16 {
    (lo as u16) | ((hi as u16) << 8u16)
}

/// Whether an access to `addr` goes to the disk controller.
pub open spec fn in_disk_window(m: Machine, addr: u16) -> bool {
    m.cf.disk.len() > 0 && CF_ADDRESS <= addr < CF_ADDRESS + 0x10
}

/// A read of the bus: the machine afterwards and the byte read.
pub open spec fn bus_read(m: Machine, addr: u16) -> (Machine, u8) {
    if in_disk_window(m, addr) {
        (Machine { cf: Cf::read_state(m.cf, addr), ..m }, Cf::read_value(m.cf, addr))
    } else if addr == SERIAL {
        (
            Machine { mem: m.mem.update(SERIAL_READY as int, 0).update(SERIAL as int, 0), ..m },
            m.mem[SERIAL as int],
        )
    } else {
        (m, m.mem[addr as int])
    }
}

/// A write to the bus.
pub open spec fn bus_write(m: Machine, addr: u16, val: u8) -> Machine {
    if in_disk_window(m, addr) {
        Machine { cf: Cf::write_state(m.cf, addr, val), ..m }
    } else if addr == SERIAL {
        Machine { mem: m.mem.update(addr as int, val), events: m.events.push(Event::Output(val)), ..m }
    } else {
        Machine { mem: m.mem.update(addr as int, val), ..m }
    }
}

/// A little-endian word read from the bus, low byte first.
pub open spec fn bus_word(m: Machine, addr: u16) -> (Machine, u16) {
    let (m1, lo) = bus_read(m, addr);
    let (m2, hi) = bus_read(m1, addr.wrapping_add(1));
    (m2, word(lo, hi))
}

/// The machine with a line added to the diagnostic log. A line equal to the
/// one before it bumps that line's count and pauses the engine.
pub open spec fn log_line(m: Machine, line: Seq<char>) -> Machine {
    let events = m.events.push(Event::Info(line));
    if m.log.len() > 0 && m.log.last().0 == line {
        let qty = m.log.last().1;
        Machine {
            events: events.push(Event::Info("Computer paused"@)),
            log: m.log.drop_last().push((line, if qty < u64::MAX { (qty + 1) as u64 } else { qty })),
            paused: true,
            ..m
        }
    } else {
        Machine { events, log: m.log.push((line, 1)), ..m }
    }
}

impl Computer {
    /// The invariant: the address space is exactly 64KB.
    pub closed spec fn wf(&self) -> bool {
        self.data@.len() == MEMORY_SIZE
    }

    /// Queues an event for the front end.
    fn emit(&mut self, msg: ComputerMessage)
        ensures
            final(self)@ == (Machine { events: old(self)@.events.push(msg@), ..old(self)@ }),
            final(self).wf() == old(self).wf(),
    {
        let ghost f = |e: ComputerMessage| e@;
        proof {
            assert(self.outbox@.push(msg).map_values(f) =~= self.outbox@.map_values(f).push(msg@));
        }
        self.outbox.push(msg);
    }

    /// Reads a byte through the bus.
    fn read(&mut self, addr: u16) -> (r: u8)
        requires
            old(self).wf(),
        ensures
            final(self).wf(),
            (final(self)@, r) == bus_read(old(self)@, addr),
    {
        if self.cf.attached() && addr >= CF_ADDRESS && addr < CF_ADDRESS + 0x10 {
            return self.cf.read(addr);
        }
        if addr == SERIAL {
            let v = self.data[SERIAL as usize];
            self.data.set(SERIAL_READY as usize, 0);
            self.data.set(SERIAL as usize, 0);
            return v;
        }
        self.data[addr as usize]
    }

    /// Writes a byte through the bus.
    fn write(&mut self, addr: u16, value: u8)
        requires
            old(self).wf(),
        ensures
            final(self).wf(),
            final(self)@ == bus_write(old(self)@, addr, value),
    {
        if self.cf.attached() && addr >= CF_ADDRESS && addr < CF_ADDRESS + 0x10 {
            self.cf.write(addr, value);
            return;
        }
        if addr == SERIAL {
            self.emit(ComputerMessage::Output(value));
        }
        self.data.set(addr as usize, value);
    }

    /// Reads a little-endian word through the bus, low byte first.
    pub fn get_word(&mut self, address: u16) -> (r: u16)
        requires
            old(self).wf(),
        ensures
            final(self).wf(),
            (final(self)@, r) == bus_word(old(self)@, address),
    {
        let lo = self.read(address);
        let hi = self.read(address.wrapping_add(1));
        (lo as u16) | ((hi as u16) << 8u16)
    }

    /// The status flags after a result byte: Zero and Negative follow the
    /// byte, the two fixed bits are set, and the other flags are kept.
    pub fn set_flags(flags: u8, val: u8) -> (r: u8)
        ensures
            r == nz_flags(flags, val),
    {
        (flags & !(FLAG_Z | FLAG_N)) | (if val == 0 { FLAG_Z } else { 0 }) | (val & FLAG_N) | FLAGS_FIXED
    }

    /// Adds a line to the diagnostic log and sends it to the front end. A
    /// line equal to the one before it bumps that line's count instead, and
    /// pauses the engine: the same line over and over means it is stuck.
    pub fn add_info(&mut self, info: String)
        ensures
            final(self)@ == log_line(old(self)@, info@),
            final(self).wf() == old(self).wf(),
    {
        self.emit(ComputerMessage::Info(info.clone()));
        let ghost g = |i: Info| (i.msg@, i.qty);
        let len = self.info.len();
        if len > 0 && self.info[len - 1].msg == info {
            let last = self.info.pop().unwrap();
            let qty = if last.qty < u64::MAX { last.qty + 1 } else { last.qty };
            proof {
                assert(self.info@.map_values(g) =~= old(self)@.log.drop_last());
            }
            let entry = Info { msg: info, qty };
            proof {
                assert(self.info@.push(entry).map_values(g) =~= self.info@.map_values(g).push(g(entry)));
            }
            self.info.push(entry);
            self.paused = true;
            self.emit(ComputerMessage::Info(String::from_str("Computer paused")));
        } else {
            let entry = Info { msg: info, qty: 1 };
            proof {
                assert(self.info@.push(entry).map_values(g) =~= self.info@.map_values(g).push(g(entry)));
            }
            self.info.push(entry);
        }
    }
}


/// The cycles an instruction adds to the clock.
fn cycle_count(mn: Mnemonic, a: AdressingMode) -> (r: u128)
    ensures
        r == cycles(mn, a),
{
    match mn {
        Mnemonic::Adc | Mnemonic::And | Mnemonic::Eor | Mnemonic::Ora | Mnemonic::Sbc => match a {
            AdressingMode::Immediate => 2,
            AdressingMode::ZeroPage | AdressingMode::ZeroPageX => 3,
            AdressingMode::IndirectX | AdressingMode::IndirectY => 6,
            AdressingMode::ZeroPageIndirect => 5,
            _ => 4,
        },
        Mnemonic::Lda | Mnemonic::Ldx | Mnemonic::Ldy => match a {
            AdressingMode::Immediate => 2,
            AdressingMode::ZeroPage | AdressingMode::ZeroPageX => 3,
            AdressingMode::ZeroPageY => 4,
            AdressingMode::IndirectX | AdressingMode::IndirectY => 5,
            AdressingMode::ZeroPageIndirect => 6,
            _ => 4,
        },
        Mnemonic::Asl | Mnemonic::Rol | Mnemonic::Ror => if a == AdressingMode::Accumulator { 2 } else { 6 },
        Mnemonic::Lsr => match a {
            AdressingMode::Accumulator => 2,
            AdressingMode::Absolute | AdressingMode::AbsoluteX => 6,
            _ => 5,
        },
        Mnemonic::Inc | Mnemonic::Dec => match a {
            AdressingMode::Accumulator => 2,
            AdressingMode::Absolute => 6,
            AdressingMode::AbsoluteX => 7,
            _ => 5,
        },
        Mnemonic::Tsb | Mnemonic::Trb => if a == AdressingMode::Absolute { 6 } else { 5 },
        Mnemonic::Bit => match a {
            AdressingMode::Absolute | AdressingMode::AbsoluteX => 4,
            _ => 3,
        },
        Mnemonic::Jmp => match a {
            AdressingMode::Indirect => 8,
            AdressingMode::IndirectX => 11,
            _ => 10,
        },
        Mnemonic::Brk | Mnemonic::Rti => 7,
        Mnemonic::Jsr | Mnemonic::Rts => 6,
        Mnemonic::Sta => 5,
        Mnemonic::Cmp | Mnemonic::Cpx | Mnemonic::Cpy | Mnemonic::Stx | Mnemonic::Sty
        | Mnemonic::Stz | Mnemonic::Bbr(_) | Mnemonic::Bbs(_) | Mnemonic::Pla | Mnemonic::Plx
        | Mnemonic::Ply | Mnemonic::Plp | Mnemonic::Nop2 => 4,
        Mnemonic::Pha | Mnemonic::Phx | Mnemonic::Phy | Mnemonic::Php | Mnemonic::Bcc
        | Mnemonic::Bcs | Mnemonic::Beq | Mnemonic::Bmi | Mnemonic::Bne | Mnemonic::Bpl
        | Mnemonic::Bra | Mnemonic::Bvc | Mnemonic::Bvs => 3,
        Mnemonic::Nop3 => 6,
        _ => 2,
    }
}

/// Where a branch lands from the address after it.
fn branch_to(next: u16, off: u8) -> (r: u16)
    ensures
        r == branch_target(next, off),
{
    if off < 128 { next.wrapping_add(off as u16) } else { next.wrapping_sub((256 - off as u16) as u16) }
}

/// Whether a conditional branch is taken under the given flags.
fn taken(mn: Mnemonic, flags: u8) -> (r: bool)
    ensures
        r == branch_taken(mn, flags),
{
    match mn {
        Mnemonic::Bcc => flags & FLAG_C == 0,
        Mnemonic::Bcs => flags & FLAG_C != 0,
        Mnemonic::Bne => flags & FLAG_Z == 0,
        Mnemonic::Beq => flags & FLAG_Z != 0,
        Mnemonic::Bvc => flags & FLAG_O == 0,
        Mnemonic::Bvs => flags & FLAG_O != 0,
        Mnemonic::Bpl => flags & FLAG_N == 0,
        Mnemonic::Bmi => flags & FLAG_N != 0,
        _ => true,
    }
}

/// Where a stack slot lives.
fn stack_slot(sp: u8) -> (r: u16)
    ensures
        r == stack_addr(sp),
{
    STACK_BASE + sp as u16
}

impl Computer {
    fn get_reg(&self, r: Register) -> (v: u8)
        ensures
            v == reg(self@.cpu, r),
    {
        match r {
            Register::A => self.processor.acc,
            Register::X => self.processor.rx,
            Register::Y => self.processor.ry,
            Register::S => self.processor.sp,
        }
    }

    fn set_reg(&mut self, r: Register, v: u8)
        ensures
            final(self)@ == with_cpu(old(self)@, with_reg(old(self)@.cpu, r, v)),
            final(self).wf() == old(self).wf(),
    {
        match r {
            Register::A => self.processor.acc = v,
            Register::X => self.processor.rx = v,
            Register::Y => self.processor.ry = v,
            Register::S => self.processor.sp = v,
        }
    }

    /// Adds the current instruction's cycles to the clock.
    fn charge(&mut self)
        ensures
            final(self)@ == with_cpu(old(self)@, charge(old(self)@.cpu)),
            final(self).wf() == old(self).wf(),
    {
        let op = self.processor.inst;
        let n = cycle_count(decode_mnemonic(op), get_adressing_mode(op));
        self.processor.clock = self.processor.clock.wrapping_add(n);
    }

    /// Finishes an instruction that falls through: moves the program
    /// counter past it and adds its cycles to the clock.
    fn retire(&mut self)
        ensures
            final(self)@ == with_cpu(old(self)@, retire(old(self)@.cpu)),
            final(self).wf() == old(self).wf(),
    {
        let len = instruction_length(self.processor.inst);
        self.processor.pc = self.processor.pc.wrapping_add(len);
        self.charge();
    }

    /// The effective address of the current instruction's operand.
    fn get_ld_adddr(&mut self, mode: AdressingMode) -> (r: u16)
        requires
            old(self).wf(),
        ensures
            final(self).wf(),
            (final(self)@, r) == resolve(old(self)@, mode),
    {
        let p1 = self.processor.pc.wrapping_add(1);
        let rx = self.processor.rx;
        let ry = self.processor.ry;
        match mode {
            AdressingMode::Immediate => p1,
            AdressingMode::Absolute => self.get_word(p1),
            AdressingMode::AbsoluteX => self.get_word(p1).wrapping_add(rx as u16),
            AdressingMode::AbsoluteY => self.get_word(p1).wrapping_add(ry as u16),
            AdressingMode::ZeroPage => self.read(p1) as u16,
            AdressingMode::ZeroPageX => self.read(p1).wrapping_add(rx) as u16,
            AdressingMode::ZeroPageY => self.read(p1).wrapping_add(ry) as u16,
            AdressingMode::IndirectX => {
                let z = self.read(p1).wrapping_add(rx);
                self.get_word(z as u16)
            },
            AdressingMode::IndirectY => {
                let z = self.read(p1);
                self.get_word(z as u16).wrapping_add(ry as u16)
            },
            AdressingMode::ZeroPageIndirect => {
                let z = self.read(p1);
                self.get_word(z as u16)
            },
            _ => 0,
        }
    }

    /// Fetches the current instruction's operand: its address and value.
    fn fetch_operand(&mut self) -> (r: (u16, u8))
        requires
            old(self).wf(),
        ensures
            final(self).wf(),
            (final(self)@, r.0, r.1) == fetch_operand(old(self)@),
    {
        let mode = get_adressing_mode(self.processor.inst);
        let a = self.get_ld_adddr(mode);
        let v = self.read(a);
        (a, v)
    }

    fn load(&mut self, r: Register)
        requires
            old(self).wf(),
        ensures
            final(self).wf(),
            final(self)@ == op_load(old(self)@, r),
    {
        let (_a, v) = self.fetch_operand();
        self.set_reg(r, v);
        self.processor.flags = Self::set_flags(self.processor.flags, v);
        self.retire();
    }

    fn store(&mut self, v: u8)
        requires
            old(self).wf(),
        ensures
            final(self).wf(),
            final(self)@ == op_store(old(self)@, v),
    {
        let mode = get_adressing_mode(self.processor.inst);
        let a = self.get_ld_adddr(mode);
        self.write(a, v);
        self.retire();
    }

    fn alu(&mut self)
        requires
            old(self).wf(),
        ensures
            final(self).wf(),
            final(self)@ == op_alu(old(self)@),
    {
        let (_a, v) = self.fetch_operand();
        let acc = self.processor.acc;
        let flags = self.processor.flags;
        let decimal = flags & FLAG_D != 0;
        let (r, f) = match decode_mnemonic(self.processor.inst) {
            Mnemonic::And => (acc & v, Self::set_flags(flags, acc & v)),
            Mnemonic::Ora => (acc | v, Self::set_flags(flags, acc | v)),
            Mnemonic::Eor => (acc ^ v, Self::set_flags(flags, acc ^ v)),
            Mnemonic::Adc => if decimal { add_decimal(acc, v, flags) } else { add_binary(acc, v, flags) },
            Mnemonic::Sbc => if decimal { sub_decimal(acc, v, flags) } else { add_binary(acc, !v, flags) },
            _ => (acc, flags),
        };
        self.processor.acc = r;
        self.processor.flags = f;
        self.retire();
    }

    fn compare(&mut self, r: Register)
        requires
            old(self).wf(),
        ensures
            final(self).wf(),
            final(self)@ == op_compare(old(self)@, r),
    {
        let (_a, v) = self.fetch_operand();
        let x = self.get_reg(r);
        self.processor.flags = compare_values(x, v, self.processor.flags);
        self.retire();
    }

    fn bit(&mut self)
        requires
            old(self).wf(),
        ensures
            final(self).wf(),
            final(self)@ == op_bit(old(self)@),
    {
        let (_a, v) = self.fetch_operand();
        self.processor.flags = bit_flags(self.processor.acc, v, self.processor.flags);
        self.retire();
    }

    /// The result and flags of a read-modify-write instruction.
    fn modified(mn: Mnemonic, v: u8, flags: u8) -> (r: (u8, u8))
        ensures
            r == modify(mn, v, flags),
    {
        match mn {
            Mnemonic::Asl => asl_value(v, flags),
            Mnemonic::Lsr => lsr_value(v, flags),
            Mnemonic::Rol => rol_value(v, flags),
            Mnemonic::Ror => ror_value(v, flags),
            Mnemonic::Inc => (v.wrapping_add(1), Self::set_flags(flags, v.wrapping_add(1))),
            Mnemonic::Dec => (v.wrapping_sub(1), Self::set_flags(flags, v.wrapping_sub(1))),
            _ => (v, flags),
        }
    }

    fn modify(&mut self)
        requires
            old(self).wf(),
        ensures
            final(self).wf(),
            final(self)@ == op_modify(old(self)@),
    {
        let mn = decode_mnemonic(self.processor.inst);
        if get_adressing_mode(self.processor.inst) == AdressingMode::Accumulator {
            let (r, f) = Self::modified(mn, self.processor.acc, self.processor.flags);
            self.processor.acc = r;
            self.processor.flags = f;
        } else {
            let (a, v) = self.fetch_operand();
            let (r, f) = Self::modified(mn, v, self.processor.flags);
            self.write(a, r);
            self.processor.flags = f;
        }
        self.retire();
    }

    fn test_bits(&mut self, set: bool)
        requires
            old(self).wf(),
        ensures
            final(self).wf(),
            final(self)@ == op_test_bits(old(self)@, set),
    {
        let (a, v) = self.fetch_operand();
        let acc = self.processor.acc;
        self.write(a, if set { v | acc } else { v & !acc });
        self.processor.flags = if acc & v == 0 { self.processor.flags | FLAG_Z } else { self.processor.flags & !FLAG_Z };
        self.retire();
    }

    fn branch(&mut self)
        requires
            old(self).wf(),
        ensures
            final(self).wf(),
            final(self)@ == op_branch(old(self)@),
    {
        let pc = self.processor.pc;
        let off = self.read(pc.wrapping_add(1));
        let next = pc.wrapping_add(2);
        self.processor.pc = if taken(decode_mnemonic(self.processor.inst), self.processor.flags) {
            branch_to(next, off)
        } else {
            next
        };
        self.charge();
    }

    fn bit_branch(&mut self, n: u8, set: bool)
        requires
            old(self).wf(),
        ensures
            final(self).wf(),
            final(self)@ == op_bit_branch(old(self)@, n, set),
    {
        let pc = self.processor.pc;
        let off = self.read(pc.wrapping_add(2));
        let z = self.read(pc.wrapping_add(1));
        let v = self.read(z as u16);
        let next = pc.wrapping_add(3);
        self.processor.pc = if ((v >> (n % 8)) & 1 == 1) == set { branch_to(next, off) } else { next };
        self.charge();
    }

    fn push(&mut self, v: u8)
        requires
            old(self).wf(),
        ensures
            final(self).wf(),
            final(self)@ == op_push(old(self)@, v),
    {
        self.write(stack_slot(self.processor.sp), v);
        self.processor.sp = self.processor.sp.wrapping_sub(1);
        self.retire();
    }

    fn pull(&mut self) -> (v: u8)
        requires
            old(self).wf(),
        ensures
            final(self).wf(),
            (final(self)@, v) == pull(old(self)@),
    {
        self.processor.sp = self.processor.sp.wrapping_add(1);
        self.read(stack_slot(self.processor.sp))
    }

    fn pull_reg(&mut self, r: Register)
        requires
            old(self).wf(),
        ensures
            final(self).wf(),
            final(self)@ == op_pull(old(self)@, r),
    {
        let v = self.pull();
        self.set_reg(r, v);
        self.processor.flags = Self::set_flags(self.processor.flags, v);
        self.retire();
    }

    fn plp(&mut self)
        requires
            old(self).wf(),
        ensures
            final(self).wf(),
            final(self)@ == op_plp(old(self)@),
    {
        self.processor.flags = self.pull();
        self.retire();
    }

    fn transfer(&mut self, from: Register, to: Register)
        ensures
            final(self).wf() == old(self).wf(),
            final(self)@ == op_transfer(old(self)@, from, to),
    {
        let v = self.get_reg(from);
        self.set_reg(to, v);
        if to != Register::S {
            self.processor.flags = Self::set_flags(self.processor.flags, v);
        }
        self.retire();
    }

    fn step_reg(&mut self, r: Register, up: bool)
        ensures
            final(self).wf() == old(self).wf(),
            final(self)@ == op_step_reg(old(self)@, r, up),
    {
        let x = self.get_reg(r);
        let v = if up { x.wrapping_add(1) } else { x.wrapping_sub(1) };
        self.set_reg(r, v);
        self.processor.flags = Self::set_flags(self.processor.flags, v);
        self.retire();
    }

    fn flag(&mut self, bit: u8, on: bool)
        ensures
            final(self).wf() == old(self).wf(),
            final(self)@ == op_flag(old(self)@, bit, on),
    {
        self.processor.flags = if on { self.processor.flags | bit } else { self.processor.flags & !bit };
        self.retire();
    }

    fn jsr(&mut self)
        requires
            old(self).wf(),
        ensures
            final(self).wf(),
            final(self)@ == op_jsr(old(self)@),
    {
        let sp = self.processor.sp;
        let pc = self.processor.pc;
        let ret = pc.wrapping_add(2);
        let target = self.get_word(pc.wrapping_add(1));
        self.write(stack_slot(sp), (ret >> 8u16) as u8);
        self.write(stack_slot(sp.wrapping_sub(1)), (ret & 0xFF) as u8);
        self.processor.sp = sp.wrapping_sub(2);
        self.processor.pc = target;
        self.charge();
    }

    fn rts(&mut self)
        requires
            old(self).wf(),
        ensures
            final(self).wf(),
            final(self)@ == op_rts(old(self)@),
    {
        let sp = self.processor.sp;
        let lo = self.read(stack_slot(sp.wrapping_add(1)));
        let hi = self.read(stack_slot(sp.wrapping_add(2)));
        self.processor.sp = sp.wrapping_add(2);
        self.processor.pc = ((lo as u16) | ((hi as u16) << 8u16)).wrapping_add(1);
        self.charge();
    }

    fn brk(&mut self)
        requires
            old(self).wf(),
        ensures
            final(self).wf(),
            final(self)@ == op_brk(old(self)@),
    {
        let sp = self.processor.sp;
        let flags = self.processor.flags;
        let ret = self.processor.pc.wrapping_add(2);
        self.write(stack_slot(sp), (ret >> 8u16) as u8);
        self.write(stack_slot(sp.wrapping_sub(1)), (ret & 0xFF) as u8);
        self.write(stack_slot(sp.wrapping_sub(2)), flags | FLAGS_FIXED);
        let target = self.get_word(BREAK_VECTOR);
        self.processor.flags = flags | FLAG_I;
        self.processor.sp = sp.wrapping_sub(3);
        self.processor.pc = target;
        self.charge();
    }

    fn rti(&mut self)
        requires
            old(self).wf(),
        ensures
            final(self).wf(),
            final(self)@ == op_rti(old(self)@),
    {
        let sp = self.processor.sp;
        let hi = self.read(stack_slot(sp.wrapping_add(3)));
        let lo = self.read(stack_slot(sp.wrapping_add(2)));
        let f = self.read(stack_slot(sp.wrapping_add(1)));
        self.processor.flags = f;
        self.processor.sp = sp.wrapping_add(3);
        self.processor.pc = (lo as u16) | ((hi as u16) << 8u16);
        self.charge();
    }

    fn jmp(&mut self)
        requires
            old(self).wf(),
        ensures
            final(self).wf(),
            final(self)@ == op_jmp(old(self)@),
    {
        let rx = self.processor.rx;
        let p = self.get_word(self.processor.pc.wrapping_add(1));
        let target = match get_adressing_mode(self.processor.inst) {
            AdressingMode::Indirect => self.get_word(p),
            AdressingMode::IndirectX => self.get_word(p.wrapping_add(rx as u16)),
            _ => p,
        };
        self.processor.pc = target;
        self.charge();
    }
}


/// The processor as the machine is built: flags with the fixed bits, the
/// program counter at a placeholder until the first reset, a `NOP` as the
/// last opcode.
pub open spec fn initial_processor() -> Processor {
    Processor { flags: FLAGS_FIXED, acc: 0, rx: 0, ry: 0, pc: 0x400, sp: 0, clock: 0, inst: 0xEA, irq: false }
}

/// The machine as built from a ROM image and a disk image: the image at
/// the top of the address space, zeros below it, the disk controller idle.
pub open spec fn initial_machine(rom: Seq<u8>, disk: Seq<u8>) -> Machine {
    Machine {
        cpu: initial_processor(),
        mem: Seq::new((MEMORY_SIZE - rom.len()) as nat, |i: int| 0u8) + rom,
        cf: CfState { disk_cnt: 0, command: DiskCommand::Idle, disk, lba: 0 },
        events: Seq::empty(),
        log: Seq::empty(),
        log_level: 0,
        paused: false,
        step: false,
        speed: 0,
    }
}

/// The machine after a reset: the disk transfer is cleared and the program
/// counter is read from the reset vector; the clock keeps counting.
pub open spec fn reset_machine(m: Machine) -> Machine {
    let m0 = Machine { cf: CfState { lba: 0, disk_cnt: 0, command: DiskCommand::Idle, ..m.cf }, ..m };
    let (m1, pc) = bus_word(m0, RESET_VECTOR);
    Machine { cpu: Processor { pc, ..m1.cpu }, paused: false, ..m1 }
}

/// The machine after a command from the front end.
pub open spec fn apply_command(m: Machine, msg: ControllerMessage) -> Machine {
    match msg {
        ControllerMessage::GetMemory => Machine { events: m.events.push(Event::Memory(m.mem)), ..m },
        ControllerMessage::GetProc => Machine { events: m.events.push(Event::Processor(m.cpu)), ..m },
        ControllerMessage::Reset => reset_machine(m),
        ControllerMessage::SendChar(c) => Machine {
            mem: m.mem.update(SERIAL as int, (c as u32) as u8).update(SERIAL_READY as int, INPUT_WAITING),
            ..m
        },
        ControllerMessage::SetDebug(l) => Machine { log_level: l, ..m },
        ControllerMessage::SetSpeed(s) => Machine { speed: s, ..m },
        ControllerMessage::TogglePause => Machine { paused: !m.paused, ..m },
        ControllerMessage::Step => Machine { step: true, ..m },
        ControllerMessage::ButtonPressed(_) => m,
    }
}

/// A lowercase hexadecimal digit.
pub open spec fn hex_digit(d: nat) -> char {
    if d < 10 { (d + 48) as char } else { (d + 87) as char }
}

/// A number in lowercase hexadecimal, without leading zeros.
pub open spec fn hex_text(n: nat) -> Seq<char>
    decreases n,
{
    if n < 16 { seq![hex_digit(n)] } else { hex_text(n / 16).push(hex_digit(n % 16)) }
}

/// The trace line for the instruction at `pc`: the address and the opcode
/// in `0x`-prefixed lowercase hexadecimal, around the mnemonic.
pub open spec fn trace_text(pc: u16, name: Seq<char>, opcode: u8) -> Seq<char> {
    "0x"@ + hex_text(pc as nat) + " - running instruction "@ + name + " ("@ + "0x"@
        + hex_text(opcode as nat) + ")"@
}

/// Relies on `format!` with the `{:#x}` form, which writes an integer as
/// `0x` and its lowercase hexadecimal digits without leading zeros.
#[verifier::external_body]
fn trace_line(pc: u16, name: &str, opcode: u8) -> (r: String)
    ensures
        r@ == trace_text(pc, name@, opcode),
{
    format!("{:#x} - running instruction {} ({:#x})", pc, name, opcode)
}

/// One turn of the engine: the machine afterwards, and how many
/// milliseconds to rest before the next. Paused with no step asked for, it
/// only rests; otherwise it clears the step request, traces the instruction
/// when the log level asks for it, runs it, and rests as long as the speed
/// setting says.
pub open spec fn step_machine(m: Machine) -> (Machine, u64) {
    if m.paused && !m.step {
        (m, IDLE_MS)
    } else {
        let m1 = Machine { step: false, ..m };
        let op = m1.mem[m1.cpu.pc as int];
        let m2 = if m1.log_level >= TRACE_LEVEL {
            log_line(m1, trace_text(m1.cpu.pc, name_of(mnemonic_of(op)), op))
        } else {
            m1
        };
        let m3 = execute(m2);
        (m3, m3.speed)
    }
}

impl Computer {
    /// Builds the machine around a ROM image, placed at the top of the
    /// address space, and a disk image, which may be empty.
    pub fn new(data: Vec<u8>, disk: Vec<u8>) -> (r: Computer)
        requires
            data@.len() <= MEMORY_SIZE,
        ensures
            r.wf(),
            r@ == initial_machine(data@, disk@),
    {
        let ram_size = MEMORY_SIZE - data.len();
        let mut ram: Vec<u8> = Vec::new();
        while ram.len() < ram_size
            invariant
                ram_size <= MEMORY_SIZE,
                ram@.len() <= ram_size,
                forall|i: int| 0 <= i < ram@.len() ==> ram@[i] == 0,
            decreases ram_size - ram@.len(),
        {
            ram.push(0);
        }
        let mut i: usize = 0;
        while i < data.len()
            invariant
                i <= data@.len(),
                ram_size + data@.len() == MEMORY_SIZE,
                ram@.len() == ram_size + i,
                forall|j: int| 0 <= j < ram_size ==> ram@[j] == 0,
                forall|j: int| 0 <= j < i ==> ram@[ram_size + j] == data@[j],
            decreases data@.len() - i,
        {
            ram.push(data[i]);
            i = i + 1;
        }
        let r = Computer {
            log_level: 0,
            processor: Processor {
                flags: FLAGS_FIXED,
                acc: 0,
                rx: 0,
                ry: 0,
                pc: 0x400,
                sp: 0,
                clock: 0,
                inst: 0xEA,
                irq: false,
            },
            paused: false,
            step: false,
            speed: 0,
            data: ram,
            cf: Cf::new(disk),
            outbox: Vec::new(),
            info: Vec::new(),
        };
        proof {
            assert(r@.mem =~= initial_machine(data@, disk@).mem);
            assert(r@.events =~= Seq::<Event>::empty());
            assert(r@.log =~= Seq::<(Seq<char>, u64)>::empty());
        }
        r
    }

    /// Runs the instruction whose opcode is in `inst`.
    fn dispatch(&mut self)
        requires
            old(self).wf(),
        ensures
            final(self).wf(),
            final(self)@ == dispatch(old(self)@),
    {
        proof {
            reveal(dispatch);
        }
        let c = self.processor;
        match decode_mnemonic(c.inst) {
            Mnemonic::Lda => self.load(Register::A),
            Mnemonic::Ldx => self.load(Register::X),
            Mnemonic::Ldy => self.load(Register::Y),
            Mnemonic::Sta => self.store(c.acc),
            Mnemonic::Stx => self.store(c.rx),
            Mnemonic::Sty => self.store(c.ry),
            Mnemonic::Stz => self.store(0),
            Mnemonic::Adc | Mnemonic::Sbc | Mnemonic::And | Mnemonic::Ora | Mnemonic::Eor => self.alu(),
            Mnemonic::Cmp => self.compare(Register::A),
            Mnemonic::Cpx => self.compare(Register::X),
            Mnemonic::Cpy => self.compare(Register::Y),
            Mnemonic::Bit => self.bit(),
            Mnemonic::Asl | Mnemonic::Lsr | Mnemonic::Rol | Mnemonic::Ror | Mnemonic::Inc
            | Mnemonic::Dec => self.modify(),
            Mnemonic::Tsb => self.test_bits(true),
            Mnemonic::Trb => self.test_bits(false),
            Mnemonic::Bcc | Mnemonic::Bcs | Mnemonic::Bne | Mnemonic::Beq | Mnemonic::Bvc
            | Mnemonic::Bvs | Mnemonic::Bpl | Mnemonic::Bmi | Mnemonic::Bra => self.branch(),
            Mnemonic::Bbr(n) => self.bit_branch(n, false),
            Mnemonic::Bbs(n) => self.bit_branch(n, true),
            Mnemonic::Pha => self.push(c.acc),
            Mnemonic::Phx => self.push(c.rx),
            Mnemonic::Phy => self.push(c.ry),
            Mnemonic::Php => self.push(c.flags | FLAGS_FIXED),
            Mnemonic::Pla => self.pull_reg(Register::A),
            Mnemonic::Plx => self.pull_reg(Register::X),
            Mnemonic::Ply => self.pull_reg(Register::Y),
            Mnemonic::Plp => self.plp(),
            Mnemonic::Tax => self.transfer(Register::A, Register::X),
            Mnemonic::Tay => self.transfer(Register::A, Register::Y),
            Mnemonic::Txa => self.transfer(Register::X, Register::A),
            Mnemonic::Tya => self.transfer(Register::Y, Register::A),
            Mnemonic::Tsx => self.transfer(Register::S, Register::X),
            Mnemonic::Txs => self.transfer(Register::X, Register::S),
            Mnemonic::Inx => self.step_reg(Register::X, true),
            Mnemonic::Iny => self.step_reg(Register::Y, true),
            Mnemonic::Dex => self.step_reg(Register::X, false),
            Mnemonic::Dey => self.step_reg(Register::Y, false),
            Mnemonic::Clc => self.flag(FLAG_C, false),
            Mnemonic::Sec => self.flag(FLAG_C, true),
            Mnemonic::Cli => self.flag(FLAG_I, false),
            Mnemonic::Sei => self.flag(FLAG_I, true),
            Mnemonic::Cld => self.flag(FLAG_D, false),
            Mnemonic::Sed => self.flag(FLAG_D, true),
            Mnemonic::Clv => self.flag(FLAG_O, false),
            Mnemonic::Jsr => self.jsr(),
            Mnemonic::Rts => self.rts(),
            Mnemonic::Brk => self.brk(),
            Mnemonic::Rti => self.rti(),
            Mnemonic::Jmp => self.jmp(),
            _ => self.retire(),
        }
    }

    /// Executes one instruction: fetches the opcode at the program counter
    /// through the bus, keeps it in `inst`, and runs it.
    pub fn run_instruction(&mut self)
        requires
            old(self).wf(),
        ensures
            final(self).wf(),
            final(self)@ == execute(old(self)@),
    {
        proof {
            reveal(execute);
        }
        let op = self.read(self.processor.pc);
        self.processor.inst = op;
        self.dispatch();
    }

    /// Resets the machine: clears the disk transfer and loads the program
    /// counter from the reset vector.
    pub fn reset(&mut self)
        requires
            old(self).wf(),
        ensures
            final(self).wf(),
            final(self)@ == reset_machine(old(self)@),
    {
        self.paused = true;
        self.cf.lba = 0;
        self.cf.disk_cnt = 0;
        self.cf.command = DiskCommand::Idle;
        self.processor.pc = self.get_word(RESET_VECTOR);
        self.paused = false;
    }

    /// Applies one command from the front end.
    pub fn handle_message(&mut self, msg: ControllerMessage)
        requires
            old(self).wf(),
        ensures
            final(self).wf(),
            final(self)@ == apply_command(old(self)@, msg),
    {
        match msg {
            ControllerMessage::GetMemory => {
                let snapshot = self.data.clone();
                proof {
                    assert(snapshot@ =~= self.data@);
                }
                self.emit(ComputerMessage::Memory(snapshot));
            },
            ControllerMessage::GetProc => {
                let p = self.processor;
                self.emit(ComputerMessage::Processor(p));
            },
            ControllerMessage::Reset => self.reset(),
            ControllerMessage::SendChar(c) => {
                self.data.set(SERIAL as usize, (c as u32) as u8);
                self.data.set(SERIAL_READY as usize, INPUT_WAITING);
            },
            ControllerMessage::SetDebug(l) => self.log_level = l,
            ControllerMessage::SetSpeed(s) => self.speed = s,
            ControllerMessage::TogglePause => self.paused = !self.paused,
            ControllerMessage::Step => self.step = true,
            ControllerMessage::ButtonPressed(_) => {},
        }
    }

    /// One turn of the engine; returns how many milliseconds to rest
    /// before the next.
    pub fn step(&mut self) -> (rest: u64)
        requires
            old(self).wf(),
        ensures
            final(self).wf(),
            (final(self)@, rest) == step_machine(old(self)@),
    {
        if self.paused && !self.step {
            return IDLE_MS;
        }
        self.step = false;
        if self.log_level >= TRACE_LEVEL {
            let pc = self.processor.pc;
            let op = self.data[pc as usize];
            let line = trace_line(pc, get_opcode_name(op), op);
            self.add_info(line);
        }
        self.run_instruction();
        self.speed
    }

    /// Hands over the events queued for the front end, oldest first.
    pub fn take_messages(&mut self) -> (r: Vec<ComputerMessage>)
        ensures
            final(self).wf() == old(self).wf(),
            r@.map_values(|e: ComputerMessage| e@) == old(self)@.events,
            final(self)@ == (Machine { events: Seq::empty(), ..old(self)@ }),
    {
        let mut r: Vec<ComputerMessage> = Vec::new();
        std::mem::swap(&mut r, &mut self.outbox);
        proof {
            assert(self@.events =~= Seq::<Event>::empty());
        }
        r
    }

    /// A copy of the processor registers.
    pub fn processor(&self) -> (r: Processor)
        ensures
            r == self@.cpu,
    {
        self.processor
    }

    /// The byte stored at an address, read without going through the bus.
    pub fn peek(&self, addr: u16) -> (r: u8)
        requires
            self.wf(),
        ensures
            r == self@.mem[addr as int],
    {
        self.data[addr as usize]
    }

    /// Whether the engine is paused.
    pub fn is_paused(&self) -> (r: bool)
        ensures
            r == self@.paused,
    {
        self.paused
    }
}

} // verus!
