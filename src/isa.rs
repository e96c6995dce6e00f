use vstd::prelude::*;

use crate::alu::{
    binary_add, bit_test, compare, decimal_add, decimal_sub, put, rotate_left, rotate_right,
    shift_left, shift_right,
};
use crate::computer::{
    BREAK_VECTOR, FLAG_C, FLAG_D, FLAG_I, FLAG_N, FLAG_O, FLAG_Z, FLAGS_FIXED, Machine, Processor,
    STACK_BASE, bus_read, bus_word, bus_write, nz_flags, word,
};
use crate::decode::{AdressingMode, Mnemonic, length_of, mnemonic_of, mode_of};

verus! {

/// A register an instruction reads or writes.
#[derive(PartialEq, Eq, Structural, Clone, Copy, Debug)]
pub enum Register {
    A,
    X,
    Y,
    S,
}

/// The value of a register.
pub open spec fn reg(c: Processor, r: Register) -> u8 {
    match r {
        Register::A => c.acc,
        Register::X => c.rx,
        Register::Y => c.ry,
        Register::S => c.sp,
    }
}

/// The processor with a register set to `v`.
pub open spec fn with_reg(c: Processor, r: Register, v: u8) -> Processor {
    match r {
        Register::A => Processor { acc: v, ..c },
        Register::X => Processor { rx: v, ..c },
        Register::Y => Processor { ry: v, ..c },
        Register::S => Processor { sp: v, ..c },
    }
}

/// The machine with its processor replaced.
pub open spec fn with_cpu(m: Machine, c: Processor) -> Machine {
    Machine { cpu: c, ..m }
}

/// The cycles an instruction adds to the clock. Extra cycles for crossing
/// a page are not modelled.
pub open spec fn cycles(mn: Mnemonic, a: AdressingMode) -> u128 {
    match mn {
        Mnemonic::Adc | Mnemonic::And | Mnemonic::Eor | Mnemonic::Ora | Mnemonic::Sbc => match a {
            AdressingMode::Immediate => 2,
            AdressingMode::ZeroPage | AdressingMode::ZeroPageX => 3,
            AdressingMode::IndirectX | AdressingMode::IndirectY => 6,
            AdressingMode::ZeroPageIndirect => 5,
            _ => 4,
        },
        Mnemonic::Lda | Mnemonic::Ldx | Mnemonic::Ldy => match a {
            AdressingMode::Immediate => 2,
            AdressingMode::ZeroPage | AdressingMode::ZeroPageX => 3,
            AdressingMode::ZeroPageY => 4,
            AdressingMode::IndirectX | AdressingMode::IndirectY => 5,
            AdressingMode::ZeroPageIndirect => 6,
            _ => 4,
        },
        Mnemonic::Asl | Mnemonic::Rol | Mnemonic::Ror => if a == AdressingMode::Accumulator { 2 } else { 6 },
        Mnemonic::Lsr => match a {
            AdressingMode::Accumulator => 2,
            AdressingMode::Absolute | AdressingMode::AbsoluteX => 6,
            _ => 5,
        },
        Mnemonic::Inc | Mnemonic::Dec => match a {
            AdressingMode::Accumulator => 2,
            AdressingMode::Absolute => 6,
            AdressingMode::AbsoluteX => 7,
            _ => 5,
        },
        Mnemonic::Tsb | Mnemonic::Trb => if a == AdressingMode::Absolute { 6 } else { 5 },
        Mnemonic::Bit => match a {
            AdressingMode::Absolute | AdressingMode::AbsoluteX => 4,
            _ => 3,
        },
        Mnemonic::Jmp => match a {
            AdressingMode::Indirect => 8,
            AdressingMode::IndirectX => 11,
            _ => 10,
        },
        Mnemonic::Brk | Mnemonic::Rti => 7,
        Mnemonic::Jsr | Mnemonic::Rts => 6,
        Mnemonic::Sta => 5,
        Mnemonic::Cmp | Mnemonic::Cpx | Mnemonic::Cpy | Mnemonic::Stx | Mnemonic::Sty
        | Mnemonic::Stz | Mnemonic::Bbr(_) | Mnemonic::Bbs(_) | Mnemonic::Pla | Mnemonic::Plx
        | Mnemonic::Ply | Mnemonic::Plp | Mnemonic::Nop2 => 4,
        Mnemonic::Pha | Mnemonic::Phx | Mnemonic::Phy | Mnemonic::Php | Mnemonic::Bcc
        | Mnemonic::Bcs | Mnemonic::Beq | Mnemonic::Bmi | Mnemonic::Bne | Mnemonic::Bpl
        | Mnemonic::Bra | Mnemonic::Bvc | Mnemonic::Bvs => 3,
        Mnemonic::Nop3 => 6,
        _ => 2,
    }
}

/// The clock after the current instruction's cycles.
pub open spec fn charge(c: Processor) -> Processor {
    Processor { clock: c.clock.wrapping_add(cycles(mnemonic_of(c.inst), mode_of(c.inst))), ..c }
}

/// The processor once the current instruction is done and falls through:
/// the program counter moves past it and the clock takes its cycles.
pub open spec fn retire(c: Processor) -> Processor {
    charge(Processor { pc: c.pc.wrapping_add(length_of(mnemonic_of(c.inst), mode_of(c.inst))), ..c })
}

/// Where a stack slot lives: page 1, indexed by the 8-bit stack pointer.
pub open spec fn stack_addr(sp: u8) -> u16 {
    (STACK_BASE + sp) as u16
}

/// The effective address of the current instruction's operand under an
/// addressing mode, with the machine after the pointer reads it takes.
/// Zero-page indexing wraps inside the zero page; absolute indexing wraps
/// at 64KB. Modes without a memory operand give address 0.
pub open spec fn resolve(m: Machine, mode: AdressingMode) -> (Machine, u16) {
    let p1 = m.cpu.pc.wrapping_add(1);
    match mode {
        AdressingMode::Immediate => (m, p1),
        AdressingMode::Absolute => bus_word(m, p1),
        AdressingMode::AbsoluteX => {
            let (m1, b) = bus_word(m, p1);
            (m1, b.wrapping_add(m.cpu.rx as u16))
        },
        AdressingMode::AbsoluteY => {
            let (m1, b) = bus_word(m, p1);
            (m1, b.wrapping_add(m.cpu.ry as u16))
        },
        AdressingMode::ZeroPage => {
            let (m1, z) = bus_read(m, p1);
            (m1, z as u16)
        },
        AdressingMode::ZeroPageX => {
            let (m1, z) = bus_read(m, p1);
            (m1, z.wrapping_add(m.cpu.rx) as u16)
        },
        AdressingMode::ZeroPageY => {
            let (m1, z) = bus_read(m, p1);
            (m1, z.wrapping_add(m.cpu.ry) as u16)
        },
        AdressingMode::IndirectX => {
            let (m1, z) = bus_read(m, p1);
            bus_word(m1, z.wrapping_add(m.cpu.rx) as u16)
        },
        AdressingMode::IndirectY => {
            let (m1, z) = bus_read(m, p1);
            let (m2, b) = bus_word(m1, z as u16);
            (m2, b.wrapping_add(m.cpu.ry as u16))
        },
        AdressingMode::ZeroPageIndirect => {
            let (m1, z) = bus_read(m, p1);
            bus_word(m1, z as u16)
        },
        _ => (m, 0),
    }
}

/// The operand of the current instruction: the machine after fetching it,
/// its address, and its value.
pub open spec fn fetch_operand(m: Machine) -> (Machine, u16, u8) {
    let (m1, a) = resolve(m, mode_of(m.cpu.inst));
    let (m2, v) = bus_read(m1, a);
    (m2, a, v)
}

/// `LDA`, `LDX`, `LDY`: load the operand, update Zero and Negative.
pub open spec fn op_load(m: Machine, r: Register) -> Machine {
    let (m2, _a, v) = fetch_operand(m);
    with_cpu(m2, retire(Processor { flags: nz_flags(m2.cpu.flags, v), ..with_reg(m2.cpu, r, v) }))
}

/// `STA`, `STX`, `STY`, `STZ`: store a byte at the effective address.
pub open spec fn op_store(m: Machine, v: u8) -> Machine {
    let (m1, a) = resolve(m, mode_of(m.cpu.inst));
    let m2 = bus_write(m1, a, v);
    with_cpu(m2, retire(m2.cpu))
}

/// The accumulator and flags after a logical or arithmetic instruction.
pub open spec fn alu_result(mn: Mnemonic, acc: u8, v: u8, flags: u8) -> (u8, u8) {
    match mn {
        Mnemonic::And => (acc & v, nz_flags(flags, acc & v)),
        Mnemonic::Ora => (acc | v, nz_flags(flags, acc | v)),
        Mnemonic::Eor => (acc ^ v, nz_flags(flags, acc ^ v)),
        Mnemonic::Adc => if flags & FLAG_D != 0 { decimal_add(acc, v, flags) } else { binary_add(acc, v, flags) },
        Mnemonic::Sbc => if flags & FLAG_D != 0 { decimal_sub(acc, v, flags) } else { binary_add(acc, !v, flags) },
        _ => (acc, flags),
    }
}

/// `AND`, `ORA`, `EOR`, `ADC`, `SBC`: combine the accumulator with the operand.
pub open spec fn op_alu(m: Machine) -> Machine {
    let (m2, _a, v) = fetch_operand(m);
    let (acc, f) = alu_result(mnemonic_of(m.cpu.inst), m2.cpu.acc, v, m2.cpu.flags);
    with_cpu(m2, retire(Processor { acc, flags: f, ..m2.cpu }))
}

/// `CMP`, `CPX`, `CPY`: compare a register with the operand.
pub open spec fn op_compare(m: Machine, r: Register) -> Machine {
    let (m2, _a, v) = fetch_operand(m);
    with_cpu(m2, retire(Processor { flags: compare(reg(m2.cpu, r), v, m2.cpu.flags), ..m2.cpu }))
}

/// `BIT`: test the operand against the accumulator.
pub open spec fn op_bit(m: Machine) -> Machine {
    let (m2, _a, v) = fetch_operand(m);
    with_cpu(m2, retire(Processor { flags: bit_test(m2.cpu.acc, v, m2.cpu.flags), ..m2.cpu }))
}

/// The result and flags of a read-modify-write instruction on a value.
pub open spec fn modify(mn: Mnemonic, v: u8, flags: u8) -> (u8, u8) {
    match mn {
        Mnemonic::Asl => shift_left(v, flags),
        Mnemonic::Lsr => shift_right(v, flags),
        Mnemonic::Rol => rotate_left(v, flags),
        Mnemonic::Ror => rotate_right(v, flags),
        Mnemonic::Inc => (v.wrapping_add(1), nz_flags(flags, v.wrapping_add(1))),
        Mnemonic::Dec => (v.wrapping_sub(1), nz_flags(flags, v.wrapping_sub(1))),
        _ => (v, flags),
    }
}

/// `ASL`, `LSR`, `ROL`, `ROR`, `INC`, `DEC`: modify the accumulator, or the
/// byte at the effective address.
pub open spec fn op_modify(m: Machine) -> Machine {
    let mn = mnemonic_of(m.cpu.inst);
    if mode_of(m.cpu.inst) == AdressingMode::Accumulator {
        let (r, f) = modify(mn, m.cpu.acc, m.cpu.flags);
        with_cpu(m, retire(Processor { acc: r, flags: f, ..m.cpu }))
    } else {
        let (m2, a, v) = fetch_operand(m);
        let (r, f) = modify(mn, v, m2.cpu.flags);
        let m3 = bus_write(m2, a, r);
        with_cpu(m3, retire(Processor { flags: f, ..m3.cpu }))
    }
}

/// `TSB`, `TRB`: set or reset in memory the bits set in the accumulator;
/// Zero tells whether the two had no bit in common.
pub open spec fn op_test_bits(m: Machine, set: bool) -> Machine {
    let (m2, a, v) = fetch_operand(m);
    let acc = m2.cpu.acc;
    let m3 = bus_write(m2, a, if set { v | acc } else { v & !acc });
    with_cpu(m3, retire(Processor { flags: put(m3.cpu.flags, FLAG_Z, acc & v == 0), ..m3.cpu }))
}

/// Where a branch lands: the address after it plus the signed offset,
/// wrapping at 64KB.
pub open spec fn branch_target(next: u16, off: u8) -> u16 {
    if off < 128 { next.wrapping_add(off as u16) } else { next.wrapping_sub((256 - off) as u16) }
}

/// Whether a conditional branch is taken under the given flags.
pub open spec fn branch_taken(mn: Mnemonic, flags: u8) -> bool {
    match mn {
        Mnemonic::Bcc => flags & FLAG_C == 0,
        Mnemonic::Bcs => flags & FLAG_C != 0,
        Mnemonic::Bne => flags & FLAG_Z == 0,
        Mnemonic::Beq => flags & FLAG_Z != 0,
        Mnemonic::Bvc => flags & FLAG_O == 0,
        Mnemonic::Bvs => flags & FLAG_O != 0,
        Mnemonic::Bpl => flags & FLAG_N == 0,
        Mnemonic::Bmi => flags & FLAG_N != 0,
        _ => true,
    }
}

/// A relative branch: read the offset, then go to the target when taken,
/// past the instruction otherwise.
pub open spec fn op_branch(m: Machine) -> Machine {
    let (m1, off) = bus_read(m, m.cpu.pc.wrapping_add(1));
    let next = m.cpu.pc.wrapping_add(2);
    let pc = if branch_taken(mnemonic_of(m.cpu.inst), m.cpu.flags) { branch_target(next, off) } else { next };
    with_cpu(m1, charge(Processor { pc, ..m1.cpu }))
}

/// `BBR#`, `BBS#`: branch when bit `n` of a zero-page byte is clear (`set`
/// false) or set (`set` true).
pub open spec fn op_bit_branch(m: Machine, n: u8, set: bool) -> Machine {
    let (m1, off) = bus_read(m, m.cpu.pc.wrapping_add(2));
    let (m2, z) = bus_read(m1, m.cpu.pc.wrapping_add(1));
    let (m3, v) = bus_read(m2, z as u16);
    let next = m.cpu.pc.wrapping_add(3);
    let pc = if ((v >> (n % 8)) & 1 == 1) == set { branch_target(next, off) } else { next };
    with_cpu(m3, charge(Processor { pc, ..m3.cpu }))
}

/// `PHA`, `PHX`, `PHY`, `PHP`: write at the stack pointer, then move it down.
pub open spec fn op_push(m: Machine, v: u8) -> Machine {
    let m1 = bus_write(m, stack_addr(m.cpu.sp), v);
    with_cpu(m1, retire(Processor { sp: m1.cpu.sp.wrapping_sub(1), ..m1.cpu }))
}

/// The machine with the stack pointer moved up one and the byte it then
/// points at.
pub open spec fn pull(m: Machine) -> (Machine, u8) {
    let sp = m.cpu.sp.wrapping_add(1);
    bus_read(with_cpu(m, Processor { sp, ..m.cpu }), stack_addr(sp))
}

/// `PLA`, `PLX`, `PLY`: pull a register, update Zero and Negative.
pub open spec fn op_pull(m: Machine, r: Register) -> Machine {
    let (m1, v) = pull(m);
    with_cpu(m1, retire(Processor { flags: nz_flags(m1.cpu.flags, v), ..with_reg(m1.cpu, r, v) }))
}

/// `PLP`: pull the flags as they are.
pub open spec fn op_plp(m: Machine) -> Machine {
    let (m1, v) = pull(m);
    with_cpu(m1, retire(Processor { flags: v, ..m1.cpu }))
}

/// `TAX`, `TAY`, `TXA`, `TYA`, `TSX`, `TXS`: copy a register; all but a
/// copy into the stack pointer update Zero and Negative.
pub open spec fn op_transfer(m: Machine, from: Register, to: Register) -> Machine {
    let v = reg(m.cpu, from);
    let c = with_reg(m.cpu, to, v);
    let f = if to == Register::S { c.flags } else { nz_flags(c.flags, v) };
    with_cpu(m, retire(Processor { flags: f, ..c }))
}

/// `INX`, `INY`, `DEX`, `DEY`: step a register by one, wrapping.
pub open spec fn op_step_reg(m: Machine, r: Register, up: bool) -> Machine {
    let v = if up { reg(m.cpu, r).wrapping_add(1) } else { reg(m.cpu, r).wrapping_sub(1) };
    let c = with_reg(m.cpu, r, v);
    with_cpu(m, retire(Processor { flags: nz_flags(c.flags, v), ..c }))
}

/// `CLC`, `SEC`, `CLI`, `SEI`, `CLD`, `SED`, `CLV`: set or clear one flag.
pub open spec fn op_flag(m: Machine, bit: u8, on: bool) -> Machine {
    with_cpu(m, retire(Processor { flags: put(m.cpu.flags, bit, on), ..m.cpu }))
}

/// `JSR`: read the absolute operand, push the address of the instruction's
/// last byte, high byte first, and jump to the operand.
pub open spec fn op_jsr(m: Machine) -> Machine {
    let sp = m.cpu.sp;
    let ret = m.cpu.pc.wrapping_add(2);
    let (m1, target) = bus_word(m, m.cpu.pc.wrapping_add(1));
    let m2 = bus_write(m1, stack_addr(sp), (ret >> 8u16) as u8);
    let m3 = bus_write(m2, stack_addr(sp.wrapping_sub(1)), (ret & 0xFF) as u8);
    with_cpu(m3, charge(Processor { sp: sp.wrapping_sub(2), pc: target, ..m3.cpu }))
}

/// `RTS`: pull the low then high byte of an address and resume one past it.
pub open spec fn op_rts(m: Machine) -> Machine {
    let sp = m.cpu.sp;
    let (m1, lo) = bus_read(m, stack_addr(sp.wrapping_add(1)));
    let (m2, hi) = bus_read(m1, stack_addr(sp.wrapping_add(2)));
    with_cpu(m2, charge(Processor { sp: sp.wrapping_add(2), pc: word(lo, hi).wrapping_add(1), ..m2.cpu }))
}

/// `BRK`: push the address two past the opcode and the flags with the fixed
/// bits, disable interrupts, and jump through the break vector.
pub open spec fn op_brk(m: Machine) -> Machine {
    let sp = m.cpu.sp;
    let ret = m.cpu.pc.wrapping_add(2);
    let m1 = bus_write(m, stack_addr(sp), (ret >> 8u16) as u8);
    let m2 = bus_write(m1, stack_addr(sp.wrapping_sub(1)), (ret & 0xFF) as u8);
    let m3 = bus_write(m2, stack_addr(sp.wrapping_sub(2)), m.cpu.flags | FLAGS_FIXED);
    let (m4, target) = bus_word(m3, BREAK_VECTOR);
    with_cpu(m4, charge(Processor { flags: m.cpu.flags | FLAG_I, sp: sp.wrapping_sub(3), pc: target, ..m4.cpu }))
}

/// `RTI`: pull the flags, then the return address, and resume there.
pub open spec fn op_rti(m: Machine) -> Machine {
    let sp = m.cpu.sp;
    let (m1, hi) = bus_read(m, stack_addr(sp.wrapping_add(3)));
    let (m2, lo) = bus_read(m1, stack_addr(sp.wrapping_add(2)));
    let (m3, f) = bus_read(m2, stack_addr(sp.wrapping_add(1)));
    with_cpu(m3, charge(Processor { flags: f, sp: sp.wrapping_add(3), pc: word(lo, hi), ..m3.cpu }))
}

/// `JMP`: to the absolute operand, through the word it points at, or
/// through the word at the operand plus X.
pub open spec fn op_jmp(m: Machine) -> Machine {
    let (m1, p) = bus_word(m, m.cpu.pc.wrapping_add(1));
    let (m2, target) = match mode_of(m.cpu.inst) {
        AdressingMode::Indirect => bus_word(m1, p),
        AdressingMode::IndirectX => bus_word(m1, p.wrapping_add(m.cpu.rx as u16)),
        _ => (m1, p),
    };
    with_cpu(m2, charge(Processor { pc: target, ..m2.cpu }))
}

/// Runs the instruction whose opcode is in `inst`.
#[verifier::opaque]
pub open spec fn dispatch(m: Machine) -> Machine {
    let c = m.cpu;
    match mnemonic_of(c.inst) {
        Mnemonic::Lda => op_load(m, Register::A),
        Mnemonic::Ldx => op_load(m, Register::X),
        Mnemonic::Ldy => op_load(m, Register::Y),
        Mnemonic::Sta => op_store(m, c.acc),
        Mnemonic::Stx => op_store(m, c.rx),
        Mnemonic::Sty => op_store(m, c.ry),
        Mnemonic::Stz => op_store(m, 0),
        Mnemonic::Adc | Mnemonic::Sbc | Mnemonic::And | Mnemonic::Ora | Mnemonic::Eor => op_alu(m),
        Mnemonic::Cmp => op_compare(m, Register::A),
        Mnemonic::Cpx => op_compare(m, Register::X),
        Mnemonic::Cpy => op_compare(m, Register::Y),
        Mnemonic::Bit => op_bit(m),
        Mnemonic::Asl | Mnemonic::Lsr | Mnemonic::Rol | Mnemonic::Ror | Mnemonic::Inc
        | Mnemonic::Dec => op_modify(m),
        Mnemonic::Tsb => op_test_bits(m, true),
        Mnemonic::Trb => op_test_bits(m, false),
        Mnemonic::Bcc | Mnemonic::Bcs | Mnemonic::Bne | Mnemonic::Beq | Mnemonic::Bvc
        | Mnemonic::Bvs | Mnemonic::Bpl | Mnemonic::Bmi | Mnemonic::Bra => op_branch(m),
        Mnemonic::Bbr(n) => op_bit_branch(m, n, false),
        Mnemonic::Bbs(n) => op_bit_branch(m, n, true),
        Mnemonic::Pha => op_push(m, c.acc),
        Mnemonic::Phx => op_push(m, c.rx),
        Mnemonic::Phy => op_push(m, c.ry),
        Mnemonic::Php => op_push(m, c.flags | FLAGS_FIXED),
        Mnemonic::Pla => op_pull(m, Register::A),
        Mnemonic::Plx => op_pull(m, Register::X),
        Mnemonic::Ply => op_pull(m, Register::Y),
        Mnemonic::Plp => op_plp(m),
        Mnemonic::Tax => op_transfer(m, Register::A, Register::X),
        Mnemonic::Tay => op_transfer(m, Register::A, Register::Y),
        Mnemonic::Txa => op_transfer(m, Register::X, Register::A),
        Mnemonic::Tya => op_transfer(m, Register::Y, Register::A),
        Mnemonic::Tsx => op_transfer(m, Register::S, Register::X),
        Mnemonic::Txs => op_transfer(m, Register::X, Register::S),
        Mnemonic::Inx => op_step_reg(m, Register::X, true),
        Mnemonic::Iny => op_step_reg(m, Register::Y, true),
        Mnemonic::Dex => op_step_reg(m, Register::X, false),
        Mnemonic::Dey => op_step_reg(m, Register::Y, false),
        Mnemonic::Clc => op_flag(m, FLAG_C, false),
        Mnemonic::Sec => op_flag(m, FLAG_C, true),
        Mnemonic::Cli => op_flag(m, FLAG_I, false),
        Mnemonic::Sei => op_flag(m, FLAG_I, true),
        Mnemonic::Cld => op_flag(m, FLAG_D, false),
        Mnemonic::Sed => op_flag(m, FLAG_D, true),
        Mnemonic::Clv => op_flag(m, FLAG_O, false),
        Mnemonic::Jsr => op_jsr(m),
        Mnemonic::Rts => op_rts(m),
        Mnemonic::Brk => op_brk(m),
        Mnemonic::Rti => op_rti(m),
        Mnemonic::Jmp => op_jmp(m),
        _ => with_cpu(m, retire(c)),
    }
}

/// One instruction: fetch the opcode at the program counter through the
/// bus, keep it in `inst`, and run it.
#[verifier::opaque]
pub open spec fn execute(m: Machine) -> Machine {
    let (m1, op) = bus_read(m, m.cpu.pc);
    dispatch(with_cpu(m1, Processor { inst: op, ..m1.cpu }))
}

} // verus!

verus! {

/// Whether a bus access to `addr` reaches plain memory.
pub open spec fn plain(m: Machine, addr: u16) -> bool {
    !crate::computer::in_disk_window(m, addr) && addr != crate::computer::SERIAL
}

/// Fetching from plain memory takes the stored opcode and changes nothing else.
pub proof fn lemma_fetch(m: Machine)
    requires
        m.mem.len() == 0x10000,
        plain(m, m.cpu.pc),
    ensures
        execute(m) == dispatch(with_cpu(m, Processor { inst: m.mem[m.cpu.pc as int], ..m.cpu })),
{
    reveal(execute);
}

proof fn lemma_opcodes_pha_pla()
    ensures
        mnemonic_of(0x48) == Mnemonic::Pha,
        mnemonic_of(0x68) == Mnemonic::Pla,
        mode_of(0x48) == AdressingMode::Implied,
{
    reveal(mnemonic_of);
    reveal(mode_of);
    assert(0x48u8 & 3 == 0 && (0x48u8 >> 2) & 7 == 2) by (bit_vector);
    assert(0x48u8 & 0x0Fu8 == 0x08u8) by (bit_vector);
    assert(0x68u8 & 0x0Fu8 == 0x08u8) by (bit_vector);
}

/// What a push does when the stack page is plain memory.
proof fn lemma_push(m: Machine, v: u8)
    requires
        m.mem.len() == 0x10000,
        length_of(mnemonic_of(m.cpu.inst), mode_of(m.cpu.inst)) == 1,
    ensures
        op_push(m, v).cpu.sp == m.cpu.sp.wrapping_sub(1),
        op_push(m, v).cpu.pc == m.cpu.pc.wrapping_add(1),
        op_push(m, v).cpu.acc == m.cpu.acc,
        op_push(m, v).mem == m.mem.update(stack_addr(m.cpu.sp) as int, v),
        op_push(m, v).cf == m.cf,
{
    assert(plain(m, stack_addr(m.cpu.sp)));
}

/// What a pull into a register does when the stack page is plain memory.
proof fn lemma_pull(m: Machine, r: Register)
    requires
        m.mem.len() == 0x10000,
        r != Register::S,
    ensures
        op_pull(m, r).cpu.sp == m.cpu.sp.wrapping_add(1),
        reg(op_pull(m, r).cpu, r) == m.mem[stack_addr(m.cpu.sp.wrapping_add(1)) as int],
        op_pull(m, r).cpu.flags == nz_flags(m.cpu.flags, m.mem[stack_addr(m.cpu.sp.wrapping_add(1)) as int]),
{
    assert(plain(m, stack_addr(m.cpu.sp.wrapping_add(1))));
}

/// `PHA` from plain memory: the value lands in the stack slot, the stack
/// pointer moves down, and the program counter moves on by one.
proof fn lemma_run_pha(m: Machine)
    requires
        m.mem.len() == 0x10000,
        m.mem[m.cpu.pc as int] == 0x48,
        plain(m, m.cpu.pc),
    ensures
        execute(m).cpu.pc == m.cpu.pc.wrapping_add(1),
        execute(m).cpu.sp == m.cpu.sp.wrapping_sub(1),
        execute(m).cpu.acc == m.cpu.acc,
        execute(m).mem == m.mem.update(stack_addr(m.cpu.sp) as int, m.cpu.acc),
        execute(m).cf == m.cf,
{
    lemma_opcodes_pha_pla();
    let ma = with_cpu(m, Processor { inst: 0x48, ..m.cpu });
    lemma_fetch(m);
    assert(dispatch(ma) == op_push(ma, m.cpu.acc)) by {
        reveal(dispatch);
    }
    lemma_push(ma, m.cpu.acc);
}

/// `PLA` from plain memory: the stack pointer moves up and the accumulator
/// takes the byte it then points at.
proof fn lemma_run_pla(m: Machine)
    requires
        m.mem.len() == 0x10000,
        m.mem[m.cpu.pc as int] == 0x68,
        plain(m, m.cpu.pc),
    ensures
        execute(m).cpu.sp == m.cpu.sp.wrapping_add(1),
        execute(m).cpu.acc == m.mem[stack_addr(m.cpu.sp.wrapping_add(1)) as int],
        execute(m).cpu.flags == nz_flags(m.cpu.flags, m.mem[stack_addr(m.cpu.sp.wrapping_add(1)) as int]),
{
    lemma_opcodes_pha_pla();
    let mb = with_cpu(m, Processor { inst: 0x68, ..m.cpu });
    lemma_fetch(m);
    assert(dispatch(mb) == op_pull(mb, Register::A)) by {
        reveal(dispatch);
    }
    lemma_pull(mb, Register::A);
}

/// `PHA` and a later `PLA` give back the accumulator, with Zero and
/// Negative set from it, and leave the stack pointer where it was before
/// the push. `m` is the machine at the `PHA`; `m1` is the machine at the
/// `PLA`, after any instructions in between that leave the stack pointer
/// and the pushed slot as the push left them (`m1` may be the machine right
/// after the push).
pub proof fn lemma_pha_pla(m: Machine, m1: Machine)
    requires
        m.mem.len() == 0x10000,
        m.mem[m.cpu.pc as int] == 0x48,
        plain(m, m.cpu.pc),
        m1.mem.len() == 0x10000,
        m1.mem[m1.cpu.pc as int] == 0x68,
        plain(m1, m1.cpu.pc),
        m1.cpu.sp == execute(m).cpu.sp,
        m1.mem[stack_addr(m.cpu.sp) as int] == execute(m).mem[stack_addr(m.cpu.sp) as int],
    ensures
        execute(m1).cpu.acc == m.cpu.acc,
        execute(m1).cpu.sp == m.cpu.sp,
        execute(m1).cpu.flags == nz_flags(m1.cpu.flags, m.cpu.acc),
{
    lemma_run_pha(m);
    assert(m.cpu.sp.wrapping_sub(1).wrapping_add(1) == m.cpu.sp);
    lemma_run_pla(m1);
}

/// Splitting a word into its two bytes and joining them gives it back.
pub proof fn lemma_word_split(x: u16)
    ensures
        word((x & 0xFF) as u8, (x >> 8u16) as u8) == x,
{
    assert(((((x & 0xFF) as u8) as u16) | ((((x >> 8u16) as u8) as u16) << 8u16)) == x) by (bit_vector);
}

proof fn lemma_opcodes_brk_rti()
    ensures
        mnemonic_of(0x00) == Mnemonic::Brk,
        mnemonic_of(0x40) == Mnemonic::Rti,
{
    reveal(mnemonic_of);
    assert(0x00u8 & 0x0Fu8 == 0x00u8) by (bit_vector);
    assert(0x40u8 & 0x0Fu8 == 0x00u8) by (bit_vector);
}

/// `BRK` from plain memory: the return address and the flags go on the
/// stack, interrupts are disabled, and execution goes through the break
/// vector.
proof fn lemma_run_brk(m: Machine)
    requires
        m.mem.len() == 0x10000,
        m.mem[m.cpu.pc as int] == 0x00,
        plain(m, m.cpu.pc),
    ensures
        ({
            let ret = m.cpu.pc.wrapping_add(2);
            let sp = m.cpu.sp;
            let m1 = execute(m);
            &&& m1.cpu.sp == sp.wrapping_sub(3)
            &&& m1.cpu.flags == m.cpu.flags | FLAG_I
            &&& m1.cpu.pc == word(m.mem[BREAK_VECTOR as int], m.mem[0xFFFF])
            &&& m1.mem == m.mem.update(stack_addr(sp) as int, (ret >> 8u16) as u8)
                .update(stack_addr(sp.wrapping_sub(1)) as int, (ret & 0xFF) as u8)
                .update(stack_addr(sp.wrapping_sub(2)) as int, m.cpu.flags | FLAGS_FIXED)
            &&& m1.cf == m.cf
        }),
{
    lemma_opcodes_brk_rti();
    let ma = with_cpu(m, Processor { inst: 0x00, ..m.cpu });
    lemma_fetch(m);
    assert(dispatch(ma) == op_brk(ma)) by {
        reveal(dispatch);
    }
    let sp = m.cpu.sp;
    assert(plain(ma, stack_addr(sp)));
    assert(plain(ma, stack_addr(sp.wrapping_sub(1))));
    assert(plain(ma, stack_addr(sp.wrapping_sub(2))));
    assert(plain(ma, BREAK_VECTOR));
    assert(plain(ma, 0xFFFF));
}

/// `RTI` from plain memory: flags, then the return address, come off the
/// stack.
proof fn lemma_run_rti(m: Machine)
    requires
        m.mem.len() == 0x10000,
        m.mem[m.cpu.pc as int] == 0x40,
        plain(m, m.cpu.pc),
    ensures
        ({
            let sp = m.cpu.sp;
            let m1 = execute(m);
            &&& m1.cpu.sp == sp.wrapping_add(3)
            &&& m1.cpu.flags == m.mem[stack_addr(sp.wrapping_add(1)) as int]
            &&& m1.cpu.pc == word(
                m.mem[stack_addr(sp.wrapping_add(2)) as int],
                m.mem[stack_addr(sp.wrapping_add(3)) as int],
            )
        }),
{
    lemma_opcodes_brk_rti();
    let ma = with_cpu(m, Processor { inst: 0x40, ..m.cpu });
    lemma_fetch(m);
    assert(dispatch(ma) == op_rti(ma)) by {
        reveal(dispatch);
    }
    let sp = m.cpu.sp;
    assert(plain(ma, stack_addr(sp.wrapping_add(1))));
    assert(plain(ma, stack_addr(sp.wrapping_add(2))));
    assert(plain(ma, stack_addr(sp.wrapping_add(3))));
}

/// `BRK` enters the handler at the break vector with interrupts disabled,
/// and a later `RTI` comes back to the address after the break with the
/// flags the break found (with their two fixed bits set, as pushed) and the
/// stack pointer where it was. `m` is the machine at the `BRK`; `m1` is the
/// machine at the `RTI`, after any handler code that leaves the stack
/// pointer and the three pushed slots as the break left them.
pub proof fn lemma_brk_rti(m: Machine, m1: Machine)
    requires
        m.mem.len() == 0x10000,
        m.mem[m.cpu.pc as int] == 0x00,
        plain(m, m.cpu.pc),
        m1.mem.len() == 0x10000,
        m1.mem[m1.cpu.pc as int] == 0x40,
        plain(m1, m1.cpu.pc),
        m1.cpu.sp == execute(m).cpu.sp,
        m1.mem[stack_addr(m.cpu.sp) as int] == execute(m).mem[stack_addr(m.cpu.sp) as int],
        m1.mem[stack_addr(m.cpu.sp.wrapping_sub(1)) as int]
            == execute(m).mem[stack_addr(m.cpu.sp.wrapping_sub(1)) as int],
        m1.mem[stack_addr(m.cpu.sp.wrapping_sub(2)) as int]
            == execute(m).mem[stack_addr(m.cpu.sp.wrapping_sub(2)) as int],
    ensures
        execute(m).cpu.pc == word(m.mem[BREAK_VECTOR as int], m.mem[0xFFFF]),
        execute(m).cpu.flags == m.cpu.flags | FLAG_I,
        execute(m1).cpu.flags == m.cpu.flags | FLAGS_FIXED,
        execute(m1).cpu.pc == m.cpu.pc.wrapping_add(2),
        execute(m1).cpu.sp == m.cpu.sp,
{
    let sp = m.cpu.sp;
    let ret = m.cpu.pc.wrapping_add(2);
    lemma_run_brk(m);
    assert(sp.wrapping_sub(3).wrapping_add(1) == sp.wrapping_sub(2));
    assert(sp.wrapping_sub(3).wrapping_add(2) == sp.wrapping_sub(1));
    assert(sp.wrapping_sub(3).wrapping_add(3) == sp);
    lemma_run_rti(m1);
    lemma_word_split(ret);
}

/// Zero-page indexed addressing never leaves the zero page: base plus index
/// wraps at 8 bits.
pub proof fn lemma_zero_page_index_wraps(m: Machine, mode: AdressingMode)
    requires
        mode == AdressingMode::ZeroPageX || mode == AdressingMode::ZeroPageY,
    ensures
        resolve(m, mode).1 < 256,
        resolve(m, mode).1 == (bus_read(m, m.cpu.pc.wrapping_add(1)).1 + (if mode
            == AdressingMode::ZeroPageX { m.cpu.rx } else { m.cpu.ry })) % 256,
{
}

/// A branch offset is a signed byte: `0xFE` goes back two, landing on the
/// branch itself.
pub proof fn lemma_branch_back_two(pc: u16)
    ensures
        branch_target(pc.wrapping_add(2), 0xFE) == pc,
{
}


proof fn lemma_opcodes_jsr_rts()
    ensures
        mnemonic_of(0x20) == Mnemonic::Jsr,
        mnemonic_of(0x60) == Mnemonic::Rts,
{
    reveal(mnemonic_of);
    assert(0x20u8 & 0x0Fu8 == 0x00u8) by (bit_vector);
    assert(0x60u8 & 0x0Fu8 == 0x00u8) by (bit_vector);
}

/// `JSR` from plain memory: execution goes to its operand, and the address
/// of its last byte goes on the stack, high byte first.
proof fn lemma_run_jsr(m: Machine)
    requires
        m.mem.len() == 0x10000,
        m.mem[m.cpu.pc as int] == 0x20,
        plain(m, m.cpu.pc),
        plain(m, m.cpu.pc.wrapping_add(1)),
        plain(m, m.cpu.pc.wrapping_add(2)),
    ensures
        ({
            let ret = m.cpu.pc.wrapping_add(2);
            let sp = m.cpu.sp;
            let m1 = execute(m);
            let mem1 = m.mem.update(stack_addr(sp) as int, (ret >> 8u16) as u8)
                .update(stack_addr(sp.wrapping_sub(1)) as int, (ret & 0xFF) as u8);
            &&& m1.cpu.sp == sp.wrapping_sub(2)
            &&& m1.cpu.pc == word(m.mem[m.cpu.pc.wrapping_add(1) as int], m.mem[ret as int])
            &&& m1.mem == mem1
            &&& m1.cf == m.cf
        }),
{
    lemma_opcodes_jsr_rts();
    let ma = with_cpu(m, Processor { inst: 0x20, ..m.cpu });
    lemma_fetch(m);
    assert(dispatch(ma) == op_jsr(ma)) by {
        reveal(dispatch);
    }
    let sp = m.cpu.sp;
    assert(plain(ma, stack_addr(sp)));
    assert(plain(ma, stack_addr(sp.wrapping_sub(1))));
}

/// `RTS` from plain memory: the return address comes off the stack, low
/// byte first, and execution resumes one past it.
proof fn lemma_run_rts(m: Machine)
    requires
        m.mem.len() == 0x10000,
        m.mem[m.cpu.pc as int] == 0x60,
        plain(m, m.cpu.pc),
    ensures
        ({
            let sp = m.cpu.sp;
            let m1 = execute(m);
            &&& m1.cpu.sp == sp.wrapping_add(2)
            &&& m1.cpu.pc == word(
                m.mem[stack_addr(sp.wrapping_add(1)) as int],
                m.mem[stack_addr(sp.wrapping_add(2)) as int],
            ).wrapping_add(1)
        }),
{
    lemma_opcodes_jsr_rts();
    let ma = with_cpu(m, Processor { inst: 0x60, ..m.cpu });
    lemma_fetch(m);
    assert(dispatch(ma) == op_rts(ma)) by {
        reveal(dispatch);
    }
    let sp = m.cpu.sp;
    assert(plain(ma, stack_addr(sp.wrapping_add(1))));
    assert(plain(ma, stack_addr(sp.wrapping_add(2))));
}

/// `JSR` jumps to its operand, and a later `RTS` comes back to the
/// instruction after the call with the stack pointer where it was. `m` is
/// the machine at the `JSR`; `m1` is the machine at the `RTS`, after any
/// subroutine code that leaves the stack pointer and the two pushed slots
/// as the call left them.
pub proof fn lemma_jsr_rts(m: Machine, m1: Machine)
    requires
        m.mem.len() == 0x10000,
        m.mem[m.cpu.pc as int] == 0x20,
        plain(m, m.cpu.pc),
        plain(m, m.cpu.pc.wrapping_add(1)),
        plain(m, m.cpu.pc.wrapping_add(2)),
        m1.mem.len() == 0x10000,
        m1.mem[m1.cpu.pc as int] == 0x60,
        plain(m1, m1.cpu.pc),
        m1.cpu.sp == execute(m).cpu.sp,
        m1.mem[stack_addr(m.cpu.sp) as int] == execute(m).mem[stack_addr(m.cpu.sp) as int],
        m1.mem[stack_addr(m.cpu.sp.wrapping_sub(1)) as int]
            == execute(m).mem[stack_addr(m.cpu.sp.wrapping_sub(1)) as int],
    ensures
        execute(m).cpu.pc == word(m.mem[m.cpu.pc.wrapping_add(1) as int], m.mem[m.cpu.pc.wrapping_add(2) as int]),
        execute(m1).cpu.pc == m.cpu.pc.wrapping_add(3),
        execute(m1).cpu.sp == m.cpu.sp,
{
    let sp = m.cpu.sp;
    let ret = m.cpu.pc.wrapping_add(2);
    lemma_run_jsr(m);
    assert(sp.wrapping_sub(2).wrapping_add(1) == sp.wrapping_sub(1));
    assert(sp.wrapping_sub(2).wrapping_add(2) == sp);
    lemma_run_rts(m1);
    lemma_word_split(ret);
}

} // verus!
