use vstd::prelude::*;

verus! {

/// The rule by which an instruction's operand address is computed.
#[derive(PartialEq, Eq, Structural, Clone, Copy, Debug, Hash)]
pub enum AdressingMode {
    Immediate,
    ZeroPage,
    ZeroPageX,
    Absolute,
    AbsoluteX,
    AbsoluteY,
    IndirectX,
    IndirectY,
    Indirect,
    ZeroPageY,
    Accumulator,
    ZeroPageIndirect,
    Implied,
}

/// The instruction an opcode stands for.
#[derive(PartialEq, Eq, Structural, Clone, Copy, Debug, Hash)]
pub enum Mnemonic {
    Adc, And, Asl, Bbr(u8), Bbs(u8), Bcc, Bcs, Beq, Bit, Bmi, Bne, Bpl, Bra, Brk, Bvc, Bvs,
    Clc, Cld, Cli, Clv, Cmp, Cpx, Cpy, Dec, Dex, Dey, Eor, Inc, Inx, Iny, Jmp, Jsr,
    Lda, Ldx, Ldy, Lsr, Nop, Nop2, Nop3, Ora, Pha, Php, Phx, Phy, Pla, Plp, Plx, Ply,
    Rol, Ror, Rti, Rts, Sbc, Sec, Sed, Sei, Sta, Stx, Sty, Stz, Tax, Tay, Trb, Tsb,
    Tsx, Txa, Txs, Tya,
    /// An opcode that no instruction is assigned to.
    Unknown,
}

/// The opcodes whose mnemonic does not follow the `(cc, aaa)` table.
pub open spec fn mnemonic_exception(op: u8) -> Option<Mnemonic> {
    if op & 0x0F == 0x0F {
        if op < 0x80 { Some(Mnemonic::Bbr(op >> 4)) } else { Some(Mnemonic::Bbs((op >> 4) & 7)) }
    } else {
        match op {
            0x02 | 0x22 | 0x42 | 0x62 | 0x82 | 0xC2 | 0xE2 | 0x44 | 0x54 | 0xD4 | 0xF4 => Some(Mnemonic::Nop2),
            0x5C | 0xDC | 0xFC => Some(Mnemonic::Nop3),
            0x04 | 0x0C => Some(Mnemonic::Tsb),
            0x14 | 0x1C => Some(Mnemonic::Trb),
            0x12 => Some(Mnemonic::Ora),
            0x32 => Some(Mnemonic::And),
            0x52 => Some(Mnemonic::Eor),
            0x72 => Some(Mnemonic::Adc),
            0x92 => Some(Mnemonic::Sta),
            0xB2 => Some(Mnemonic::Lda),
            0xD2 => Some(Mnemonic::Cmp),
            0xF2 => Some(Mnemonic::Sbc),
            0x10 => Some(Mnemonic::Bpl),
            0x30 => Some(Mnemonic::Bmi),
            0x50 => Some(Mnemonic::Bvc),
            0x70 => Some(Mnemonic::Bvs),
            0x90 => Some(Mnemonic::Bcc),
            0xB0 => Some(Mnemonic::Bcs),
            0xD0 => Some(Mnemonic::Bne),
            0xF0 => Some(Mnemonic::Beq),
            0x7C => Some(Mnemonic::Jmp),
            0x5A => Some(Mnemonic::Phy),
            0x1A => Some(Mnemonic::Inc),
            0x3A => Some(Mnemonic::Dec),
            0x7A => Some(Mnemonic::Ply),
            0xDA => Some(Mnemonic::Phx),
            0xFA => Some(Mnemonic::Plx),
            0x80 => Some(Mnemonic::Bra),
            0x00 => Some(Mnemonic::Brk),
            0x20 => Some(Mnemonic::Jsr),
            0x40 => Some(Mnemonic::Rti),
            0x60 => Some(Mnemonic::Rts),
            0x08 => Some(Mnemonic::Php),
            0x28 => Some(Mnemonic::Plp),
            0x48 => Some(Mnemonic::Pha),
            0x68 => Some(Mnemonic::Pla),
            0x88 => Some(Mnemonic::Dey),
            0xA8 => Some(Mnemonic::Tay),
            0xC8 => Some(Mnemonic::Iny),
            0xE8 => Some(Mnemonic::Inx),
            0x18 => Some(Mnemonic::Clc),
            0x38 => Some(Mnemonic::Sec),
            0x58 => Some(Mnemonic::Cli),
            0x78 => Some(Mnemonic::Sei),
            0x98 => Some(Mnemonic::Tya),
            0xB8 => Some(Mnemonic::Clv),
            0xD8 => Some(Mnemonic::Cld),
            0xF8 => Some(Mnemonic::Sed),
            0x8A => Some(Mnemonic::Txa),
            0x9A => Some(Mnemonic::Txs),
            0xAA => Some(Mnemonic::Tax),
            0xBA => Some(Mnemonic::Tsx),
            0xCA => Some(Mnemonic::Dex),
            0xEA => Some(Mnemonic::Nop),
            0x64 | 0x9C | 0x74 | 0x9E => Some(Mnemonic::Stz),
            0x89 => Some(Mnemonic::Bit),
            _ => None,
        }
    }
}

/// The regular part of the mnemonic table, indexed by the low two bits `cc`
/// and the top three bits `aaa` of the opcode.
pub open spec fn mnemonic_group(cc: u8, aaa: u8) -> Mnemonic {
    if cc == 0 {
        match aaa {
            1 => Mnemonic::Bit,
            2 | 3 => Mnemonic::Jmp,
            4 => Mnemonic::Sty,
            5 => Mnemonic::Ldy,
            6 => Mnemonic::Cpy,
            7 => Mnemonic::Cpx,
            _ => Mnemonic::Unknown,
        }
    } else if cc == 1 {
        match aaa {
            0 => Mnemonic::Ora,
            1 => Mnemonic::And,
            2 => Mnemonic::Eor,
            3 => Mnemonic::Adc,
            4 => Mnemonic::Sta,
            5 => Mnemonic::Lda,
            6 => Mnemonic::Cmp,
            _ => Mnemonic::Sbc,
        }
    } else if cc == 2 {
        match aaa {
            0 => Mnemonic::Asl,
            1 => Mnemonic::Rol,
            2 => Mnemonic::Lsr,
            3 => Mnemonic::Ror,
            4 => Mnemonic::Stx,
            5 => Mnemonic::Ldx,
            6 => Mnemonic::Dec,
            _ => Mnemonic::Inc,
        }
    } else {
        Mnemonic::Unknown
    }
}

/// The mnemonic of an opcode: an exception when there is one, the table otherwise.
#[verifier::opaque]
pub open spec fn mnemonic_of(op: u8) -> Mnemonic {
    match mnemonic_exception(op) {
        Some(m) => m,
        None => mnemonic_group(op & 3, (op >> 5) & 7),
    }
}

/// The opcodes whose addressing mode does not follow the `(cc, bbb)` table.
pub open spec fn mode_exception(op: u8) -> Option<AdressingMode> {
    match op {
        0x6C => Some(AdressingMode::Indirect),
        0x4C | 0x9C | 0x1C | 0x0C => Some(AdressingMode::Absolute),
        0x7C => Some(AdressingMode::IndirectX),
        0x89 => Some(AdressingMode::Immediate),
        0x1A | 0x3A => Some(AdressingMode::Accumulator),
        0x64 | 0x14 | 0x04 => Some(AdressingMode::ZeroPage),
        0x74 => Some(AdressingMode::ZeroPageX),
        0x12 | 0x32 | 0x52 | 0x72 | 0x92 | 0xB2 | 0xD2 | 0xF2 => Some(AdressingMode::ZeroPageIndirect),
        0x9E => Some(AdressingMode::AbsoluteX),
        _ => None,
    }
}

/// The regular part of the addressing-mode table, indexed by `cc` and the
/// middle three bits `bbb`; the indexed forms of `LDX` and `STX` use Y.
pub open spec fn mode_group(cc: u8, bbb: u8, m: Mnemonic) -> AdressingMode {
    if cc == 0 {
        match bbb {
            0 => AdressingMode::Immediate,
            1 => AdressingMode::ZeroPage,
            3 => AdressingMode::Absolute,
            5 => AdressingMode::ZeroPageX,
            7 => AdressingMode::AbsoluteX,
            _ => AdressingMode::Implied,
        }
    } else if cc == 1 {
        match bbb {
            0 => AdressingMode::IndirectX,
            1 => AdressingMode::ZeroPage,
            2 => AdressingMode::Immediate,
            3 => AdressingMode::Absolute,
            4 => AdressingMode::IndirectY,
            5 => AdressingMode::ZeroPageX,
            6 => AdressingMode::AbsoluteY,
            _ => AdressingMode::AbsoluteX,
        }
    } else if cc == 2 {
        match bbb {
            0 => AdressingMode::Immediate,
            1 => AdressingMode::ZeroPage,
            2 => AdressingMode::Accumulator,
            3 => AdressingMode::Absolute,
            5 => if m == Mnemonic::Stx || m == Mnemonic::Ldx {
                AdressingMode::ZeroPageY
            } else {
                AdressingMode::ZeroPageX
            },
            7 => if m == Mnemonic::Ldx {
                AdressingMode::AbsoluteY
            } else {
                AdressingMode::AbsoluteX
            },
            _ => AdressingMode::Implied,
        }
    } else {
        AdressingMode::Implied
    }
}

/// The addressing mode of an opcode.
#[verifier::opaque]
pub open spec fn mode_of(op: u8) -> AdressingMode {
    match mode_exception(op) {
        Some(a) => a,
        None => mode_group(op & 3, (op >> 2) & 7, mnemonic_of(op)),
    }
}

/// The number of operand bytes an addressing mode takes, plus the opcode.
pub open spec fn mode_length(a: AdressingMode) -> u16 {
    match a {
        AdressingMode::Absolute | AdressingMode::AbsoluteX | AdressingMode::AbsoluteY
        | AdressingMode::Indirect => 3,
        AdressingMode::Accumulator | AdressingMode::Implied => 1,
        _ => 2,
    }
}

/// The encoded length in bytes of an instruction: three for `JSR`, `JMP`,
/// the bit branches and `NOP3`; one for `RTS` and `RTI`; two for the
/// relative branches, `BRK` and `NOP2`; otherwise what the addressing mode
/// takes.
pub open spec fn length_of(m: Mnemonic, a: AdressingMode) -> u16 {
    match m {
        Mnemonic::Jsr | Mnemonic::Jmp | Mnemonic::Bbr(_) | Mnemonic::Bbs(_) | Mnemonic::Nop3 => 3,
        Mnemonic::Rts | Mnemonic::Rti => 1,
        Mnemonic::Brk | Mnemonic::Nop2 | Mnemonic::Bcc | Mnemonic::Bcs | Mnemonic::Beq
        | Mnemonic::Bmi | Mnemonic::Bne | Mnemonic::Bpl | Mnemonic::Bra | Mnemonic::Bvc
        | Mnemonic::Bvs => 2,
        _ => mode_length(a),
    }
}

/// The printed name of a mnemonic; an unassigned opcode is named `NOP`,
/// as it runs as a one-byte no-operation.
pub open spec fn name_of(m: Mnemonic) -> Seq<char> {
    match m {
        Mnemonic::Adc => "ADC"@, Mnemonic::And => "AND"@, Mnemonic::Asl => "ASL"@,
        Mnemonic::Bbr(n) => match n {
            0 => "BBR0"@, 1 => "BBR1"@, 2 => "BBR2"@, 3 => "BBR3"@,
            4 => "BBR4"@, 5 => "BBR5"@, 6 => "BBR6"@, _ => "BBR7"@,
        },
        Mnemonic::Bbs(n) => match n {
            0 => "BBS0"@, 1 => "BBS1"@, 2 => "BBS2"@, 3 => "BBS3"@,
            4 => "BBS4"@, 5 => "BBS5"@, 6 => "BBS6"@, _ => "BBS7"@,
        },
        Mnemonic::Bcc => "BCC"@, Mnemonic::Bcs => "BCS"@, Mnemonic::Beq => "BEQ"@,
        Mnemonic::Bit => "BIT"@, Mnemonic::Bmi => "BMI"@, Mnemonic::Bne => "BNE"@,
        Mnemonic::Bpl => "BPL"@, Mnemonic::Bra => "BRA"@, Mnemonic::Brk => "BRK"@,
        Mnemonic::Bvc => "BVC"@, Mnemonic::Bvs => "BVS"@, Mnemonic::Clc => "CLC"@,
        Mnemonic::Cld => "CLD"@, Mnemonic::Cli => "CLI"@, Mnemonic::Clv => "CLV"@,
        Mnemonic::Cmp => "CMP"@, Mnemonic::Cpx => "CPX"@, Mnemonic::Cpy => "CPY"@,
        Mnemonic::Dec => "DEC"@, Mnemonic::Dex => "DEX"@, Mnemonic::Dey => "DEY"@,
        Mnemonic::Eor => "EOR"@, Mnemonic::Inc => "INC"@, Mnemonic::Inx => "INX"@,
        Mnemonic::Iny => "INY"@, Mnemonic::Jmp => "JMP"@, Mnemonic::Jsr => "JSR"@,
        Mnemonic::Lda => "LDA"@, Mnemonic::Ldx => "LDX"@, Mnemonic::Ldy => "LDY"@,
        Mnemonic::Lsr => "LSR"@, Mnemonic::Nop => "NOP"@, Mnemonic::Nop2 => "NOP2"@,
        Mnemonic::Nop3 => "NOP3"@, Mnemonic::Ora => "ORA"@, Mnemonic::Pha => "PHA"@,
        Mnemonic::Php => "PHP"@, Mnemonic::Phx => "PHX"@, Mnemonic::Phy => "PHY"@,
        Mnemonic::Pla => "PLA"@, Mnemonic::Plp => "PLP"@, Mnemonic::Plx => "PLX"@,
        Mnemonic::Ply => "PLY"@, Mnemonic::Rol => "ROL"@, Mnemonic::Ror => "ROR"@,
        Mnemonic::Rti => "RTI"@, Mnemonic::Rts => "RTS"@, Mnemonic::Sbc => "SBC"@,
        Mnemonic::Sec => "SEC"@, Mnemonic::Sed => "SED"@, Mnemonic::Sei => "SEI"@,
        Mnemonic::Sta => "STA"@, Mnemonic::Stx => "STX"@, Mnemonic::Sty => "STY"@,
        Mnemonic::Stz => "STZ"@, Mnemonic::Tax => "TAX"@, Mnemonic::Tay => "TAY"@,
        Mnemonic::Trb => "TRB"@, Mnemonic::Tsb => "TSB"@, Mnemonic::Tsx => "TSX"@,
        Mnemonic::Txa => "TXA"@, Mnemonic::Txs => "TXS"@, Mnemonic::Tya => "TYA"@,
        Mnemonic::Unknown => "NOP"@,
    }
}

/// Looks an opcode up in the exception list.
fn exception_mnemonic(op: u8) -> (r: Option<Mnemonic>)
    ensures
        r == mnemonic_exception(op),
{
    if op & 0x0F == 0x0F {
        if op < 0x80 { Some(Mnemonic::Bbr(op >> 4)) } else { Some(Mnemonic::Bbs((op >> 4) & 7)) }
    } else {
        match op {
            0x02 | 0x22 | 0x42 | 0x62 | 0x82 | 0xC2 | 0xE2 | 0x44 | 0x54 | 0xD4 | 0xF4 => Some(Mnemonic::Nop2),
            0x5C | 0xDC | 0xFC => Some(Mnemonic::Nop3),
            0x04 | 0x0C => Some(Mnemonic::Tsb),
            0x14 | 0x1C => Some(Mnemonic::Trb),
            0x12 => Some(Mnemonic::Ora),
            0x32 => Some(Mnemonic::And),
            0x52 => Some(Mnemonic::Eor),
            0x72 => Some(Mnemonic::Adc),
            0x92 => Some(Mnemonic::Sta),
            0xB2 => Some(Mnemonic::Lda),
            0xD2 => Some(Mnemonic::Cmp),
            0xF2 => Some(Mnemonic::Sbc),
            0x10 => Some(Mnemonic::Bpl),
            0x30 => Some(Mnemonic::Bmi),
            0x50 => Some(Mnemonic::Bvc),
            0x70 => Some(Mnemonic::Bvs),
            0x90 => Some(Mnemonic::Bcc),
            0xB0 => Some(Mnemonic::Bcs),
            0xD0 => Some(Mnemonic::Bne),
            0xF0 => Some(Mnemonic::Beq),
            0x7C => Some(Mnemonic::Jmp),
            0x5A => Some(Mnemonic::Phy),
            0x1A => Some(Mnemonic::Inc),
            0x3A => Some(Mnemonic::Dec),
            0x7A => Some(Mnemonic::Ply),
            0xDA => Some(Mnemonic::Phx),
            0xFA => Some(Mnemonic::Plx),
            0x80 => Some(Mnemonic::Bra),
            0x00 => Some(Mnemonic::Brk),
            0x20 => Some(Mnemonic::Jsr),
            0x40 => Some(Mnemonic::Rti),
            0x60 => Some(Mnemonic::Rts),
            0x08 => Some(Mnemonic::Php),
            0x28 => Some(Mnemonic::Plp),
            0x48 => Some(Mnemonic::Pha),
            0x68 => Some(Mnemonic::Pla),
            0x88 => Some(Mnemonic::Dey),
            0xA8 => Some(Mnemonic::Tay),
            0xC8 => Some(Mnemonic::Iny),
            0xE8 => Some(Mnemonic::Inx),
            0x18 => Some(Mnemonic::Clc),
            0x38 => Some(Mnemonic::Sec),
            0x58 => Some(Mnemonic::Cli),
            0x78 => Some(Mnemonic::Sei),
            0x98 => Some(Mnemonic::Tya),
            0xB8 => Some(Mnemonic::Clv),
            0xD8 => Some(Mnemonic::Cld),
            0xF8 => Some(Mnemonic::Sed),
            0x8A => Some(Mnemonic::Txa),
            0x9A => Some(Mnemonic::Txs),
            0xAA => Some(Mnemonic::Tax),
            0xBA => Some(Mnemonic::Tsx),
            0xCA => Some(Mnemonic::Dex),
            0xEA => Some(Mnemonic::Nop),
            0x64 | 0x9C | 0x74 | 0x9E => Some(Mnemonic::Stz),
            0x89 => Some(Mnemonic::Bit),
            _ => None,
        }
    }
}

/// Looks an opcode's `(cc, aaa)` group up in the mnemonic table.
fn group_mnemonic(cc: u8, aaa: u8) -> (r: Mnemonic)
    ensures
        r == mnemonic_group(cc, aaa),
{
    if cc == 0 {
        match aaa {
            1 => Mnemonic::Bit,
            2 | 3 => Mnemonic::Jmp,
            4 => Mnemonic::Sty,
            5 => Mnemonic::Ldy,
            6 => Mnemonic::Cpy,
            7 => Mnemonic::Cpx,
            _ => Mnemonic::Unknown,
        }
    } else if cc == 1 {
        match aaa {
            0 => Mnemonic::Ora,
            1 => Mnemonic::And,
            2 => Mnemonic::Eor,
            3 => Mnemonic::Adc,
            4 => Mnemonic::Sta,
            5 => Mnemonic::Lda,
            6 => Mnemonic::Cmp,
            _ => Mnemonic::Sbc,
        }
    } else if cc == 2 {
        match aaa {
            0 => Mnemonic::Asl,
            1 => Mnemonic::Rol,
            2 => Mnemonic::Lsr,
            3 => Mnemonic::Ror,
            4 => Mnemonic::Stx,
            5 => Mnemonic::Ldx,
            6 => Mnemonic::Dec,
            _ => Mnemonic::Inc,
        }
    } else {
        Mnemonic::Unknown
    }
}

/// Looks an opcode up in the addressing-mode exception list.
fn exception_mode(op: u8) -> (r: Option<AdressingMode>)
    ensures
        r == mode_exception(op),
{
    match op {
        0x6C => Some(AdressingMode::Indirect),
        0x4C | 0x9C | 0x1C | 0x0C => Some(AdressingMode::Absolute),
        0x7C => Some(AdressingMode::IndirectX),
        0x89 => Some(AdressingMode::Immediate),
        0x1A | 0x3A => Some(AdressingMode::Accumulator),
        0x64 | 0x14 | 0x04 => Some(AdressingMode::ZeroPage),
        0x74 => Some(AdressingMode::ZeroPageX),
        0x12 | 0x32 | 0x52 | 0x72 | 0x92 | 0xB2 | 0xD2 | 0xF2 => Some(AdressingMode::ZeroPageIndirect),
        0x9E => Some(AdressingMode::AbsoluteX),
        _ => None,
    }
}

/// Looks an opcode's `(cc, bbb)` group up in the addressing-mode table.
fn group_mode(cc: u8, bbb: u8, m: Mnemonic) -> (r: AdressingMode)
    ensures
        r == mode_group(cc, bbb, m),
{
    if cc == 0 {
        match bbb {
            0 => AdressingMode::Immediate,
            1 => AdressingMode::ZeroPage,
            3 => AdressingMode::Absolute,
            5 => AdressingMode::ZeroPageX,
            7 => AdressingMode::AbsoluteX,
            _ => AdressingMode::Implied,
        }
    } else if cc == 1 {
        match bbb {
            0 => AdressingMode::IndirectX,
            1 => AdressingMode::ZeroPage,
            2 => AdressingMode::Immediate,
            3 => AdressingMode::Absolute,
            4 => AdressingMode::IndirectY,
            5 => AdressingMode::ZeroPageX,
            6 => AdressingMode::AbsoluteY,
            _ => AdressingMode::AbsoluteX,
        }
    } else if cc == 2 {
        match bbb {
            0 => AdressingMode::Immediate,
            1 => AdressingMode::ZeroPage,
            2 => AdressingMode::Accumulator,
            3 => AdressingMode::Absolute,
            5 => if m == Mnemonic::Stx || m == Mnemonic::Ldx {
                AdressingMode::ZeroPageY
            } else {
                AdressingMode::ZeroPageX
            },
            7 => if m == Mnemonic::Ldx {
                AdressingMode::AbsoluteY
            } else {
                AdressingMode::AbsoluteX
            },
            _ => AdressingMode::Implied,
        }
    } else {
        AdressingMode::Implied
    }
}

/// The printed name of a mnemonic.
pub fn mnemonic_name(m: Mnemonic) -> (r: &'static str)
    ensures
        r@ == name_of(m),
{
    match m {
        Mnemonic::Adc => "ADC", Mnemonic::And => "AND", Mnemonic::Asl => "ASL",
        Mnemonic::Bbr(n) => match n {
            0 => "BBR0", 1 => "BBR1", 2 => "BBR2", 3 => "BBR3",
            4 => "BBR4", 5 => "BBR5", 6 => "BBR6", _ => "BBR7",
        },
        Mnemonic::Bbs(n) => match n {
            0 => "BBS0", 1 => "BBS1", 2 => "BBS2", 3 => "BBS3",
            4 => "BBS4", 5 => "BBS5", 6 => "BBS6", _ => "BBS7",
        },
        Mnemonic::Bcc => "BCC", Mnemonic::Bcs => "BCS", Mnemonic::Beq => "BEQ",
        Mnemonic::Bit => "BIT", Mnemonic::Bmi => "BMI", Mnemonic::Bne => "BNE",
        Mnemonic::Bpl => "BPL", Mnemonic::Bra => "BRA", Mnemonic::Brk => "BRK",
        Mnemonic::Bvc => "BVC", Mnemonic::Bvs => "BVS", Mnemonic::Clc => "CLC",
        Mnemonic::Cld => "CLD", Mnemonic::Cli => "CLI", Mnemonic::Clv => "CLV",
        Mnemonic::Cmp => "CMP", Mnemonic::Cpx => "CPX", Mnemonic::Cpy => "CPY",
        Mnemonic::Dec => "DEC", Mnemonic::Dex => "DEX", Mnemonic::Dey => "DEY",
        Mnemonic::Eor => "EOR", Mnemonic::Inc => "INC", Mnemonic::Inx => "INX",
        Mnemonic::Iny => "INY", Mnemonic::Jmp => "JMP", Mnemonic::Jsr => "JSR",
        Mnemonic::Lda => "LDA", Mnemonic::Ldx => "LDX", Mnemonic::Ldy => "LDY",
        Mnemonic::Lsr => "LSR", Mnemonic::Nop => "NOP", Mnemonic::Nop2 => "NOP2",
        Mnemonic::Nop3 => "NOP3", Mnemonic::Ora => "ORA", Mnemonic::Pha => "PHA",
        Mnemonic::Php => "PHP", Mnemonic::Phx => "PHX", Mnemonic::Phy => "PHY",
        Mnemonic::Pla => "PLA", Mnemonic::Plp => "PLP", Mnemonic::Plx => "PLX",
        Mnemonic::Ply => "PLY", Mnemonic::Rol => "ROL", Mnemonic::Ror => "ROR",
        Mnemonic::Rti => "RTI", Mnemonic::Rts => "RTS", Mnemonic::Sbc => "SBC",
        Mnemonic::Sec => "SEC", Mnemonic::Sed => "SED", Mnemonic::Sei => "SEI",
        Mnemonic::Sta => "STA", Mnemonic::Stx => "STX", Mnemonic::Sty => "STY",
        Mnemonic::Stz => "STZ", Mnemonic::Tax => "TAX", Mnemonic::Tay => "TAY",
        Mnemonic::Trb => "TRB", Mnemonic::Tsb => "TSB", Mnemonic::Tsx => "TSX",
        Mnemonic::Txa => "TXA", Mnemonic::Txs => "TXS", Mnemonic::Tya => "TYA",
        Mnemonic::Unknown => "NOP",
    }
}

/// Decodes the instruction an opcode stands for.
pub fn decode_mnemonic(op: u8) -> (m: Mnemonic)
    ensures
        m == mnemonic_of(op),
{
    proof {
        reveal(mnemonic_of);
    }
    match exception_mnemonic(op) {
        Some(m) => m,
        None => group_mnemonic(op & 3, (op >> 5) & 7),
    }
}

/// The mnemonic of an opcode as text; an unassigned opcode gives `NOP`.
pub fn get_opcode_name(opcode: u8) -> (r: &'static str)
    ensures
        r@ == name_of(mnemonic_of(opcode)),
{
    mnemonic_name(decode_mnemonic(opcode))
}

/// The addressing mode of an opcode.
pub fn get_adressing_mode(opcode: u8) -> (r: AdressingMode)
    ensures
        r == mode_of(opcode),
{
    proof {
        reveal(mode_of);
    }
    match exception_mode(opcode) {
        Some(a) => a,
        None => group_mode(opcode & 3, (opcode >> 2) & 7, decode_mnemonic(opcode)),
    }
}

/// The encoded length in bytes of the instruction an opcode starts.
pub fn instruction_length(opcode: u8) -> (r: u16)
    ensures
        r == length_of(mnemonic_of(opcode), mode_of(opcode)),
        1 <= r <= 3,
{
    let m = decode_mnemonic(opcode);
    let a = get_adressing_mode(opcode);
    match m {
        Mnemonic::Jsr | Mnemonic::Jmp | Mnemonic::Bbr(_) | Mnemonic::Bbs(_) | Mnemonic::Nop3 => 3,
        Mnemonic::Rts | Mnemonic::Rti => 1,
        Mnemonic::Brk | Mnemonic::Nop2 | Mnemonic::Bcc | Mnemonic::Bcs | Mnemonic::Beq
        | Mnemonic::Bmi | Mnemonic::Bne | Mnemonic::Bpl | Mnemonic::Bra | Mnemonic::Bvc
        | Mnemonic::Bvs => 2,
        _ => match a {
            AdressingMode::Absolute | AdressingMode::AbsoluteX | AdressingMode::AbsoluteY
            | AdressingMode::Indirect => 3,
            AdressingMode::Accumulator | AdressingMode::Implied => 1,
            _ => 2,
        },
    }
}

/// Every opcode decodes to a mnemonic and an addressing mode whose
/// instruction length is one, two or three bytes.
pub proof fn lemma_decode_total(op: u8)
    ensures
        1 <= length_of(mnemonic_of(op), mode_of(op)) <= 3,
{
}

} // verus!
