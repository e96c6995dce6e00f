use plu::alu::{add_binary, add_decimal, asl_value, compare_values, lsr_value, rol_value, ror_value, sub_decimal};
use plu::computer::{Computer, ComputerMessage, ControllerMessage, Processor, FLAG_C, FLAG_D, FLAG_I, FLAG_N, FLAG_O, FLAG_Z};
use plu::decode::{get_adressing_mode, get_opcode_name, instruction_length, AdressingMode};

/// A full 64KB image with `program` at `origin` and the reset vector on it.
fn image(origin: u16, program: &[u8]) -> Vec<u8> {
    let mut mem = vec![0u8; 0x10000];
    for (i, b) in program.iter().enumerate() {
        mem[origin as usize + i] = *b;
    }
    mem[0xFFFC] = (origin & 0xFF) as u8;
    mem[0xFFFD] = (origin >> 8) as u8;
    mem
}

fn machine(origin: u16, program: &[u8]) -> Computer {
    let mut c = Computer::new(image(origin, program), vec![]);
    c.reset();
    c
}

fn run(c: &mut Computer, n: usize) {
    for _ in 0..n {
        c.run_instruction();
    }
}

fn outputs(c: &mut Computer) -> Vec<u8> {
    c.take_messages()
        .into_iter()
        .filter_map(|m| match m {
            ComputerMessage::Output(b) => Some(b),
            _ => None,
        })
        .collect()
}

#[test]
fn decode_every_opcode_has_length_one_to_three() {
    for op in 0..=255u8 {
        let _ = get_opcode_name(op);
        let _ = get_adressing_mode(op);
        let l = instruction_length(op);
        assert!((1..=3).contains(&l), "opcode {:#x} has length {}", op, l);
    }
}

#[test]
fn decode_table_and_exceptions() {
    assert_eq!(get_opcode_name(0x69), "ADC");
    assert_eq!(get_adressing_mode(0x69), AdressingMode::Immediate);
    assert_eq!(get_opcode_name(0xB6), "LDX");
    assert_eq!(get_adressing_mode(0xB6), AdressingMode::ZeroPageY);
    assert_eq!(get_adressing_mode(0xBE), AdressingMode::AbsoluteY);
    assert_eq!(get_adressing_mode(0x96), AdressingMode::ZeroPageY);
    assert_eq!(get_adressing_mode(0xB4), AdressingMode::ZeroPageX);
    assert_eq!(get_opcode_name(0x0F), "BBR0");
    assert_eq!(get_opcode_name(0xFF), "BBS7");
    assert_eq!(get_opcode_name(0x80), "BRA");
    assert_eq!(get_opcode_name(0x72), "ADC");
    assert_eq!(get_adressing_mode(0x72), AdressingMode::ZeroPageIndirect);
    assert_eq!(get_opcode_name(0x6C), "JMP");
    assert_eq!(get_adressing_mode(0x6C), AdressingMode::Indirect);
    assert_eq!(get_adressing_mode(0x7C), AdressingMode::IndirectX);
    assert_eq!(get_opcode_name(0x03), "NOP");
    assert_eq!(get_opcode_name(0xCB), "NOP");
    assert_eq!(get_adressing_mode(0x03), AdressingMode::Implied);
    assert_eq!(instruction_length(0x20), 3);
    assert_eq!(instruction_length(0x00), 2);
    assert_eq!(instruction_length(0xDC), 3);
    assert_eq!(instruction_length(0x0A), 1);
}

#[test]
fn sbc_then_adc_restores_accumulator_when_carries_differ() {
    for a in 0..=255u8 {
        for b in 0..=255u8 {
            for c in 0..2u8 {
                let flags = 0x30 | c;
                let (r, f) = add_binary(a, !b, flags);
                if (f & FLAG_C) != c {
                    let (back, _) = add_binary(r, b, f);
                    assert_eq!(back, a);
                }
            }
        }
    }
    // Carry in set, no borrow: the carry comes out set as well and the
    // round trip is one off.
    let (r, f) = add_binary(5, !3, 0x31);
    assert_eq!((r, f & FLAG_C), (2, FLAG_C));
    assert_eq!(add_binary(r, 3, f).0, 6);
}

#[test]
fn binary_add_flags() {
    assert_eq!(add_binary(0x50, 0x50, 0x30), (0xA0, 0x30 | FLAG_O | FLAG_N));
    assert_eq!(add_binary(0xFF, 0x01, 0x30), (0x00, 0x30 | FLAG_Z | FLAG_C));
    assert_eq!(add_binary(0x01, 0x01, 0x31), (0x03, 0x30));
}

#[test]
fn decimal_add_scenarios() {
    let (r, f) = add_decimal(0x79, 0x00, 0x30);
    assert_eq!(r, 0x79);
    assert_eq!(f & FLAG_C, 0);
    let (r, f) = add_decimal(0x99, 0x01, 0x30);
    assert_eq!(r, 0x00);
    assert_eq!(f & FLAG_C, FLAG_C);
    let (r, f) = add_decimal(0x19, 0x28, 0x30);
    assert_eq!(r, 0x47);
    assert_eq!(f & FLAG_C, 0);
}

#[test]
fn decimal_subtract() {
    let (r, f) = sub_decimal(0x50, 0x25, 0x31);
    assert_eq!(r, 0x25);
    assert_eq!(f & FLAG_C, FLAG_C);
    let (r, f) = sub_decimal(0x10, 0x20, 0x31);
    assert_eq!(r, 0x90);
    assert_eq!(f & FLAG_C, 0);
    let (r, _) = sub_decimal(0x00, 0x0F, 0x30);
    let _ = r;
}

#[test]
fn decimal_adc_through_the_machine() {
    // SED; LDA #$99; ADC #$01
    let mut c = machine(0x0400, &[0xF8, 0xA9, 0x99, 0x69, 0x01]);
    run(&mut c, 3);
    let p = c.processor();
    assert_eq!(p.acc, 0x00);
    assert_ne!(p.flags & FLAG_D, 0);
    assert_eq!(p.flags & FLAG_C, FLAG_C);
    assert_eq!(p.pc, 0x0405);
}

#[test]
fn compare_is_three_way() {
    assert_eq!(compare_values(5, 5, 0x30), 0x30 | FLAG_Z | FLAG_C);
    assert_eq!(compare_values(6, 5, 0x30 | FLAG_N), 0x30 | FLAG_C);
    assert_eq!(compare_values(4, 5, 0x30 | FLAG_Z), 0x30 | FLAG_N);
}

#[test]
fn shifts_and_rotates() {
    assert_eq!(asl_value(0x80, 0x30), (0x00, 0x30 | FLAG_C | FLAG_Z));
    assert_eq!(asl_value(0x41, 0x30), (0x82, 0x30 | FLAG_N));
    assert_eq!(lsr_value(0x01, 0x30), (0x00, 0x30 | FLAG_C | FLAG_Z));
    assert_eq!(rol_value(0x80, 0x31), (0x01, 0x30 | FLAG_C));
    assert_eq!(ror_value(0x01, 0x31), (0x80, 0x30 | FLAG_C | FLAG_N));
}

#[test]
fn zero_page_x_wraps_inside_zero_page() {
    // LDX #$02; LDA $FF,X
    let mut mem = image(0x0400, &[0xA2, 0x02, 0xB5, 0xFF]);
    mem[0x0001] = 0x42;
    mem[0x0101] = 0x99;
    let mut c = Computer::new(mem, vec![]);
    c.reset();
    run(&mut c, 2);
    assert_eq!(c.processor().acc, 0x42);
    assert_eq!(c.processor().pc, 0x0404);
}

#[test]
fn indirect_modes() {
    // LDY #$01; LDA ($10),Y; LDX #$02; LDA ($0E,X); LDA ($10)
    let mut mem = image(0x0400, &[0xA0, 0x01, 0xB1, 0x10, 0xA2, 0x02, 0xA1, 0x0E, 0xB2, 0x10]);
    mem[0x10] = 0x00;
    mem[0x11] = 0x30;
    mem[0x3000] = 0x11;
    mem[0x3001] = 0x22;
    let mut c = Computer::new(mem, vec![]);
    c.reset();
    run(&mut c, 2);
    assert_eq!(c.processor().acc, 0x22);
    run(&mut c, 2);
    assert_eq!(c.processor().acc, 0x11);
    run(&mut c, 1);
    assert_eq!(c.processor().acc, 0x11);
    assert_eq!(c.processor().pc, 0x040A);
}

#[test]
fn pha_pla_restores_accumulator_and_stack_pointer() {
    // LDA #$5A; PHA; LDA #$00; PLA
    let mut c = machine(0x0400, &[0xA9, 0x5A, 0x48, 0xA9, 0x00, 0x68]);
    run(&mut c, 1);
    let sp = c.processor().sp;
    run(&mut c, 3);
    assert_eq!(c.processor().acc, 0x5A);
    assert_eq!(c.processor().sp, sp);
    assert_eq!(c.processor().flags & FLAG_Z, 0);
}

#[test]
fn jsr_rts_resumes_after_call() {
    let mut mem = image(0x0800, &[0x20, 0x34, 0x12]);
    mem[0x1234] = 0x60;
    let mut c = Computer::new(mem, vec![]);
    c.reset();
    assert_eq!(c.processor().pc, 0x0800);
    let sp = c.processor().sp;
    run(&mut c, 1);
    assert_eq!(c.processor().pc, 0x1234);
    run(&mut c, 1);
    assert_eq!(c.processor().pc, 0x0803);
    assert_eq!(c.processor().sp, sp);
}

#[test]
fn brk_rti_preserves_flags_and_pc() {
    // SEC; SED; BRK; .byte 0; with an RTI handler at $2000
    let mut mem = image(0x0400, &[0x38, 0xF8, 0x00, 0x00]);
    mem[0xFFFE] = 0x00;
    mem[0xFFFF] = 0x20;
    mem[0x2000] = 0x40;
    let mut c = Computer::new(mem, vec![]);
    c.reset();
    run(&mut c, 2);
    let before = c.processor();
    run(&mut c, 1);
    assert_eq!(c.processor().pc, 0x2000);
    assert_ne!(c.processor().flags & FLAG_I, 0);
    run(&mut c, 1);
    let after = c.processor();
    assert_eq!(after.flags, before.flags);
    assert_eq!(after.pc, before.pc.wrapping_add(2));
    assert_eq!(after.sp, before.sp);
}

#[test]
fn branch_back_two_lands_on_itself() {
    // at $1000: BNE -2 with Zero clear
    let mut c = machine(0x1000, &[0xD0, 0xFE]);
    run(&mut c, 1);
    assert_eq!(c.processor().pc, 0x1000);
    // BEQ -2 with Zero clear falls through
    let mut c = machine(0x1000, &[0xF0, 0xFE]);
    run(&mut c, 1);
    assert_eq!(c.processor().pc, 0x1002);
}

#[test]
fn bit_branches() {
    // BBS0 $10,+2 ; BBR1 $10,-3 with $10 = 1
    let mut mem = image(0x0400, &[0x8F, 0x10, 0x02, 0x00, 0x00, 0x1F, 0x10, 0xFD]);
    mem[0x10] = 0x01;
    let mut c = Computer::new(mem, vec![]);
    c.reset();
    run(&mut c, 1);
    assert_eq!(c.processor().pc, 0x0405);
    run(&mut c, 1);
    assert_eq!(c.processor().pc, 0x0405);
}

#[test]
fn bit_takes_negative_and_overflow_from_operand() {
    // LDA #$01; BIT $10 with $10 = $C0
    let mut mem = image(0x0400, &[0xA9, 0x01, 0x24, 0x10]);
    mem[0x10] = 0xC0;
    let mut c = Computer::new(mem, vec![]);
    c.reset();
    run(&mut c, 2);
    let f = c.processor().flags;
    assert_ne!(f & FLAG_Z, 0);
    assert_ne!(f & FLAG_N, 0);
    assert_ne!(f & FLAG_O, 0);
}

#[test]
fn inc_accumulator_and_memory() {
    // INC A; INC $10; DEC $10; DEC $10
    let mut c = machine(0x0400, &[0x1A, 0xE6, 0x10, 0xC6, 0x10, 0xC6, 0x10]);
    run(&mut c, 2);
    assert_eq!(c.processor().acc, 1);
    assert_eq!(c.peek(0x10), 1);
    run(&mut c, 2);
    assert_eq!(c.peek(0x10), 0xFF);
    assert_ne!(c.processor().flags & FLAG_N, 0);
    assert_eq!(c.processor().pc, 0x0407);
}

#[test]
fn tsb_trb() {
    // LDA #$0F; TSB $10; TRB $11
    let mut mem = image(0x0400, &[0xA9, 0x0F, 0x04, 0x10, 0x14, 0x11]);
    mem[0x10] = 0xF0;
    mem[0x11] = 0xFF;
    let mut c = Computer::new(mem, vec![]);
    c.reset();
    run(&mut c, 2);
    assert_eq!(c.peek(0x10), 0xFF);
    assert_ne!(c.processor().flags & FLAG_Z, 0);
    run(&mut c, 1);
    assert_eq!(c.peek(0x11), 0xF0);
    assert_eq!(c.processor().flags & FLAG_Z, 0);
}

#[test]
fn serial_loop_outputs_every_byte_once() {
    // LDX #0; loop: STX $FFE0; INX; BNE loop; done: JMP done
    let mut c = machine(0x0400, &[0xA2, 0x00, 0x8E, 0xE0, 0xFF, 0xE8, 0xD0, 0xFA, 0x4C, 0x08, 0x04]);
    run(&mut c, 1 + 256 * 3 + 50);
    let out = outputs(&mut c);
    let expected: Vec<u8> = (0..=255u8).collect();
    assert_eq!(out, expected);
    run(&mut c, 100);
    assert!(outputs(&mut c).is_empty());
}

#[test]
fn serial_input_is_taken_once() {
    // LDA $FFE0
    let mut c = machine(0x0400, &[0xAD, 0xE0, 0xFF]);
    c.handle_message(ControllerMessage::SendChar('A'));
    assert_eq!(c.peek(0xFFE1), 0x08);
    run(&mut c, 1);
    assert_eq!(c.processor().acc, b'A');
    assert_eq!(c.peek(0xFFE0), 0);
    assert_eq!(c.peek(0xFFE1), 0);
}

#[test]
fn undefined_opcodes_are_nops() {
    // NOP2 $02 xx; NOP3 $5C xx xx; undefined $03
    let mut c = machine(0x0400, &[0x02, 0xFF, 0x5C, 0xFF, 0xFF, 0x03]);
    run(&mut c, 3);
    assert_eq!(c.processor().pc, 0x0406);
}

#[test]
fn reset_reads_vector_and_keeps_clock() {
    let mut c = Computer::new(image(0x1234, &[0xEA]), vec![]);
    assert_eq!(c.processor().pc, 0x0400);
    assert_eq!(c.processor().flags, 0x30);
    c.reset();
    assert_eq!(c.processor().pc, 0x1234);
    run(&mut c, 1);
    assert_eq!(c.processor().clock, 2);
    c.handle_message(ControllerMessage::Reset);
    assert_eq!(c.processor().clock, 2);
    assert_eq!(c.processor().pc, 0x1234);
}

#[test]
fn rom_is_placed_at_top() {
    let c = Computer::new(vec![1, 2, 3], vec![]);
    assert_eq!(c.peek(0xFFFD), 1);
    assert_eq!(c.peek(0xFFFE), 2);
    assert_eq!(c.peek(0xFFFF), 3);
    assert_eq!(c.peek(0xFFFC), 0);
}

#[test]
fn snapshots_are_sent_on_request() {
    let mut c = machine(0x0400, &[0xEA]);
    c.handle_message(ControllerMessage::GetProc);
    c.handle_message(ControllerMessage::GetMemory);
    let msgs = c.take_messages();
    assert_eq!(msgs.len(), 2);
    match &msgs[0] {
        ComputerMessage::Processor(p) => {
            let q: Processor = c.processor();
            assert_eq!(*p, q);
        }
        _ => panic!("expected a processor snapshot"),
    }
    match &msgs[1] {
        ComputerMessage::Memory(m) => {
            assert_eq!(m.len(), 0x10000);
            assert_eq!(m[0xFFFC], 0x00);
            assert_eq!(m[0xFFFD], 0x04);
        }
        _ => panic!("expected a memory snapshot"),
    }
    assert!(c.take_messages().is_empty());
}

#[test]
fn pause_and_single_step() {
    let mut c = machine(0x0400, &[0xEA, 0xEA, 0xEA]);
    c.handle_message(ControllerMessage::TogglePause);
    assert!(c.is_paused());
    assert_eq!(c.step(), 100);
    assert_eq!(c.processor().pc, 0x0400);
    c.handle_message(ControllerMessage::Step);
    assert_eq!(c.step(), 0);
    assert_eq!(c.processor().pc, 0x0401);
    assert_eq!(c.step(), 100);
    assert_eq!(c.processor().pc, 0x0401);
    c.handle_message(ControllerMessage::TogglePause);
    c.handle_message(ControllerMessage::SetSpeed(7));
    assert_eq!(c.step(), 7);
    assert_eq!(c.processor().pc, 0x0402);
}

#[test]
fn repeated_trace_line_pauses_engine() {
    // loop: JMP loop
    let mut c = machine(0x0400, &[0x4C, 0x00, 0x04]);
    c.handle_message(ControllerMessage::SetDebug(1));
    c.step();
    assert!(!c.is_paused());
    assert_eq!(c.info.len(), 1);
    assert_eq!(c.info[0].qty, 1);
    assert_eq!(c.info[0].msg, "0x400 - running instruction JMP (0x4c)");
    c.step();
    assert!(c.is_paused());
    assert_eq!(c.info.len(), 1);
    assert_eq!(c.info[0].qty, 2);
    let infos: Vec<String> = c
        .take_messages()
        .into_iter()
        .filter_map(|m| match m {
            ComputerMessage::Info(s) => Some(s),
            _ => None,
        })
        .collect();
    assert_eq!(infos.len(), 3);
    assert_eq!(infos[2], "Computer paused");
}

#[test]
fn add_info_counts_repeats() {
    let mut c = machine(0x0400, &[0xEA]);
    c.add_info(String::from("a"));
    c.add_info(String::from("b"));
    assert!(!c.is_paused());
    c.add_info(String::from("b"));
    assert!(c.is_paused());
    assert_eq!(c.info.len(), 2);
    assert_eq!(c.info[1].msg, "b");
    assert_eq!(c.info[1].qty, 2);
}

#[test]
fn get_word_is_little_endian() {
    let mut mem = image(0x0400, &[]);
    mem[0x2000] = 0x34;
    mem[0x2001] = 0x12;
    let mut c = Computer::new(mem, vec![]);
    assert_eq!(c.get_word(0x2000), 0x1234);
}

#[test]
fn set_flags_forces_fixed_bits() {
    assert_eq!(Computer::set_flags(0x00, 0x00), 0x30 | FLAG_Z);
    assert_eq!(Computer::set_flags(0xC3, 0x80), 0xF1);
    assert_eq!(Computer::set_flags(0x82, 0x01), 0x30);
}

#[test]
fn jsr_reads_operand_before_pushing() {
    // JSR $1234 at $01FE with the stack pointer at 0: the pushes land on
    // $0100 and $01FF, the second of which holds the operand's low byte.
    let mut mem = image(0x01FE, &[0x20, 0x34, 0x12]);
    mem[0x1234] = 0x60;
    let mut c = Computer::new(mem, vec![]);
    c.reset();
    run(&mut c, 1);
    assert_eq!(c.processor().pc, 0x1234);
    assert_eq!(c.peek(0x0100), 0x02);
    assert_eq!(c.peek(0x01FF), 0x00);
    run(&mut c, 1);
    assert_eq!(c.processor().pc, 0x0201);
}

#[test]
fn pha_other_work_pla() {
    // LDA #$80; PHA; LDA #$01; LDX #$05; INX; PLA
    let mut c = machine(0x0400, &[0xA9, 0x80, 0x48, 0xA9, 0x01, 0xA2, 0x05, 0xE8, 0x68]);
    run(&mut c, 1);
    let sp = c.processor().sp;
    run(&mut c, 5);
    assert_eq!(c.processor().acc, 0x80);
    assert_eq!(c.processor().sp, sp);
    assert_ne!(c.processor().flags & FLAG_N, 0);
    assert_eq!(c.processor().flags & FLAG_Z, 0);
}
