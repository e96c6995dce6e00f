use plu::card::{Card, CardData, CardType, Device};
use plu::cf::{Cf, DiskCommand};
use plu::computer::Computer;
use plu::empty::Empty;
use plu::host::Tab;
use plu::timer::Via;

fn disk_image() -> Vec<u8> {
    (0..2048u32).map(|i| (i * 7 % 251) as u8).collect()
}

#[test]
fn disk_read_sector_then_idle() {
    let disk = disk_image();
    let mut cf = Cf::new(disk.clone());
    assert_eq!(cf.read(7), 0x50);
    cf.write(7, 0x20);
    assert_eq!(cf.read(7), 0x58);
    for i in 0..512 {
        assert_eq!(cf.read(0), disk[i]);
    }
    assert_eq!(cf.read(7), 0x58);
    cf.read(0);
    assert_eq!(cf.command, DiskCommand::Idle);
    assert_eq!(cf.read(7), 0x50);
}

#[test]
fn disk_block_address_and_write() {
    let mut cf = Cf::new(disk_image());
    cf.write(3, 2);
    cf.write(4, 0);
    cf.write(5, 0);
    cf.write(6, 0xF0);
    assert_eq!(cf.lba, 2);
    cf.write(6, 0x01);
    assert_eq!(cf.lba, 0x0100_0002);
    cf.write(6, 0x00);
    cf.write(7, 0x30);
    cf.write(0, 0xAA);
    cf.write(0, 0xBB);
    assert_eq!(cf.disk[1024], 0xAA);
    assert_eq!(cf.disk[1025], 0xBB);
    cf.write(7, 0x55);
    assert_eq!(cf.command, DiskCommand::Idle);
}

#[test]
fn disk_without_image_is_silent() {
    let mut cf = Cf::new(vec![]);
    cf.write(7, 0x20);
    assert_eq!(cf.command, DiskCommand::Idle);
    assert_eq!(cf.read(7), 0);
    assert_eq!(cf.read(0), 0);
}

#[test]
fn disk_command_codes() {
    assert_eq!(DiskCommand::from_code(0x20), Ok(DiskCommand::Read));
    assert_eq!(DiskCommand::from_code(0x30), Ok(DiskCommand::Write));
    assert_eq!(DiskCommand::from_code(0x00), Ok(DiskCommand::Idle));
    assert_eq!(DiskCommand::from_code(0x55), Err(()));
}

#[test]
fn disk_through_the_bus() {
    // LDA #$20; STA $FFD7; LDA $FFD0; LDA $FFD0; LDA $FFD7
    let mut mem = vec![0u8; 0x10000];
    let prog = [0xA9, 0x20, 0x8D, 0xD7, 0xFF, 0xAD, 0xD0, 0xFF, 0xAD, 0xD0, 0xFF, 0xAD, 0xD7, 0xFF];
    mem[0x400..0x400 + prog.len()].copy_from_slice(&prog);
    mem[0xFFFD] = 0x04;
    let disk = disk_image();
    let mut c = Computer::new(mem, disk.clone());
    c.reset();
    for _ in 0..3 {
        c.run_instruction();
    }
    assert_eq!(c.processor().acc, disk[0]);
    c.run_instruction();
    assert_eq!(c.processor().acc, disk[1]);
    c.run_instruction();
    assert_eq!(c.processor().acc, 0x58);
}

fn timer() -> Via {
    let mut v = Via::new();
    v.write(0xE, 0x40);
    v.write(4, 10);
    v.write(5, 0);
    v
}

#[test]
fn timer_interrupts_on_tenth_tick() {
    let mut v = timer();
    assert_eq!(v.timer1cnt, 10);
    for _ in 0..9 {
        v.tick();
        assert!(!v.get_interrupt());
    }
    v.tick();
    assert!(v.get_interrupt());
    assert_eq!(v.read(0xD), 0xC0);
    assert!(!v.get_interrupt());
}

#[test]
fn timer_free_run_reloads() {
    let mut v = timer();
    v.write(0xB, 0x40);
    for _ in 0..10 {
        v.tick();
    }
    assert!(v.get_interrupt());
    assert_eq!(v.timer1cnt, 10);
    v.tick();
    assert!(!v.get_interrupt());
    assert_eq!(v.timer1cnt, 9);
}

#[test]
fn timer_disabled_does_not_interrupt() {
    let mut v = Via::new();
    v.write(4, 3);
    v.write(5, 0);
    for _ in 0..5 {
        v.tick();
    }
    assert!(!v.get_interrupt());
    assert_eq!(v.timer1cnt, 0);
}

#[test]
fn timer_registers_read_back() {
    let mut v = Via::new();
    v.write(6, 0x34);
    v.write(7, 0x12);
    assert_eq!(v.read(6), 0x34);
    assert_eq!(v.read(7), 0x12);
    v.write(0xC, 9);
    assert_eq!(v.read(0xC), 9);
    assert_eq!(v.read(0xE), 0);
}

#[test]
fn slots_dispatch_to_their_card() {
    let mut slot = CardData { card_type: CardType::Vacant, value: Device::Vacant(Empty {}) };
    slot.value.write(1, 5);
    assert_eq!(slot.value.read(1), 0);
    assert!(!slot.value.get_interrupt());
    let mut slot = CardData { card_type: CardType::IO, value: Device::Timer(timer()) };
    for _ in 0..10 {
        slot.value.tick();
    }
    assert!(slot.value.get_interrupt());
    assert_eq!(slot.card_type, CardType::IO);
}

#[test]
fn tabs_cycle() {
    assert_eq!(Tab::Main.toggle_help(), Tab::Help);
    assert_eq!(Tab::Help.toggle_help(), Tab::Main);
    assert_eq!(Tab::Memory.toggle_help(), Tab::Help);
    assert_eq!(Tab::Main.toggle_memory(), Tab::Memory);
    assert_eq!(Tab::Memory.toggle_memory(), Tab::Main);
    assert_eq!(Tab::Help.toggle_memory(), Tab::Main);
}

#[test]
fn disk_command_write_always_resets_offset() {
    let mut cf = Cf::new(disk_image());
    cf.write(7, 0x20);
    for _ in 0..5 {
        cf.read(0);
    }
    assert_eq!(cf.disk_cnt, 5);
    cf.write(7, 0x00);
    assert_eq!(cf.disk_cnt, 0);
    assert_eq!(cf.command, DiskCommand::Idle);
}

#[test]
fn disk_read_second_sector() {
    let disk = disk_image();
    let mut cf = Cf::new(disk.clone());
    cf.write(3, 1);
    cf.write(7, 0x20);
    for i in 0..512 {
        assert_eq!(cf.read(0), disk[512 + i]);
    }
    assert_eq!(cf.read(7), 0x58);
    cf.read(0);
    assert_eq!(cf.read(7), 0x50);
    assert_eq!(cf.lba, 1);
}
