use vstd::prelude::*;

use crate::card::Card;

verus! {

/// The sector transfer a disk controller is carrying out.
#[derive(PartialEq, Eq, Structural, Clone, Copy, Debug)]
pub enum DiskCommand {
    Read,
    Write,
    Idle,
}

/// Command code that starts a sector read.
pub const CMD_READ: u8 = 0x20;
/// Command code that starts a sector write.
pub const CMD_WRITE: u8 = 0x30;
/// Command code that stops any transfer.
pub const CMD_IDLE: u8 = 0;
/// Bytes in one sector.
pub const SECTOR_SIZE: u16 = 512;
/// Status byte while a transfer is active.
pub const STATUS_BUSY: u8 = 0x58;
/// Status byte while no transfer is active.
pub const STATUS_READY: u8 = 0x50;

/// The command a command code stands for, if any.
pub open spec fn command_of(v: u8) -> Option<DiskCommand> {
    if v == CMD_READ {
        Some(DiskCommand::Read)
    } else if v == CMD_WRITE {
        Some(DiskCommand::Write)
    } else if v == CMD_IDLE {
        Some(DiskCommand::Idle)
    } else {
        None
    }
}

impl DiskCommand {
    /// The command a command code stands for; unknown codes are an error.
    pub fn from_code(v: u8) -> (r: Result<DiskCommand, ()>)
        ensures
            r matches Ok(c) ==> command_of(v) == Some(c),
            r is Err <==> command_of(v) is None,
    {
        if v == CMD_READ {
            Ok(DiskCommand::Read)
        } else if v == CMD_WRITE {
            Ok(DiskCommand::Write)
        } else if v == CMD_IDLE {
            Ok(DiskCommand::Idle)
        } else {
            Err(())
        }
    }
}

/// A CompactFlash-style disk controller: a 28-bit logical block address, a
/// byte counter within the current sector, the active command, and the
/// disk image it reads and writes.
#[derive(Debug)]
pub struct Cf {
    pub disk_cnt: u16,
    pub command: DiskCommand,
    pub disk: Vec<u8>,
    pub lba: u32,
}

/// The register file of a [`Cf`], with the disk image as a sequence.
pub struct CfState {
    pub disk_cnt: u16,
    pub command: DiskCommand,
    pub disk: Seq<u8>,
    pub lba: u32,
}

impl View for Cf {
    type V = CfState;

    open spec fn view(&self) -> CfState {
        CfState { disk_cnt: self.disk_cnt, command: self.command, disk: self.disk@, lba: self.lba }
    }
}

/// The position in the disk image of the byte the data port transfers next.
pub open spec fn disk_offset(s: CfState) -> int {
    s.lba as int * SECTOR_SIZE as int + s.disk_cnt as int
}

/// The controller after one byte has gone through the data port: the
/// counter advances, and once it passes the sector size the command ends.
pub open spec fn advance(s: CfState) -> CfState {
    let cnt = s.disk_cnt.wrapping_add(1);
    CfState {
        disk_cnt: cnt,
        command: if cnt > SECTOR_SIZE { DiskCommand::Idle } else { s.command },
        ..s
    }
}

impl Cf {
    /// A controller over the given disk image, idle at block 0.
    pub fn new(disk: Vec<u8>) -> (r: Cf)
        ensures
            r@ == (CfState { disk_cnt: 0, command: DiskCommand::Idle, disk: disk@, lba: 0 }),
    {
        Cf { disk_cnt: 0, command: DiskCommand::Idle, disk, lba: 0 }
    }

    /// Whether a disk image is attached.
    pub fn attached(&self) -> (r: bool)
        ensures
            r == (self.disk@.len() > 0),
    {
        self.disk.len() > 0
    }

    /// Where the data port transfers its next byte, if that is inside the image.
    fn offset(&self) -> (r: Option<usize>)
        ensures
            r matches Some(i) ==> i == disk_offset(self@) && i < self.disk@.len(),
            r is None ==> disk_offset(self@) >= self.disk@.len(),
    {
        let lba = self.lba as u64;
        proof {
            assert(lba * 512 <= 0xFFFF_FFFFu64 * 512) by (nonlinear_arith)
                requires lba <= 0xFFFF_FFFFu64;
        }
        let i: u64 = lba * 512 + self.disk_cnt as u64;
        if i < self.disk.len() as u64 {
            Some(i as usize)
        } else {
            None
        }
    }

    /// Moves the transfer one byte on.
    fn advance(&mut self)
        ensures
            final(self)@ == advance(old(self)@),
    {
        self.disk_cnt = self.disk_cnt.wrapping_add(1);
        if self.disk_cnt > SECTOR_SIZE {
            self.command = DiskCommand::Idle;
        }
    }
}

impl Card for Cf {
    open spec fn read_state(s: CfState, reg: u16) -> CfState {
        if s.disk.len() > 0 && reg & 7 == 0 && s.command == DiskCommand::Read {
            advance(s)
        } else {
            s
        }
    }

    open spec fn read_value(s: CfState, reg: u16) -> u8 {
        if s.disk.len() == 0 {
            0
        } else if reg & 7 == 0 && s.command == DiskCommand::Read {
            if disk_offset(s) < s.disk.len() { s.disk[disk_offset(s)] } else { 0 }
        } else if reg & 7 == 7 {
            if s.command != DiskCommand::Idle { STATUS_BUSY } else { STATUS_READY }
        } else {
            0
        }
    }

    open spec fn write_state(s: CfState, reg: u16, val: u8) -> CfState {
        let r = reg & 7;
        if s.disk.len() == 0 {
            s
        } else if r == 0 {
            if s.command == DiskCommand::Write {
                let d = if disk_offset(s) < s.disk.len() {
                    s.disk.update(disk_offset(s), val)
                } else {
                    s.disk
                };
                advance(CfState { disk: d, ..s })
            } else {
                s
            }
        } else if r == 3 {
            CfState { lba: (s.lba & 0xFFFFFF00) | (val as u32), ..s }
        } else if r == 4 {
            CfState { lba: (s.lba & 0xFFFF00FF) | ((val as u32) << 8u32), ..s }
        } else if r == 5 {
            CfState { lba: (s.lba & 0xFF00FFFF) | ((val as u32) << 16u32), ..s }
        } else if r == 6 {
            CfState { lba: (s.lba & 0x00FFFFFF) | (((val & 0xF) as u32) << 24u32), ..s }
        } else if r == 7 {
            let c = match command_of(val) {
                Some(c) => c,
                None => DiskCommand::Idle,
            };
            CfState { command: c, disk_cnt: 0, ..s }
        } else {
            s
        }
    }

    open spec fn tick_state(s: CfState) -> CfState {
        s
    }

    open spec fn interrupt_line(s: CfState) -> bool {
        false
    }

    fn get_interrupt(&mut self) -> (r: bool) {
        false
    }

    fn tick(&mut self) {
    }

    fn read(&mut self, reg: u16) -> (r: u8) {
        if self.disk.len() == 0 {
            return 0;
        }
        let r = reg & 7;
        if r == 0 && self.command == DiskCommand::Read {
            let v = match self.offset() {
                Some(i) => self.disk[i],
                None => 0,
            };
            self.advance();
            v
        } else if r == 7 {
            if self.command != DiskCommand::Idle {
                STATUS_BUSY
            } else {
                STATUS_READY
            }
        } else {
            0
        }
    }

    fn write(&mut self, reg: u16, val: u8) {
        if self.disk.len() == 0 {
            return;
        }
        let r = reg & 7;
        if r == 0 {
            if self.command == DiskCommand::Write {
                match self.offset() {
                    Some(i) => {
                        self.disk.set(i, val);
                    },
                    None => {},
                }
                self.advance();
            }
        } else if r == 3 {
            self.lba = (self.lba & 0xFFFFFF00) | (val as u32);
        } else if r == 4 {
            self.lba = (self.lba & 0xFFFF00FF) | ((val as u32) << 8u32);
        } else if r == 5 {
            self.lba = (self.lba & 0xFF00FFFF) | ((val as u32) << 16u32);
        } else if r == 6 {
            self.lba = (self.lba & 0x00FFFFFF) | (((val & 0xF) as u32) << 24u32);
        } else if r == 7 {
            self.command = match DiskCommand::from_code(val) {
                Ok(c) => c,
                Err(_) => DiskCommand::Idle,
            };
            self.disk_cnt = 0;
        }
    }
}

} // verus!

verus! {

/// The controller after `n` reads of the data port.
pub open spec fn data_reads(s: CfState, n: nat) -> CfState
    decreases n,
{
    if n == 0 { s } else { Cf::read_state(data_reads(s, (n - 1) as nat), 0) }
}

/// The bytes `n` reads of the data port return, in order.
pub open spec fn data_bytes(s: CfState, n: nat) -> Seq<u8>
    decreases n,
{
    if n == 0 {
        Seq::empty()
    } else {
        data_bytes(s, (n - 1) as nat).push(Cf::read_value(data_reads(s, (n - 1) as nat), 0))
    }
}

proof fn lemma_reading_sector(s: CfState, k: nat)
    requires
        s.disk.len() >= (s.lba as int + 1) * SECTOR_SIZE,
        s.disk_cnt == 0,
        s.command == DiskCommand::Read,
        k <= SECTOR_SIZE,
    ensures
        data_reads(s, k) == (CfState { disk_cnt: k as u16, ..s }),
        data_bytes(s, k) == s.disk.subrange(s.lba * 512, s.lba * 512 + k),
    decreases k,
{
    assert(0u16 & 7 == 0) by (bit_vector);
    if k > 0 {
        lemma_reading_sector(s, (k - 1) as nat);
        assert(disk_offset(data_reads(s, (k - 1) as nat)) == s.lba * 512 + k - 1);
        assert(data_bytes(s, k) =~= s.disk.subrange(s.lba * 512, s.lba * 512 + k));
    }
}

/// After the read command, 512 reads of the data port give the bytes of the
/// addressed sector in order, with the command still active and the image
/// and block address untouched; the read after them ends the command, so
/// the status register reads ready.
pub proof fn lemma_sector_read(s: CfState)
    requires
        s.disk.len() >= (s.lba as int + 1) * SECTOR_SIZE,
    ensures
        ({
            let started = Cf::write_state(s, 7, CMD_READ);
            let base = s.lba * 512;
            &&& data_bytes(started, 512) == s.disk.subrange(base, base + 512)
            &&& data_reads(started, 512).disk == s.disk
            &&& data_reads(started, 512).lba == s.lba
            &&& Cf::read_value(data_reads(started, 512), 7) == STATUS_BUSY
            &&& data_reads(started, 513).command == DiskCommand::Idle
            &&& Cf::read_value(data_reads(started, 513), 7) == STATUS_READY
        }),
{
    let started = Cf::write_state(s, 7, CMD_READ);
    assert(7u16 & 7 == 7) by (bit_vector);
    assert(0u16 & 7 == 0) by (bit_vector);
    lemma_reading_sector(started, 512);
}

} // verus!
