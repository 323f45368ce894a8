//! The region of non-volatile storage that holds the configuration record.
//!
//! The region is written as a whole: flash can only be cleared bit by bit,
//! so every write is preceded by an erase of the full region. The storage
//! here does no I/O itself. It says which operations to perform, in which
//! order, and the caller performs them on the device.
//!
//! What the operations do to a device is modelled by `flash_after`, and
//! `written_record_is_read_back` shows that the order of a write is the
//! right one.

use vstd::prelude::*;

verus! {

/// First address of the region reserved for the record.
pub const FS_START_ADDR: u32 = 0x7F000;

/// Address behind the region reserved for the record.
pub const FS_END_ADDR: u32 = 0x80000;

/// Bytes in a page of flash, the unit of erasing.
pub const PAGE_SIZE: u32 = 4096;

/// One operation on the flash device.
#[derive(Clone, Copy, Debug, PartialEq, Eq, Structural)]
pub enum FlashOp {
    /// Erase the bytes from `from` up to, not including, `to`.
    Erase { from: u32, to: u32 },
    /// Write the record's bytes from `offset` on.
    Write { offset: u32 },
    /// Fill the buffer with the bytes from `offset` on.
    Read { offset: u32 },
}

/// Flash Storage
#[derive(Clone, Copy, Debug, PartialEq, Eq, Structural)]
pub struct FlashStorage {
    start_addr: u32,
    end_addr: u32,
}

impl FlashStorage {
    /// First address of the region.
    pub closed spec fn start(self) -> u32 {
        self.start_addr
    }

    /// Address behind the region.
    pub closed spec fn end(self) -> u32 {
        self.end_addr
    }

    /// Whether the region is made of whole pages, and of one at least.
    pub open spec fn page_aligned(self) -> bool {
        &&& self.start() < self.end()
        &&& self.start() % PAGE_SIZE == 0
        &&& self.end() % PAGE_SIZE == 0
    }

    /// Whether a record of `len` bytes lies within the region.
    pub open spec fn holds(self, len: int) -> bool {
        0 <= len && self.start() + len <= self.end()
    }

    /// The operations of a write, in their order: erase the whole region,
    /// then write at its start.
    pub open spec fn write_ops(self) -> Seq<FlashOp> {
        seq![
            FlashOp::Erase { from: self.start(), to: self.end() },
            FlashOp::Write { offset: self.start() },
        ]
    }

    /// The operation of a read: read from the region's start.
    pub open spec fn read_op(self) -> FlashOp {
        FlashOp::Read { offset: self.start() }
    }

    /// Creates Storage by specifying start and end addresses
    pub fn new(start_addr: u32, end_addr: u32) -> (storage: Self)
        ensures
            storage.start() == start_addr,
            storage.end() == end_addr,
    {
        FlashStorage { start_addr, end_addr }
    }

    /// First address of the region.
    pub fn start_addr(&self) -> (addr: u32)
        ensures
            addr == self.start(),
    {
        self.start_addr
    }

    /// Address behind the region.
    pub fn end_addr(&self) -> (addr: u32)
        ensures
            addr == self.end(),
    {
        self.end_addr
    }

    /// The storage of the region reserved for the configuration record.
    pub fn reserved() -> (storage: Self)
        ensures
            storage.start() == FS_START_ADDR,
            storage.end() == FS_END_ADDR,
            storage.page_aligned(),
    {
        FlashStorage { start_addr: FS_START_ADDR, end_addr: FS_END_ADDR }
    }

    /// Whether the region can be erased page by page and holds a record of
    /// `len` bytes.
    pub fn fits(&self, len: usize) -> (fits: bool)
        ensures
            fits == (self.page_aligned() && self.holds(len as int)),
    {
        self.start_addr < self.end_addr && self.start_addr % PAGE_SIZE == 0 && self.end_addr
            % PAGE_SIZE == 0 && len as u64 <= (self.end_addr - self.start_addr) as u64
    }

    /// Reads from flash: the one operation that copies the region's first
    /// bytes into the caller's buffer.
    pub fn read(&self) -> (op: FlashOp)
        ensures
            op == self.read_op(),
    {
        FlashOp::Read { offset: self.start_addr }
    }

    /// Writes to flash: the whole region is erased first, then the record
    /// is written at the region's start.
    pub fn write(&self) -> (ops: [FlashOp; 2])
        ensures
            ops@ =~= self.write_ops(),
    {
        [
            FlashOp::Erase { from: self.start_addr, to: self.end_addr },
            FlashOp::Write { offset: self.start_addr },
        ]
    }
}

/// What a flash device holds after `op`, where `flash` is what it held
/// before, byte by address, and `record` the bytes handed to a write.
///
/// Erasing sets every bit of the range. Writing can only clear bits: a
/// byte takes the bits that it and the written byte have in common. Reading
/// changes nothing.
pub open spec fn flash_after(flash: Seq<u8>, op: FlashOp, record: Seq<u8>) -> Seq<u8> {
    match op {
        FlashOp::Erase { from, to } => Seq::new(
            flash.len(),
            |addr: int|
                if from <= addr < to {
                    0xffu8
                } else {
                    flash[addr]
                },
        ),
        FlashOp::Write { offset } => Seq::new(
            flash.len(),
            |addr: int|
                if offset <= addr < offset + record.len() {
                    flash[addr] & record[addr - offset]
                } else {
                    flash[addr]
                },
        ),
        FlashOp::Read { offset } => flash,
    }
}

/// What a flash device holds after the operations `ops`, one after the
/// other.
pub open spec fn flash_after_all(flash: Seq<u8>, ops: Seq<FlashOp>, record: Seq<u8>) -> Seq<u8>
    decreases ops.len(),
{
    if ops.len() == 0 {
        flash
    } else {
        flash_after(flash_after_all(flash, ops.drop_last(), record), ops.last(), record)
    }
}

/// The `len` bytes that `op` reads from a flash device.
pub open spec fn flash_read(flash: Seq<u8>, op: FlashOp, len: int) -> Seq<u8> {
    match op {
        FlashOp::Read { offset } => flash.subrange(offset as int, offset + len),
        _ => Seq::empty(),
    }
}

/// What is written is read back: whatever the flash held before, after
/// the operations of a write a read gives the record, byte for byte. The
/// rest of the region is left erased, and no byte outside the region has
/// changed.
pub proof fn written_record_is_read_back(storage: FlashStorage, flash: Seq<u8>, record: Seq<u8>)
    requires
        storage.holds(record.len() as int),
        storage.end() <= flash.len(),
    ensures
        flash_read(
            flash_after_all(flash, storage.write_ops(), record),
            storage.read_op(),
            record.len() as int,
        ) == record,
        flash_after_all(flash, storage.write_ops(), record).len() == flash.len(),
        forall|addr: int|
            storage.start() + record.len() <= addr < storage.end() ==> #[trigger] flash_after_all(
                flash,
                storage.write_ops(),
                record,
            )[addr] == 0xffu8,
        forall|addr: int|
            0 <= addr < flash.len() && !(storage.start() <= addr < storage.end()) ==> #[trigger] flash_after_all(
                flash,
                storage.write_ops(),
                record,
            )[addr] == flash[addr],
{
    let ops = storage.write_ops();
    let erase = ops[0];
    let write = ops[1];
    assert(ops.drop_last() =~= seq![erase]);
    assert(ops.drop_last().drop_last() =~= Seq::<FlashOp>::empty());
    reveal_with_fuel(flash_after_all, 3);
    let erased = flash_after(flash, erase, record);
    let written = flash_after(erased, write, record);
    assert(flash_after_all(flash, ops, record) == written);
    assert forall|i: int| 0 <= i < record.len() implies written[storage.start() + i] == record[i] by {
        let byte = record[i];
        assert(0xffu8 & byte == byte) by (bit_vector);
    }
    assert(flash_read(written, storage.read_op(), record.len() as int) =~= record);
}

/// Writing alone does not store a record: where the flash holds a cleared
/// bit, a write cannot set it again. This is why every write erases first.
pub proof fn a_write_cannot_set_bits(flash: Seq<u8>, offset: u32, record: Seq<u8>, addr: int)
    requires
        offset <= addr < offset + record.len(),
        addr < flash.len(),
    ensures
        flash_after(flash, FlashOp::Write { offset }, record)[addr] & !flash[addr] == 0,
        flash[addr] == 0 ==> flash_after(flash, FlashOp::Write { offset }, record)[addr] == 0,
{
    let old_byte = flash[addr];
    let new_byte = record[addr - offset];
    assert((old_byte & new_byte) & !old_byte == 0) by (bit_vector);
    assert(old_byte == 0 ==> old_byte & new_byte == 0) by (bit_vector);
}

} // verus!
