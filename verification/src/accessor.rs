//! What to ask of the bus for a register, and what its answer means.
//!
//! Nothing here touches the bus. A read is prepared with
//! [`Register::read_request`], carried out by whoever owns the bus, and its
//! answer interpreted with [`Register::decode`]. A write is prepared with
//! [`Register::write_request`]. Each of them refuses what the register's
//! access mode does not offer, and refuses a register without an address
//! rather than make one up.

use vstd::prelude::*;
use crate::composite::DiskPositionSpeedLoad;
use crate::register::{lemma_table_consistent, Address, Location, Part, Register};
use crate::scalar::Binary32;
use crate::value::{lemma_part_decodes_alone, Value};

verus! {

/// Why a register operation was refused.
#[derive(Clone, Copy, Debug, PartialEq, Eq, Structural)]
pub enum AccessError {
    /// The register is write-only.
    NotReadable,
    /// The register is read-only.
    NotWritable,
    /// The register has no address on the wire.
    Unsupported,
    /// The bytes are not as many as the register's type takes.
    WrongLength,
    /// The value is not of the register's type.
    WrongKind,
}

/// A run of bytes in the device's register space.
#[derive(Clone, Copy, Debug, PartialEq, Eq, Structural)]
pub struct Span {
    pub address: u8,
    pub length: usize,
}

/// Bytes to be written from an address on.
#[derive(Debug, PartialEq, Eq)]
pub struct WriteRequest {
    pub address: u8,
    pub bytes: Vec<u8>,
}

impl Register {
    /// The bytes to read from the device for this register.
    ///
    /// A write-only register is refused with `NotReadable`; otherwise one
    /// without an address with `Unsupported`.
    pub fn read_request(self) -> (r: Result<Span, AccessError>)
        ensures
            !self.descriptor().access.can_read() ==> r == Err::<Span, AccessError>(
                AccessError::NotReadable,
            ),
            self.descriptor().access.can_read() ==> match self.address() {
                Address::Virtual => r == Err::<Span, AccessError>(AccessError::Unsupported),
                Address::Wire(at) => r == Ok::<Span, AccessError>(
                    (Span { address: at, length: self.descriptor().kind.size() }),
                ),
            },
    {
        if !self.access().can_read() {
            return Err(AccessError::NotReadable);
        }
        match self.address() {
            Address::Virtual => Err(AccessError::Unsupported),
            Address::Wire(at) => Ok(Span { address: at, length: self.kind().size() }),
        }
    }

    /// The value that the bytes read for this register stand for.
    ///
    /// A write-only register is refused with `NotReadable`; otherwise one
    /// without an address with `Unsupported`; otherwise any number of bytes
    /// but the one that the register's type takes with `WrongLength`.
    pub fn decode(self, bytes: &[u8]) -> (r: Result<Value, AccessError>)
        ensures
            !self.descriptor().access.can_read() ==> r == Err::<Value, AccessError>(
                AccessError::NotReadable,
            ),
            self.descriptor().access.can_read() && self.address() is Virtual ==> r == Err::<
                Value,
                AccessError,
            >(AccessError::Unsupported),
            self.descriptor().access.can_read() && self.address() is Wire ==> r == if bytes@.len()
                == self.descriptor().kind.size() {
                Ok::<Value, AccessError>(Value::from_wire(self.descriptor().kind, bytes@))
            } else {
                Err::<Value, AccessError>(AccessError::WrongLength)
            },
    {
        if !self.access().can_read() {
            return Err(AccessError::NotReadable);
        }
        match self.address() {
            Address::Virtual => Err(AccessError::Unsupported),
            Address::Wire(_) => match Value::from_le_bytes(self.kind(), bytes) {
                Some(value) => Ok(value),
                None => Err(AccessError::WrongLength),
            },
        }
    }

    /// The bytes to write to the device to give this register the value.
    ///
    /// A read-only register is refused with `NotWritable`; otherwise one
    /// without an address with `Unsupported`; otherwise a value of another
    /// type than the register's with `WrongKind`.
    pub fn write_request(self, value: &Value) -> (r: Result<WriteRequest, AccessError>)
        ensures
            !self.descriptor().access.can_write() ==> r == Err::<WriteRequest, AccessError>(
                AccessError::NotWritable,
            ),
            self.descriptor().access.can_write() && self.address() is Virtual ==> r == Err::<
                WriteRequest,
                AccessError,
            >(AccessError::Unsupported),
            self.descriptor().access.can_write() && self.address() is Wire && value.kind()
                != self.descriptor().kind ==> r == Err::<WriteRequest, AccessError>(
                AccessError::WrongKind,
            ),
            self.descriptor().access.can_write() && self.address() is Wire && value.kind()
                == self.descriptor().kind ==> (r matches Ok(w) && Address::Wire(w.address)
                == self.address() && w.bytes@ == value.wire()),
    {
        if !self.access().can_write() {
            return Err(AccessError::NotWritable);
        }
        match self.address() {
            Address::Virtual => Err(AccessError::Unsupported),
            Address::Wire(at) => {
                if value.kind() == self.kind() {
                    Ok(WriteRequest { address: at, bytes: value.to_le_bytes() })
                } else {
                    Err(AccessError::WrongKind)
                }
            },
        }
    }
}

/// A register that is a part of another's block can be read out of that
/// block. Its address is the block's plus the part's offset, and decoding the
/// bytes that stand there in the block, as many as the register's type takes,
/// gives the register's part of the decoded block.
pub proof fn lemma_part_register_reads_block(
    r: Register,
    whole: Register,
    part: Part,
    block: Seq<u8>,
)
    requires
        r.descriptor().location == Location::Within(whole, part),
        block.len() == whole.descriptor().kind.size(),
    ensures
        whole.address() matches Address::Wire(at) ==> at + part.offset() <= u8::MAX
            && r.address() == Address::Wire((at + part.offset()) as u8),
        part.offset() + r.descriptor().kind.size() <= block.len(),
        Value::from_wire(whole.descriptor().kind, block).part(part) == Some(
            Value::from_wire(
                r.descriptor().kind,
                block.subrange(part.offset() as int, part.offset() + r.descriptor().kind.size()),
            ),
        ),
{
    lemma_table_consistent(r);
    lemma_part_decodes_alone(part, block);
}

/// The middle disk's present speed stands sixteen bytes into the combined
/// position, speed and load block: twelve for the position block before it
/// and four for the top disk's speed. The four bytes there, decoded alone,
/// are the middle speed of the decoded block.
pub proof fn lemma_middle_present_speed(block: Seq<u8>)
    requires
        block.len() == 36,
    ensures
        Register::PresentPositionSpeedLoad.address() matches Address::Wire(base)
            && Register::MiddlePresentSpeed.address() == Address::Wire((base + 12 + 4) as u8),
        Register::MiddlePresentSpeed.descriptor().kind.size() == 4,
        Binary32::from_wire(block.subrange(16, 20)) == DiskPositionSpeedLoad::from_wire(
            block,
        ).speed.middle,
{
    reveal_with_fuel(Register::spec_address, 3);
    assert(block.subrange(12, 24).subrange(4, 8) =~= block.subrange(16, 20));
}

} // verus!
