//! Composite register values and their byte layout.
//!
//! A composite is laid out as its fields in declared order, each in its own
//! layout, with nothing between them.

use vstd::prelude::*;
use crate::bytes::{chunk, concat3};
use crate::scalar::{lemma_binary32_decode_encode, lemma_binary32_encode_decode, Binary32};

verus! {

/// One value for each of the three disks of a joint, in wire order.
#[derive(Clone, Copy, Debug, PartialEq, Eq, Structural)]
pub struct DiskValue<T> {
    pub top: T,
    pub middle: T,
    pub bottom: T,
}

/// The gains of one control loop.
#[derive(Clone, Copy, Debug, PartialEq, Eq, Structural)]
pub struct Pid {
    pub p: Binary32,
    pub i: Binary32,
    pub d: Binary32,
}

/// Position, speed and load of the three disks at one instant.
#[derive(Clone, Copy, Debug, PartialEq, Eq, Structural)]
pub struct DiskPositionSpeedLoad {
    pub position: DiskValue<Binary32>,
    pub speed: DiskValue<Binary32>,
    pub load: DiskValue<Binary32>,
}

impl DiskValue<Binary32> {
    /// The value that the first twelve bytes of `b` spell: top, middle,
    /// bottom, four bytes each.
    pub open spec fn from_wire(b: Seq<u8>) -> Self {
        DiskValue {
            top: Binary32::from_wire(b.subrange(0, 4)),
            middle: Binary32::from_wire(b.subrange(4, 8)),
            bottom: Binary32::from_wire(b.subrange(8, 12)),
        }
    }

    /// The twelve wire bytes of the value.
    pub open spec fn wire(self) -> Seq<u8> {
        self.top.wire() + self.middle.wire() + self.bottom.wire()
    }

    /// Decodes the three disks' values from a twelve-byte block.
    pub fn from_le_bytes(bytes: [u8; 12]) -> (v: Self)
        ensures
            v == Self::from_wire(bytes@),
            v.wire() == bytes@,
    {
        proof {
            lemma_disk_value_encode_decode(bytes@);
        }
        let block = bytes.as_slice();
        DiskValue {
            top: Binary32::from_le_bytes(chunk::<4>(block, 0)),
            middle: Binary32::from_le_bytes(chunk::<4>(block, 4)),
            bottom: Binary32::from_le_bytes(chunk::<4>(block, 8)),
        }
    }

    /// Encodes the three disks' values as a twelve-byte block.
    pub fn to_le_bytes(&self) -> (bytes: [u8; 12])
        ensures
            bytes@ == self.wire(),
            Self::from_wire(bytes@) == *self,
    {
        proof {
            lemma_disk_value_decode_encode(*self);
        }
        concat3::<4, 12>(
            &self.top.to_le_bytes(),
            &self.middle.to_le_bytes(),
            &self.bottom.to_le_bytes(),
        )
    }
}

impl Pid {
    /// The gains that the first twelve bytes of `b` spell: p, i, d, four
    /// bytes each.
    pub open spec fn from_wire(b: Seq<u8>) -> Self {
        Pid {
            p: Binary32::from_wire(b.subrange(0, 4)),
            i: Binary32::from_wire(b.subrange(4, 8)),
            d: Binary32::from_wire(b.subrange(8, 12)),
        }
    }

    /// The twelve wire bytes of the gains.
    pub open spec fn wire(self) -> Seq<u8> {
        self.p.wire() + self.i.wire() + self.d.wire()
    }

    /// Decodes the three gains from a twelve-byte block.
    pub fn from_le_bytes(bytes: [u8; 12]) -> (v: Self)
        ensures
            v == Self::from_wire(bytes@),
            v.wire() == bytes@,
    {
        proof {
            lemma_pid_encode_decode(bytes@);
        }
        let block = bytes.as_slice();
        Pid {
            p: Binary32::from_le_bytes(chunk::<4>(block, 0)),
            i: Binary32::from_le_bytes(chunk::<4>(block, 4)),
            d: Binary32::from_le_bytes(chunk::<4>(block, 8)),
        }
    }

    /// Encodes the three gains as a twelve-byte block.
    pub fn to_le_bytes(&self) -> (bytes: [u8; 12])
        ensures
            bytes@ == self.wire(),
            Self::from_wire(bytes@) == *self,
    {
        proof {
            lemma_pid_decode_encode(*self);
        }
        concat3::<4, 12>(&self.p.to_le_bytes(), &self.i.to_le_bytes(), &self.d.to_le_bytes())
    }
}

impl DiskPositionSpeedLoad {
    /// The snapshot that the first thirty-six bytes of `b` spell: position,
    /// speed, load, twelve bytes each.
    pub open spec fn from_wire(b: Seq<u8>) -> Self {
        DiskPositionSpeedLoad {
            position: DiskValue::from_wire(b.subrange(0, 12)),
            speed: DiskValue::from_wire(b.subrange(12, 24)),
            load: DiskValue::from_wire(b.subrange(24, 36)),
        }
    }

    /// The thirty-six wire bytes of the snapshot.
    pub open spec fn wire(self) -> Seq<u8> {
        self.position.wire() + self.speed.wire() + self.load.wire()
    }

    /// Decodes a snapshot from a thirty-six-byte block.
    pub fn from_le_bytes(bytes: [u8; 36]) -> (v: Self)
        ensures
            v == Self::from_wire(bytes@),
            v.wire() == bytes@,
    {
        proof {
            lemma_snapshot_encode_decode(bytes@);
        }
        let block = bytes.as_slice();
        DiskPositionSpeedLoad {
            position: DiskValue::from_le_bytes(chunk::<12>(block, 0)),
            speed: DiskValue::from_le_bytes(chunk::<12>(block, 12)),
            load: DiskValue::from_le_bytes(chunk::<12>(block, 24)),
        }
    }

    /// Encodes the snapshot as a thirty-six-byte block: the position block,
    /// then the speed block, then the load block.
    pub fn to_le_bytes(&self) -> (bytes: [u8; 36])
        ensures
            bytes@ == self.wire(),
            bytes@.subrange(0, 12) == self.position.wire(),
            bytes@.subrange(12, 24) == self.speed.wire(),
            bytes@.subrange(24, 36) == self.load.wire(),
            Self::from_wire(bytes@) == *self,
    {
        proof {
            lemma_snapshot_layout(*self);
            lemma_snapshot_decode_encode(*self);
        }
        concat3::<12, 36>(
            &self.position.to_le_bytes(),
            &self.speed.to_le_bytes(),
            &self.load.to_le_bytes(),
        )
    }
}

/// Three disks' values take twelve bytes, and each disk's four bytes stand
/// at its own offset: top at 0, middle at 4, bottom at 8.
pub proof fn lemma_disk_value_layout(v: DiskValue<Binary32>)
    ensures
        v.wire().len() == 12,
        v.wire().subrange(0, 4) == v.top.wire(),
        v.wire().subrange(4, 8) == v.middle.wire(),
        v.wire().subrange(8, 12) == v.bottom.wire(),
{
    assert(v.wire().subrange(0, 4) =~= v.top.wire());
    assert(v.wire().subrange(4, 8) =~= v.middle.wire());
    assert(v.wire().subrange(8, 12) =~= v.bottom.wire());
}

/// Three gains take twelve bytes, and each gain's four bytes stand at its own
/// offset: p at 0, i at 4, d at 8.
pub proof fn lemma_pid_layout(v: Pid)
    ensures
        v.wire().len() == 12,
        v.wire().subrange(0, 4) == v.p.wire(),
        v.wire().subrange(4, 8) == v.i.wire(),
        v.wire().subrange(8, 12) == v.d.wire(),
{
    assert(v.wire().subrange(0, 4) =~= v.p.wire());
    assert(v.wire().subrange(4, 8) =~= v.i.wire());
    assert(v.wire().subrange(8, 12) =~= v.d.wire());
}

/// A snapshot takes thirty-six bytes, and each quantity's twelve bytes stand
/// at its own offset: position at 0, speed at 12, load at 24.
pub proof fn lemma_snapshot_layout(v: DiskPositionSpeedLoad)
    ensures
        v.wire().len() == 36,
        v.wire().subrange(0, 12) == v.position.wire(),
        v.wire().subrange(12, 24) == v.speed.wire(),
        v.wire().subrange(24, 36) == v.load.wire(),
{
    lemma_disk_value_layout(v.position);
    lemma_disk_value_layout(v.speed);
    lemma_disk_value_layout(v.load);
    assert(v.wire().subrange(0, 12) =~= v.position.wire());
    assert(v.wire().subrange(12, 24) =~= v.speed.wire());
    assert(v.wire().subrange(24, 36) =~= v.load.wire());
}

/// Encoding three disks' values and decoding the block gives the same three
/// bit patterns back.
pub proof fn lemma_disk_value_decode_encode(v: DiskValue<Binary32>)
    ensures
        DiskValue::<Binary32>::from_wire(v.wire()) == v,
{
    lemma_disk_value_layout(v);
    lemma_binary32_decode_encode(v.top);
    lemma_binary32_decode_encode(v.middle);
    lemma_binary32_decode_encode(v.bottom);
}

/// Decoding a twelve-byte block as three disks' values and encoding them
/// gives the block back.
pub proof fn lemma_disk_value_encode_decode(b: Seq<u8>)
    requires
        b.len() == 12,
    ensures
        DiskValue::<Binary32>::from_wire(b).wire() == b,
{
    lemma_binary32_encode_decode(b.subrange(0, 4));
    lemma_binary32_encode_decode(b.subrange(4, 8));
    lemma_binary32_encode_decode(b.subrange(8, 12));
    assert(b.subrange(0, 4) + b.subrange(4, 8) + b.subrange(8, 12) =~= b);
}

/// Encoding three gains and decoding the block gives the same three bit
/// patterns back.
pub proof fn lemma_pid_decode_encode(v: Pid)
    ensures
        Pid::from_wire(v.wire()) == v,
{
    lemma_pid_layout(v);
    lemma_binary32_decode_encode(v.p);
    lemma_binary32_decode_encode(v.i);
    lemma_binary32_decode_encode(v.d);
}

/// Decoding a twelve-byte block as three gains and encoding them gives the
/// block back.
pub proof fn lemma_pid_encode_decode(b: Seq<u8>)
    requires
        b.len() == 12,
    ensures
        Pid::from_wire(b).wire() == b,
{
    lemma_binary32_encode_decode(b.subrange(0, 4));
    lemma_binary32_encode_decode(b.subrange(4, 8));
    lemma_binary32_encode_decode(b.subrange(8, 12));
    assert(b.subrange(0, 4) + b.subrange(4, 8) + b.subrange(8, 12) =~= b);
}

/// Encoding a snapshot and decoding the block gives the same nine bit
/// patterns back.
pub proof fn lemma_snapshot_decode_encode(v: DiskPositionSpeedLoad)
    ensures
        DiskPositionSpeedLoad::from_wire(v.wire()) == v,
{
    lemma_snapshot_layout(v);
    lemma_disk_value_decode_encode(v.position);
    lemma_disk_value_decode_encode(v.speed);
    lemma_disk_value_decode_encode(v.load);
}

/// Decoding a thirty-six-byte block as a snapshot and encoding it gives the
/// block back.
pub proof fn lemma_snapshot_encode_decode(b: Seq<u8>)
    requires
        b.len() == 36,
    ensures
        DiskPositionSpeedLoad::from_wire(b).wire() == b,
{
    lemma_disk_value_encode_decode(b.subrange(0, 12));
    lemma_disk_value_encode_decode(b.subrange(12, 24));
    lemma_disk_value_encode_decode(b.subrange(24, 36));
    assert(b.subrange(0, 12) + b.subrange(12, 24) + b.subrange(24, 36) =~= b);
}

} // verus!
