//! A register value of any type, and its codec by type.

use vstd::prelude::*;
use vstd::slice::slice_to_vec;
use crate::bytes::chunk;
use crate::composite::{
    lemma_disk_value_decode_encode, lemma_disk_value_encode_decode, lemma_disk_value_layout,
    lemma_pid_decode_encode, lemma_pid_encode_decode, lemma_pid_layout,
    lemma_snapshot_decode_encode, lemma_snapshot_encode_decode, lemma_snapshot_layout,
    DiskPositionSpeedLoad, DiskValue, Pid,
};
use crate::register::{Part, ValueKind};
use crate::scalar::{
    u16_wire, u8_wire, lemma_binary32_decode_encode, lemma_binary32_encode_decode,
    lemma_u16_decode_encode, lemma_u16_encode_decode, u16_from_le_bytes, u16_from_wire,
    u16_to_le_bytes, u8_from_le_bytes, u8_from_wire, u8_to_le_bytes, Binary32,
};

verus! {

/// What a register holds.
#[derive(Clone, Copy, Debug, PartialEq, Eq, Structural)]
pub enum Value {
    U8(u8),
    U16(u16),
    F32(Binary32),
    DiskValue(DiskValue<Binary32>),
    Pid(Pid),
    PositionSpeedLoad(DiskPositionSpeedLoad),
}

impl Value {
    /// The type of the value.
    pub open spec fn spec_kind(&self) -> ValueKind {
        match *self {
            Value::U8(_) => ValueKind::U8,
            Value::U16(_) => ValueKind::U16,
            Value::F32(_) => ValueKind::F32,
            Value::DiskValue(_) => ValueKind::DiskValue,
            Value::Pid(_) => ValueKind::Pid,
            Value::PositionSpeedLoad(_) => ValueKind::PositionSpeedLoad,
        }
    }

    /// The value of type `kind` that the first bytes of `b` spell, as many
    /// bytes as the type takes.
    pub open spec fn from_wire(kind: ValueKind, b: Seq<u8>) -> Value {
        match kind {
            ValueKind::U8 => Value::U8(u8_from_wire(b) as u8),
            ValueKind::U16 => Value::U16(u16_from_wire(b) as u16),
            ValueKind::F32 => Value::F32(Binary32::from_wire(b)),
            ValueKind::DiskValue => Value::DiskValue(DiskValue::from_wire(b)),
            ValueKind::Pid => Value::Pid(Pid::from_wire(b)),
            ValueKind::PositionSpeedLoad => Value::PositionSpeedLoad(
                DiskPositionSpeedLoad::from_wire(b),
            ),
        }
    }

    /// The wire bytes of the value.
    pub open spec fn wire(self) -> Seq<u8> {
        match self {
            Value::U8(x) => u8_wire(x),
            Value::U16(x) => u16_wire(x),
            Value::F32(x) => x.wire(),
            Value::DiskValue(x) => x.wire(),
            Value::Pid(x) => x.wire(),
            Value::PositionSpeedLoad(x) => x.wire(),
        }
    }

    /// The named part of the value, where the value is a composite that has
    /// such a part.
    pub open spec fn spec_part(&self, part: Part) -> Option<Value> {
        match (*self, part) {
            (Value::DiskValue(x), Part::Top) => Some(Value::F32(x.top)),
            (Value::DiskValue(x), Part::Middle) => Some(Value::F32(x.middle)),
            (Value::DiskValue(x), Part::Bottom) => Some(Value::F32(x.bottom)),
            (Value::PositionSpeedLoad(x), Part::Position) => Some(Value::DiskValue(x.position)),
            (Value::PositionSpeedLoad(x), Part::Speed) => Some(Value::DiskValue(x.speed)),
            (Value::PositionSpeedLoad(x), Part::Load) => Some(Value::DiskValue(x.load)),
            _ => None,
        }
    }

    /// The type of the value.
    #[verifier::when_used_as_spec(spec_kind)]
    pub fn kind(&self) -> (k: ValueKind)
        ensures
            k == self.spec_kind(),
    {
        match self {
            Value::U8(_) => ValueKind::U8,
            Value::U16(_) => ValueKind::U16,
            Value::F32(_) => ValueKind::F32,
            Value::DiskValue(_) => ValueKind::DiskValue,
            Value::Pid(_) => ValueKind::Pid,
            Value::PositionSpeedLoad(_) => ValueKind::PositionSpeedLoad,
        }
    }

    /// Decodes a value of type `kind` from exactly as many bytes as the type
    /// takes. Any other number of bytes is refused: nothing is cut off and
    /// nothing is filled in.
    pub fn from_le_bytes(kind: ValueKind, bytes: &[u8]) -> (v: Option<Value>)
        ensures
            bytes@.len() == kind.size() ==> v == Some(Value::from_wire(kind, bytes@)),
            bytes@.len() != kind.size() ==> v.is_none(),
            v matches Some(value) ==> value.kind() == kind && value.wire() == bytes@,
    {
        if bytes.len() != kind.size() {
            return None;
        }
        proof {
            lemma_value_encode_decode(kind, bytes@);
        }
        assert(bytes@.subrange(0, bytes@.len() as int) =~= bytes@);
        Some(
            match kind {
                ValueKind::U8 => Value::U8(u8_from_le_bytes(chunk::<1>(bytes, 0))),
                ValueKind::U16 => Value::U16(u16_from_le_bytes(chunk::<2>(bytes, 0))),
                ValueKind::F32 => Value::F32(Binary32::from_le_bytes(chunk::<4>(bytes, 0))),
                ValueKind::DiskValue => Value::DiskValue(
                    DiskValue::from_le_bytes(chunk::<12>(bytes, 0)),
                ),
                ValueKind::Pid => Value::Pid(Pid::from_le_bytes(chunk::<12>(bytes, 0))),
                ValueKind::PositionSpeedLoad => Value::PositionSpeedLoad(
                    DiskPositionSpeedLoad::from_le_bytes(chunk::<36>(bytes, 0)),
                ),
            },
        )
    }

    /// Encodes the value as its wire bytes.
    pub fn to_le_bytes(&self) -> (bytes: Vec<u8>)
        ensures
            bytes@ == self.wire(),
            bytes@.len() == self.kind().size(),
            Value::from_wire(self.kind(), bytes@) == *self,
    {
        proof {
            lemma_value_size(*self);
            lemma_value_decode_encode(*self);
        }
        match self {
            Value::U8(x) => slice_to_vec(u8_to_le_bytes(*x).as_slice()),
            Value::U16(x) => slice_to_vec(u16_to_le_bytes(*x).as_slice()),
            Value::F32(x) => slice_to_vec(x.to_le_bytes().as_slice()),
            Value::DiskValue(x) => slice_to_vec(x.to_le_bytes().as_slice()),
            Value::Pid(x) => slice_to_vec(x.to_le_bytes().as_slice()),
            Value::PositionSpeedLoad(x) => slice_to_vec(x.to_le_bytes().as_slice()),
        }
    }

    /// The named part of the value: `None` where the value is no composite
    /// that has such a part.
    #[verifier::when_used_as_spec(spec_part)]
    pub fn part(&self, part: Part) -> (p: Option<Value>)
        ensures
            p == self.spec_part(part),
            p.is_some() <==> self.kind() == part.whole(),
            p matches Some(v) ==> v.kind() == part.kind(),
    {
        match (self, part) {
            (Value::DiskValue(x), Part::Top) => Some(Value::F32(x.top)),
            (Value::DiskValue(x), Part::Middle) => Some(Value::F32(x.middle)),
            (Value::DiskValue(x), Part::Bottom) => Some(Value::F32(x.bottom)),
            (Value::PositionSpeedLoad(x), Part::Position) => Some(Value::DiskValue(x.position)),
            (Value::PositionSpeedLoad(x), Part::Speed) => Some(Value::DiskValue(x.speed)),
            (Value::PositionSpeedLoad(x), Part::Load) => Some(Value::DiskValue(x.load)),
            _ => None,
        }
    }
}

/// A value takes as many wire bytes as its type says.
pub proof fn lemma_value_size(v: Value)
    ensures
        v.wire().len() == v.kind().size(),
{
    match v {
        Value::DiskValue(x) => lemma_disk_value_layout(x),
        Value::Pid(x) => lemma_pid_layout(x),
        Value::PositionSpeedLoad(x) => lemma_snapshot_layout(x),
        _ => {},
    }
}

/// Decoding yields a value of the type asked for.
pub proof fn lemma_decoded_kind(kind: ValueKind, b: Seq<u8>)
    ensures
        Value::from_wire(kind, b).kind() == kind,
{
}

/// Encoding a value and decoding the bytes by the value's type gives the
/// value back, bit for bit.
pub proof fn lemma_value_decode_encode(v: Value)
    ensures
        Value::from_wire(v.kind(), v.wire()) == v,
{
    match v {
        Value::U8(_) => {},
        Value::U16(x) => lemma_u16_decode_encode(x),
        Value::F32(x) => lemma_binary32_decode_encode(x),
        Value::DiskValue(x) => lemma_disk_value_decode_encode(x),
        Value::Pid(x) => lemma_pid_decode_encode(x),
        Value::PositionSpeedLoad(x) => lemma_snapshot_decode_encode(x),
    }
}

/// Decoding as many bytes as a type takes and encoding the value gives the
/// bytes back.
pub proof fn lemma_value_encode_decode(kind: ValueKind, b: Seq<u8>)
    requires
        b.len() == kind.size(),
    ensures
        Value::from_wire(kind, b).wire() == b,
{
    match kind {
        ValueKind::U8 => {
            assert(u8_wire(u8_from_wire(b) as u8) =~= b);
        },
        ValueKind::U16 => lemma_u16_encode_decode(b),
        ValueKind::F32 => lemma_binary32_encode_decode(b),
        ValueKind::DiskValue => lemma_disk_value_encode_decode(b),
        ValueKind::Pid => lemma_pid_encode_decode(b),
        ValueKind::PositionSpeedLoad => lemma_snapshot_encode_decode(b),
    }
}

/// A part can be decoded alone. Take the bytes of a composite, cut out the
/// bytes from the part's offset on, as many as the part's type takes, and
/// decode them by the part's type: the result is the part of the decoded
/// composite.
pub proof fn lemma_part_decodes_alone(part: Part, block: Seq<u8>)
    requires
        block.len() == part.whole().size(),
    ensures
        Value::from_wire(part.whole(), block).part(part) == Some(
            Value::from_wire(
                part.kind(),
                block.subrange(part.offset() as int, part.offset() + part.kind().size()),
            ),
        ),
{
    match part {
        Part::Top | Part::Middle | Part::Bottom => {},
        Part::Position | Part::Speed | Part::Load => {},
    }
}

} // verus!
