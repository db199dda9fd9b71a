//! The register table: which registers the device has, where each one
//! stands, who may read or write it, and what type of value it holds.
//!
//! The table is data. A register that is a part of a larger block is entered
//! as that part, and its address follows from the block's address and the
//! part's offset in the block's layout, so the two cannot drift apart.

use vstd::prelude::*;

verus! {

/// Who may use a register.
#[derive(Clone, Copy, Debug, PartialEq, Eq, Structural)]
pub enum Access {
    ReadOnly,
    WriteOnly,
    ReadWrite,
}

impl Access {
    /// Whether the mode offers reading.
    pub open spec fn spec_can_read(self) -> bool {
        self != Access::WriteOnly
    }

    /// Whether the mode offers writing.
    pub open spec fn spec_can_write(self) -> bool {
        self != Access::ReadOnly
    }

    /// Whether the mode offers reading.
    #[verifier::when_used_as_spec(spec_can_read)]
    pub fn can_read(self) -> (b: bool)
        ensures
            b == self.spec_can_read(),
    {
        match self {
            Access::WriteOnly => false,
            Access::ReadOnly | Access::ReadWrite => true,
        }
    }

    /// Whether the mode offers writing.
    #[verifier::when_used_as_spec(spec_can_write)]
    pub fn can_write(self) -> (b: bool)
        ensures
            b == self.spec_can_write(),
    {
        match self {
            Access::ReadOnly => false,
            Access::WriteOnly | Access::ReadWrite => true,
        }
    }
}

/// The type of value that a register holds.
#[derive(Clone, Copy, Debug, PartialEq, Eq, Structural)]
pub enum ValueKind {
    /// One byte.
    U8,
    /// Two bytes, little-endian.
    U16,
    /// A single-precision number: four bytes, little-endian.
    F32,
    /// One single-precision number per disk: top, middle, bottom.
    DiskValue,
    /// Three single-precision gains: p, i, d.
    Pid,
    /// Three per-disk values: position, speed, load.
    PositionSpeedLoad,
}

impl ValueKind {
    /// The number of bytes that a value of this type takes on the wire.
    pub open spec fn spec_size(self) -> usize {
        match self {
            ValueKind::U8 => 1,
            ValueKind::U16 => 2,
            ValueKind::F32 => 4,
            ValueKind::DiskValue => 12,
            ValueKind::Pid => 12,
            ValueKind::PositionSpeedLoad => 36,
        }
    }

    /// The number of bytes that a value of this type takes on the wire.
    #[verifier::when_used_as_spec(spec_size)]
    pub fn size(self) -> (n: usize)
        ensures
            n == self.spec_size(),
    {
        match self {
            ValueKind::U8 => 1,
            ValueKind::U16 => 2,
            ValueKind::F32 => 4,
            ValueKind::DiskValue => 12,
            ValueKind::Pid => 12,
            ValueKind::PositionSpeedLoad => 36,
        }
    }
}

/// A named part of a composite value.
#[derive(Clone, Copy, Debug, PartialEq, Eq, Structural)]
pub enum Part {
    /// The top disk's slot of a per-disk value.
    Top,
    /// The middle disk's slot of a per-disk value.
    Middle,
    /// The bottom disk's slot of a per-disk value.
    Bottom,
    /// The position block of a position/speed/load snapshot.
    Position,
    /// The speed block of a position/speed/load snapshot.
    Speed,
    /// The load block of a position/speed/load snapshot.
    Load,
}

impl Part {
    /// The type of the composite that has this part.
    pub open spec fn spec_whole(self) -> ValueKind {
        match self {
            Part::Top | Part::Middle | Part::Bottom => ValueKind::DiskValue,
            Part::Position | Part::Speed | Part::Load => ValueKind::PositionSpeedLoad,
        }
    }

    /// The type of the part itself.
    pub open spec fn spec_kind(self) -> ValueKind {
        match self {
            Part::Top | Part::Middle | Part::Bottom => ValueKind::F32,
            Part::Position | Part::Speed | Part::Load => ValueKind::DiskValue,
        }
    }

    /// The offset of the part's first byte in the composite's layout.
    pub open spec fn spec_offset(self) -> u8 {
        match self {
            Part::Top => 0,
            Part::Middle => 4,
            Part::Bottom => 8,
            Part::Position => 0,
            Part::Speed => 12,
            Part::Load => 24,
        }
    }

    /// The type of the composite that has this part.
    #[verifier::when_used_as_spec(spec_whole)]
    pub fn whole(self) -> (k: ValueKind)
        ensures
            k == self.spec_whole(),
    {
        match self {
            Part::Top | Part::Middle | Part::Bottom => ValueKind::DiskValue,
            Part::Position | Part::Speed | Part::Load => ValueKind::PositionSpeedLoad,
        }
    }

    /// The type of the part itself.
    #[verifier::when_used_as_spec(spec_kind)]
    pub fn kind(self) -> (k: ValueKind)
        ensures
            k == self.spec_kind(),
    {
        match self {
            Part::Top | Part::Middle | Part::Bottom => ValueKind::F32,
            Part::Position | Part::Speed | Part::Load => ValueKind::DiskValue,
        }
    }

    /// The offset of the part's first byte in the composite's layout.
    #[verifier::when_used_as_spec(spec_offset)]
    pub fn offset(self) -> (n: u8)
        ensures
            n == self.spec_offset(),
    {
        match self {
            Part::Top => 0,
            Part::Middle => 4,
            Part::Bottom => 8,
            Part::Position => 0,
            Part::Speed => 12,
            Part::Load => 24,
        }
    }
}

/// Where a register's first byte stands in the device's register space.
#[derive(Clone, Copy, Debug, PartialEq, Eq, Structural)]
pub enum Address {
    /// At this byte offset.
    Wire(u8),
    /// Nowhere: the register is not a block of its own on the wire, and
    /// whoever moves its value does so by means that this crate does not
    /// know.
    Virtual,
}

/// How the table places a register.
#[derive(Clone, Copy, Debug, PartialEq, Eq, Structural)]
pub enum Location {
    /// A block of its own, at this byte offset.
    Direct(u8),
    /// No place on the wire.
    Virtual,
    /// A part of another register's block.
    Within(Register, Part),
}

/// One row of the table.
#[derive(Clone, Copy, Debug, PartialEq, Eq, Structural)]
pub struct Descriptor {
    pub location: Location,
    pub access: Access,
    pub kind: ValueKind,
}

/// The registers of the device, by name.
#[derive(Clone, Copy, Debug, PartialEq, Eq, Structural)]
pub enum Register {
    /// Model number of the device.
    ModelNumber,
    /// Version of the firmware.
    FirmwareVersion,
    /// Bus identifier of the device.
    Id,
    /// Starts the device's self-check.
    SystemCheck,
    /// State of the motor drivers.
    MotorsDriversStates,
    /// Voltage limit.
    VoltageLimit,
    /// Current intensity limit.
    IntensityLimit,
    /// Gains of the velocity loop, as one three-slot value.
    VelocityPid,
    /// Proportional gain of the velocity loop.
    VelocityPGain,
    /// Integral gain of the velocity loop.
    VelocityIGain,
    /// Derivative gain of the velocity loop.
    VelocityDGain,
    /// Output ramp of the velocity loop.
    VelocityOutRamp,
    /// Low-pass filter of the velocity loop.
    VelocityLowPassFilter,
    /// Gains of the angle loop.
    AnglePid,
    /// Proportional gain of the angle loop.
    AnglePGain,
    /// Integral gain of the angle loop.
    AngleIGain,
    /// Derivative gain of the angle loop.
    AngleDGain,
    /// Velocity limit of the angle loop.
    AngleVelocityLimit,
    /// Temperature limit.
    TemperatureLimit,
    /// Switches the torque on or off.
    TorqueEnable,
    /// Goal position of the three disks.
    GoalPosition,
    /// Goal position of the top disk.
    TopGoalPosition,
    /// Goal position of the middle disk.
    MiddleGoalPosition,
    /// Goal position of the bottom disk.
    BottomGoalPosition,
    /// Present position, speed and load of the three disks, as one block.
    PresentPositionSpeedLoad,
    /// Present position of the three disks.
    PresentPosition,
    /// Present position of the top disk.
    TopPresentPosition,
    /// Present position of the middle disk.
    MiddlePresentPosition,
    /// Present position of the bottom disk.
    BottomPresentPosition,
    /// Present speed of the three disks.
    PresentSpeed,
    /// Present speed of the top disk.
    TopPresentSpeed,
    /// Present speed of the middle disk.
    MiddlePresentSpeed,
    /// Present speed of the bottom disk.
    BottomPresentSpeed,
    /// Present load of the three disks.
    PresentLoad,
    /// Present load of the top disk.
    TopPresentLoad,
    /// Present load of the middle disk.
    MiddlePresentLoad,
    /// Present load of the bottom disk.
    BottomPresentLoad,
    /// Present temperature, as one three-slot value.
    PresentTemperature,
    /// Present temperature, under the top disk's name.
    TopPresentTemperature,
    /// Present temperature, under the middle disk's name.
    MiddlePresentTemperature,
    /// Present temperature, under the bottom disk's name.
    BottomPresentTemperature,
}

impl Register {
    /// The table.
    pub open spec fn spec_descriptor(self) -> Descriptor {
        match self {
            Register::ModelNumber => Descriptor {
                location: Location::Direct(0),
                access: Access::ReadOnly,
                kind: ValueKind::U16,
            },
            Register::FirmwareVersion => Descriptor {
                location: Location::Direct(6),
                access: Access::ReadOnly,
                kind: ValueKind::U8,
            },
            Register::Id => Descriptor {
                location: Location::Direct(7),
                access: Access::ReadWrite,
                kind: ValueKind::U8,
            },
            Register::SystemCheck => Descriptor {
                location: Location::Virtual,
                access: Access::WriteOnly,
                kind: ValueKind::U8,
            },
            Register::MotorsDriversStates => Descriptor {
                location: Location::Virtual,
                access: Access::ReadOnly,
                kind: ValueKind::U8,
            },
            Register::VoltageLimit => Descriptor {
                location: Location::Virtual,
                access: Access::ReadWrite,
                kind: ValueKind::F32,
            },
            Register::IntensityLimit => Descriptor {
                location: Location::Virtual,
                access: Access::ReadWrite,
                kind: ValueKind::F32,
            },
            Register::VelocityPid => Descriptor {
                location: Location::Virtual,
                access: Access::ReadWrite,
                kind: ValueKind::DiskValue,
            },
            Register::VelocityPGain => Descriptor {
                location: Location::Virtual,
                access: Access::ReadWrite,
                kind: ValueKind::F32,
            },
            Register::VelocityIGain => Descriptor {
                location: Location::Virtual,
                access: Access::ReadWrite,
                kind: ValueKind::F32,
            },
            Register::VelocityDGain => Descriptor {
                location: Location::Virtual,
                access: Access::ReadWrite,
                kind: ValueKind::F32,
            },
            Register::VelocityOutRamp => Descriptor {
                location: Location::Virtual,
                access: Access::ReadWrite,
                kind: ValueKind::F32,
            },
            Register::VelocityLowPassFilter => Descriptor {
                location: Location::Virtual,
                access: Access::ReadWrite,
                kind: ValueKind::F32,
            },
            Register::AnglePid => Descriptor {
                location: Location::Virtual,
                access: Access::ReadWrite,
                kind: ValueKind::Pid,
            },
            Register::AnglePGain => Descriptor {
                location: Location::Virtual,
                access: Access::ReadWrite,
                kind: ValueKind::F32,
            },
            Register::AngleIGain => Descriptor {
                location: Location::Virtual,
                access: Access::ReadWrite,
                kind: ValueKind::F32,
            },
            Register::AngleDGain => Descriptor {
                location: Location::Virtual,
                access: Access::ReadWrite,
                kind: ValueKind::F32,
            },
            Register::AngleVelocityLimit => Descriptor {
                location: Location::Virtual,
                access: Access::ReadWrite,
                kind: ValueKind::F32,
            },
            Register::TemperatureLimit => Descriptor {
                location: Location::Virtual,
                access: Access::ReadWrite,
                kind: ValueKind::F32,
            },
            Register::TorqueEnable => Descriptor {
                location: Location::Direct(20),
                access: Access::ReadWrite,
                kind: ValueKind::U8,
            },
            Register::GoalPosition => Descriptor {
                location: Location::Direct(50),
                access: Access::ReadWrite,
                kind: ValueKind::DiskValue,
            },
            Register::TopGoalPosition => Descriptor {
                location: Location::Within(Register::GoalPosition, Part::Top),
                access: Access::ReadWrite,
                kind: ValueKind::F32,
            },
            Register::MiddleGoalPosition => Descriptor {
                location: Location::Within(Register::GoalPosition, Part::Middle),
                access: Access::ReadWrite,
                kind: ValueKind::F32,
            },
            Register::BottomGoalPosition => Descriptor {
                location: Location::Within(Register::GoalPosition, Part::Bottom),
                access: Access::ReadWrite,
                kind: ValueKind::F32,
            },
            Register::PresentPositionSpeedLoad => Descriptor {
                location: Location::Direct(90),
                access: Access::ReadOnly,
                kind: ValueKind::PositionSpeedLoad,
            },
            Register::PresentPosition => Descriptor {
                location: Location::Within(Register::PresentPositionSpeedLoad, Part::Position),
                access: Access::ReadOnly,
                kind: ValueKind::DiskValue,
            },
            Register::TopPresentPosition => Descriptor {
                location: Location::Within(Register::PresentPosition, Part::Top),
                access: Access::ReadOnly,
                kind: ValueKind::F32,
            },
            Register::MiddlePresentPosition => Descriptor {
                location: Location::Within(Register::PresentPosition, Part::Middle),
                access: Access::ReadOnly,
                kind: ValueKind::F32,
            },
            Register::BottomPresentPosition => Descriptor {
                location: Location::Within(Register::PresentPosition, Part::Bottom),
                access: Access::ReadOnly,
                kind: ValueKind::F32,
            },
            Register::PresentSpeed => Descriptor {
                location: Location::Within(Register::PresentPositionSpeedLoad, Part::Speed),
                access: Access::ReadOnly,
                kind: ValueKind::DiskValue,
            },
            Register::TopPresentSpeed => Descriptor {
                location: Location::Within(Register::PresentSpeed, Part::Top),
                access: Access::ReadOnly,
                kind: ValueKind::F32,
            },
            Register::MiddlePresentSpeed => Descriptor {
                location: Location::Within(Register::PresentSpeed, Part::Middle),
                access: Access::ReadOnly,
                kind: ValueKind::F32,
            },
            Register::BottomPresentSpeed => Descriptor {
                location: Location::Within(Register::PresentSpeed, Part::Bottom),
                access: Access::ReadOnly,
                kind: ValueKind::F32,
            },
            Register::PresentLoad => Descriptor {
                location: Location::Within(Register::PresentPositionSpeedLoad, Part::Load),
                access: Access::ReadOnly,
                kind: ValueKind::DiskValue,
            },
            Register::TopPresentLoad => Descriptor {
                location: Location::Within(Register::PresentLoad, Part::Top),
                access: Access::ReadOnly,
                kind: ValueKind::F32,
            },
            Register::MiddlePresentLoad => Descriptor {
                location: Location::Within(Register::PresentLoad, Part::Middle),
                access: Access::ReadOnly,
                kind: ValueKind::F32,
            },
            Register::BottomPresentLoad => Descriptor {
                location: Location::Within(Register::PresentLoad, Part::Bottom),
                access: Access::ReadOnly,
                kind: ValueKind::F32,
            },
            Register::PresentTemperature => Descriptor {
                location: Location::Direct(130),
                access: Access::ReadOnly,
                kind: ValueKind::DiskValue,
            },
            Register::TopPresentTemperature => Descriptor {
                location: Location::Direct(130),
                access: Access::ReadOnly,
                kind: ValueKind::F32,
            },
            Register::MiddlePresentTemperature => Descriptor {
                location: Location::Direct(130),
                access: Access::ReadOnly,
                kind: ValueKind::F32,
            },
            Register::BottomPresentTemperature => Descriptor {
                location: Location::Direct(130),
                access: Access::ReadOnly,
                kind: ValueKind::F32,
            },
        }
    }

    /// The register's address: its own where it has one, and for a part of
    /// another register's block that block's address plus the part's offset.
    pub open spec fn spec_address(self) -> Address
        decreases 36 - self.spec_descriptor().kind.spec_size(),
    {
        match self.spec_descriptor().location {
            Location::Direct(at) => Address::Wire(at),
            Location::Virtual => Address::Virtual,
            Location::Within(whole, part) => match whole.spec_address() {
                Address::Wire(at) => Address::Wire((at + part.spec_offset()) as u8),
                Address::Virtual => Address::Virtual,
            },
        }
    }

    /// The register's row of the table.
    #[verifier::when_used_as_spec(spec_descriptor)]
    pub fn descriptor(self) -> (d: Descriptor)
        ensures
            d == self.spec_descriptor(),
    {
        match self {
            Register::ModelNumber => Descriptor {
                location: Location::Direct(0),
                access: Access::ReadOnly,
                kind: ValueKind::U16,
            },
            Register::FirmwareVersion => Descriptor {
                location: Location::Direct(6),
                access: Access::ReadOnly,
                kind: ValueKind::U8,
            },
            Register::Id => Descriptor {
                location: Location::Direct(7),
                access: Access::ReadWrite,
                kind: ValueKind::U8,
            },
            Register::SystemCheck => Descriptor {
                location: Location::Virtual,
                access: Access::WriteOnly,
                kind: ValueKind::U8,
            },
            Register::MotorsDriversStates => Descriptor {
                location: Location::Virtual,
                access: Access::ReadOnly,
                kind: ValueKind::U8,
            },
            Register::VoltageLimit => Descriptor {
                location: Location::Virtual,
                access: Access::ReadWrite,
                kind: ValueKind::F32,
            },
            Register::IntensityLimit => Descriptor {
                location: Location::Virtual,
                access: Access::ReadWrite,
                kind: ValueKind::F32,
            },
            Register::VelocityPid => Descriptor {
                location: Location::Virtual,
                access: Access::ReadWrite,
                kind: ValueKind::DiskValue,
            },
            Register::VelocityPGain => Descriptor {
                location: Location::Virtual,
                access: Access::ReadWrite,
                kind: ValueKind::F32,
            },
            Register::VelocityIGain => Descriptor {
                location: Location::Virtual,
                access: Access::ReadWrite,
                kind: ValueKind::F32,
            },
            Register::VelocityDGain => Descriptor {
                location: Location::Virtual,
                access: Access::ReadWrite,
                kind: ValueKind::F32,
            },
            Register::VelocityOutRamp => Descriptor {
                location: Location::Virtual,
                access: Access::ReadWrite,
                kind: ValueKind::F32,
            },
            Register::VelocityLowPassFilter => Descriptor {
                location: Location::Virtual,
                access: Access::ReadWrite,
                kind: ValueKind::F32,
            },
            Register::AnglePid => Descriptor {
                location: Location::Virtual,
                access: Access::ReadWrite,
                kind: ValueKind::Pid,
            },
            Register::AnglePGain => Descriptor {
                location: Location::Virtual,
                access: Access::ReadWrite,
                kind: ValueKind::F32,
            },
            Register::AngleIGain => Descriptor {
                location: Location::Virtual,
                access: Access::ReadWrite,
                kind: ValueKind::F32,
            },
            Register::AngleDGain => Descriptor {
                location: Location::Virtual,
                access: Access::ReadWrite,
                kind: ValueKind::F32,
            },
            Register::AngleVelocityLimit => Descriptor {
                location: Location::Virtual,
                access: Access::ReadWrite,
                kind: ValueKind::F32,
            },
            Register::TemperatureLimit => Descriptor {
                location: Location::Virtual,
                access: Access::ReadWrite,
                kind: ValueKind::F32,
            },
            Register::TorqueEnable => Descriptor {
                location: Location::Direct(20),
                access: Access::ReadWrite,
                kind: ValueKind::U8,
            },
            Register::GoalPosition => Descriptor {
                location: Location::Direct(50),
                access: Access::ReadWrite,
                kind: ValueKind::DiskValue,
            },
            Register::TopGoalPosition => Descriptor {
                location: Location::Within(Register::GoalPosition, Part::Top),
                access: Access::ReadWrite,
                kind: ValueKind::F32,
            },
            Register::MiddleGoalPosition => Descriptor {
                location: Location::Within(Register::GoalPosition, Part::Middle),
                access: Access::ReadWrite,
                kind: ValueKind::F32,
            },
            Register::BottomGoalPosition => Descriptor {
                location: Location::Within(Register::GoalPosition, Part::Bottom),
                access: Access::ReadWrite,
                kind: ValueKind::F32,
            },
            Register::PresentPositionSpeedLoad => Descriptor {
                location: Location::Direct(90),
                access: Access::ReadOnly,
                kind: ValueKind::PositionSpeedLoad,
            },
            Register::PresentPosition => Descriptor {
                location: Location::Within(Register::PresentPositionSpeedLoad, Part::Position),
                access: Access::ReadOnly,
                kind: ValueKind::DiskValue,
            },
            Register::TopPresentPosition => Descriptor {
                location: Location::Within(Register::PresentPosition, Part::Top),
                access: Access::ReadOnly,
                kind: ValueKind::F32,
            },
            Register::MiddlePresentPosition => Descriptor {
                location: Location::Within(Register::PresentPosition, Part::Middle),
                access: Access::ReadOnly,
                kind: ValueKind::F32,
            },
            Register::BottomPresentPosition => Descriptor {
                location: Location::Within(Register::PresentPosition, Part::Bottom),
                access: Access::ReadOnly,
                kind: ValueKind::F32,
            },
            Register::PresentSpeed => Descriptor {
                location: Location::Within(Register::PresentPositionSpeedLoad, Part::Speed),
                access: Access::ReadOnly,
                kind: ValueKind::DiskValue,
            },
            Register::TopPresentSpeed => Descriptor {
                location: Location::Within(Register::PresentSpeed, Part::Top),
                access: Access::ReadOnly,
                kind: ValueKind::F32,
            },
            Register::MiddlePresentSpeed => Descriptor {
                location: Location::Within(Register::PresentSpeed, Part::Middle),
                access: Access::ReadOnly,
                kind: ValueKind::F32,
            },
            Register::BottomPresentSpeed => Descriptor {
                location: Location::Within(Register::PresentSpeed, Part::Bottom),
                access: Access::ReadOnly,
                kind: ValueKind::F32,
            },
            Register::PresentLoad => Descriptor {
                location: Location::Within(Register::PresentPositionSpeedLoad, Part::Load),
                access: Access::ReadOnly,
                kind: ValueKind::DiskValue,
            },
            Register::TopPresentLoad => Descriptor {
                location: Location::Within(Register::PresentLoad, Part::Top),
                access: Access::ReadOnly,
                kind: ValueKind::F32,
            },
            Register::MiddlePresentLoad => Descriptor {
                location: Location::Within(Register::PresentLoad, Part::Middle),
                access: Access::ReadOnly,
                kind: ValueKind::F32,
            },
            Register::BottomPresentLoad => Descriptor {
                location: Location::Within(Register::PresentLoad, Part::Bottom),
                access: Access::ReadOnly,
                kind: ValueKind::F32,
            },
            Register::PresentTemperature => Descriptor {
                location: Location::Direct(130),
                access: Access::ReadOnly,
                kind: ValueKind::DiskValue,
            },
            Register::TopPresentTemperature => Descriptor {
                location: Location::Direct(130),
                access: Access::ReadOnly,
                kind: ValueKind::F32,
            },
            Register::MiddlePresentTemperature => Descriptor {
                location: Location::Direct(130),
                access: Access::ReadOnly,
                kind: ValueKind::F32,
            },
            Register::BottomPresentTemperature => Descriptor {
                location: Location::Direct(130),
                access: Access::ReadOnly,
                kind: ValueKind::F32,
            },
        }
    }

    /// Who may use the register.
    pub fn access(self) -> (a: Access)
        ensures
            a == self.descriptor().access,
    {
        self.descriptor().access
    }

    /// The type of value that the register holds.
    pub fn kind(self) -> (k: ValueKind)
        ensures
            k == self.descriptor().kind,
    {
        self.descriptor().kind
    }

    /// The register's address: `Virtual` where neither the register nor a
    /// block that it is a part of has a place on the wire.
    #[verifier::when_used_as_spec(spec_address)]
    pub fn address(self) -> (a: Address)
        ensures
            a == self.spec_address(),
        decreases 36 - self.spec_descriptor().kind.spec_size(),
    {
        match self.descriptor().location {
            Location::Direct(at) => Address::Wire(at),
            Location::Virtual => Address::Virtual,
            Location::Within(whole, part) => {
                proof {
                    lemma_table_consistent(self);
                }
                match whole.address() {
                    Address::Wire(at) => Address::Wire(at + part.offset()),
                    Address::Virtual => Address::Virtual,
                }
            },
        }
    }
}

/// Every part lies inside the composite that has it.
pub proof fn lemma_part_fits(part: Part)
    ensures
        part.offset() + part.kind().size() <= part.whole().size(),
{
}

/// The table agrees with itself. A register entered as a part of another
/// holds a value of the part's type, the other holds a composite that has
/// such a part, both offer the same access, and the register's address is the
/// other's address plus the part's offset. Every register that has an address
/// ends inside the device's 256-byte register space.
pub proof fn lemma_table_consistent(r: Register)
    ensures
        r.descriptor().location matches Location::Within(whole, part) ==> {
            &&& whole.descriptor().kind == part.whole()
            &&& r.descriptor().kind == part.kind()
            &&& r.descriptor().access == whole.descriptor().access
            &&& match whole.address() {
                Address::Wire(at) => r.address() == Address::Wire((at + part.offset()) as u8) && at
                    + part.offset() + r.descriptor().kind.size() <= 256,
                Address::Virtual => r.address() == Address::Virtual,
            }
        },
        r.address() matches Address::Wire(at) ==> at + r.descriptor().kind.size() <= 256,
{
    reveal_with_fuel(Register::spec_address, 3);
}

} // verus!
