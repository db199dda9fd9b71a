use orbita::register::{Access, Address, Descriptor, Location, Part, Register, ValueKind};

const ALL: [Register; 41] = [
    Register::ModelNumber,
    Register::FirmwareVersion,
    Register::Id,
    Register::SystemCheck,
    Register::MotorsDriversStates,
    Register::VoltageLimit,
    Register::IntensityLimit,
    Register::VelocityPid,
    Register::VelocityPGain,
    Register::VelocityIGain,
    Register::VelocityDGain,
    Register::VelocityOutRamp,
    Register::VelocityLowPassFilter,
    Register::AnglePid,
    Register::AnglePGain,
    Register::AngleIGain,
    Register::AngleDGain,
    Register::AngleVelocityLimit,
    Register::TemperatureLimit,
    Register::TorqueEnable,
    Register::GoalPosition,
    Register::TopGoalPosition,
    Register::MiddleGoalPosition,
    Register::BottomGoalPosition,
    Register::PresentPositionSpeedLoad,
    Register::PresentPosition,
    Register::TopPresentPosition,
    Register::MiddlePresentPosition,
    Register::BottomPresentPosition,
    Register::PresentSpeed,
    Register::TopPresentSpeed,
    Register::MiddlePresentSpeed,
    Register::BottomPresentSpeed,
    Register::PresentLoad,
    Register::TopPresentLoad,
    Register::MiddlePresentLoad,
    Register::BottomPresentLoad,
    Register::PresentTemperature,
    Register::TopPresentTemperature,
    Register::MiddlePresentTemperature,
    Register::BottomPresentTemperature,
];

#[test]
fn access_modes_offer_what_they_say() {
    assert!(Access::ReadOnly.can_read());
    assert!(!Access::ReadOnly.can_write());
    assert!(!Access::WriteOnly.can_read());
    assert!(Access::WriteOnly.can_write());
    assert!(Access::ReadWrite.can_read());
    assert!(Access::ReadWrite.can_write());
}

#[test]
fn value_kinds_have_their_sizes() {
    assert_eq!(ValueKind::U8.size(), 1);
    assert_eq!(ValueKind::U16.size(), 2);
    assert_eq!(ValueKind::F32.size(), 4);
    assert_eq!(ValueKind::DiskValue.size(), 12);
    assert_eq!(ValueKind::Pid.size(), 12);
    assert_eq!(ValueKind::PositionSpeedLoad.size(), 36);
}

#[test]
fn parts_have_their_offsets() {
    assert_eq!(Part::Top.offset(), 0);
    assert_eq!(Part::Middle.offset(), 4);
    assert_eq!(Part::Bottom.offset(), 8);
    assert_eq!(Part::Position.offset(), 0);
    assert_eq!(Part::Speed.offset(), 12);
    assert_eq!(Part::Load.offset(), 24);
}

#[test]
fn parts_lie_inside_their_composite() {
    let parts =
        [Part::Top, Part::Middle, Part::Bottom, Part::Position, Part::Speed, Part::Load];
    for part in parts {
        assert!(usize::from(part.offset()) + part.kind().size() <= part.whole().size());
    }
    for part in [Part::Top, Part::Middle, Part::Bottom] {
        assert_eq!(part.whole(), ValueKind::DiskValue);
        assert_eq!(part.kind(), ValueKind::F32);
    }
    for part in [Part::Position, Part::Speed, Part::Load] {
        assert_eq!(part.whole(), ValueKind::PositionSpeedLoad);
        assert_eq!(part.kind(), ValueKind::DiskValue);
    }
}

#[test]
fn directly_addressed_registers() {
    let expected = [
        (Register::ModelNumber, 0, Access::ReadOnly, ValueKind::U16),
        (Register::FirmwareVersion, 6, Access::ReadOnly, ValueKind::U8),
        (Register::Id, 7, Access::ReadWrite, ValueKind::U8),
        (Register::TorqueEnable, 20, Access::ReadWrite, ValueKind::U8),
        (Register::GoalPosition, 50, Access::ReadWrite, ValueKind::DiskValue),
        (Register::PresentPositionSpeedLoad, 90, Access::ReadOnly, ValueKind::PositionSpeedLoad),
        (Register::PresentTemperature, 130, Access::ReadOnly, ValueKind::DiskValue),
    ];
    for (register, at, access, kind) in expected {
        assert_eq!(
            register.descriptor(),
            Descriptor { location: Location::Direct(at), access, kind }
        );
        assert_eq!(register.address(), Address::Wire(at));
        assert_eq!(register.access(), access);
        assert_eq!(register.kind(), kind);
    }
}

#[test]
fn virtual_registers() {
    let expected = [
        (Register::SystemCheck, Access::WriteOnly, ValueKind::U8),
        (Register::MotorsDriversStates, Access::ReadOnly, ValueKind::U8),
        (Register::VoltageLimit, Access::ReadWrite, ValueKind::F32),
        (Register::IntensityLimit, Access::ReadWrite, ValueKind::F32),
        (Register::VelocityPid, Access::ReadWrite, ValueKind::DiskValue),
        (Register::VelocityPGain, Access::ReadWrite, ValueKind::F32),
        (Register::VelocityIGain, Access::ReadWrite, ValueKind::F32),
        (Register::VelocityDGain, Access::ReadWrite, ValueKind::F32),
        (Register::VelocityOutRamp, Access::ReadWrite, ValueKind::F32),
        (Register::VelocityLowPassFilter, Access::ReadWrite, ValueKind::F32),
        (Register::AnglePid, Access::ReadWrite, ValueKind::Pid),
        (Register::AnglePGain, Access::ReadWrite, ValueKind::F32),
        (Register::AngleIGain, Access::ReadWrite, ValueKind::F32),
        (Register::AngleDGain, Access::ReadWrite, ValueKind::F32),
        (Register::AngleVelocityLimit, Access::ReadWrite, ValueKind::F32),
        (Register::TemperatureLimit, Access::ReadWrite, ValueKind::F32),
    ];
    for (register, access, kind) in expected {
        assert_eq!(register.descriptor(), Descriptor { location: Location::Virtual, access, kind });
        assert_eq!(register.address(), Address::Virtual);
        assert_eq!(register.access(), access);
        assert_eq!(register.kind(), kind);
    }
}

#[test]
fn registers_that_are_parts_of_a_block() {
    let expected = [
        (Register::TopGoalPosition, Register::GoalPosition, Part::Top, 50),
        (Register::MiddleGoalPosition, Register::GoalPosition, Part::Middle, 54),
        (Register::BottomGoalPosition, Register::GoalPosition, Part::Bottom, 58),
        (Register::PresentPosition, Register::PresentPositionSpeedLoad, Part::Position, 90),
        (Register::TopPresentPosition, Register::PresentPosition, Part::Top, 90),
        (Register::MiddlePresentPosition, Register::PresentPosition, Part::Middle, 94),
        (Register::BottomPresentPosition, Register::PresentPosition, Part::Bottom, 98),
        (Register::PresentSpeed, Register::PresentPositionSpeedLoad, Part::Speed, 102),
        (Register::TopPresentSpeed, Register::PresentSpeed, Part::Top, 102),
        (Register::MiddlePresentSpeed, Register::PresentSpeed, Part::Middle, 106),
        (Register::BottomPresentSpeed, Register::PresentSpeed, Part::Bottom, 110),
        (Register::PresentLoad, Register::PresentPositionSpeedLoad, Part::Load, 114),
        (Register::TopPresentLoad, Register::PresentLoad, Part::Top, 114),
        (Register::MiddlePresentLoad, Register::PresentLoad, Part::Middle, 118),
        (Register::BottomPresentLoad, Register::PresentLoad, Part::Bottom, 122),
    ];
    for (register, whole, part, at) in expected {
        assert_eq!(register.descriptor().location, Location::Within(whole, part));
        assert_eq!(register.address(), Address::Wire(at));
        assert_eq!(register.kind(), part.kind());
        assert_eq!(whole.kind(), part.whole());
        assert_eq!(register.access(), whole.access());
    }
}

#[test]
fn goal_position_parts_are_read_write_and_present_parts_read_only() {
    for register in [
        Register::TopGoalPosition,
        Register::MiddleGoalPosition,
        Register::BottomGoalPosition,
    ] {
        assert_eq!(register.access(), Access::ReadWrite);
        assert_eq!(register.kind(), ValueKind::F32);
    }
    for register in [
        Register::PresentPosition,
        Register::PresentSpeed,
        Register::PresentLoad,
        Register::TopPresentPosition,
        Register::MiddlePresentSpeed,
        Register::BottomPresentLoad,
    ] {
        assert_eq!(register.access(), Access::ReadOnly);
    }
}

#[test]
fn temperature_names_share_one_address() {
    for register in [
        Register::TopPresentTemperature,
        Register::MiddlePresentTemperature,
        Register::BottomPresentTemperature,
    ] {
        assert_eq!(
            register.descriptor(),
            Descriptor {
                location: Location::Direct(130),
                access: Access::ReadOnly,
                kind: ValueKind::F32,
            }
        );
        assert_eq!(register.address(), Address::Wire(130));
    }
}

#[test]
fn middle_present_speed_is_sixteen_bytes_into_the_block() {
    let base = match Register::PresentPositionSpeedLoad.address() {
        Address::Wire(at) => at,
        Address::Virtual => panic!("the combined block has an address"),
    };
    assert_eq!(Register::MiddlePresentSpeed.address(), Address::Wire(base + 12 + 4));
    assert_eq!(Register::MiddlePresentSpeed.address(), Address::Wire(106));
}

#[test]
fn address_of_a_part_is_the_block_address_plus_the_offset() {
    let mut parts = 0;
    for register in ALL {
        if let Location::Within(whole, part) = register.descriptor().location {
            parts += 1;
            match (whole.address(), register.address()) {
                (Address::Wire(base), Address::Wire(at)) => {
                    assert_eq!(u16::from(at), u16::from(base) + u16::from(part.offset()));
                }
                (whole_address, address) => {
                    assert_eq!(whole_address, Address::Virtual);
                    assert_eq!(address, Address::Virtual);
                }
            }
        }
    }
    assert_eq!(parts, 15);
}

#[test]
fn every_addressed_register_ends_inside_the_register_space() {
    let mut addressed = 0;
    for register in ALL {
        match (register.descriptor().location, register.address()) {
            (Location::Virtual, address) => assert_eq!(address, Address::Virtual),
            (Location::Direct(at), address) => {
                addressed += 1;
                assert_eq!(address, Address::Wire(at));
                assert!(usize::from(at) + register.kind().size() <= 256);
            }
            (Location::Within(_, _), Address::Wire(at)) => {
                addressed += 1;
                assert!(usize::from(at) + register.kind().size() <= 256);
            }
            (Location::Within(_, _), Address::Virtual) => {
                panic!("every block with parts has an address")
            }
        }
    }
    assert_eq!(addressed, 25);
}

#[test]
fn getters_agree_with_the_row() {
    for register in ALL {
        let row = register.descriptor();
        assert_eq!(register.access(), row.access);
        assert_eq!(register.kind(), row.kind);
    }
}
