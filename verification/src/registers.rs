//! The register catalog of the servo: each logical register has a fixed
//! address, a byte width of 1 or 2, and lives either in volatile RAM or in
//! the non-volatile EEPROM region, whose writes must be bracketed by clearing
//! and re-asserting the lock mark.

use vstd::prelude::*;

verus! {

/// The closed catalog of servo registers. The address mapping is a protocol
/// constant and is never inferred.
#[derive(Clone, Copy, Debug, PartialEq, Eq, Structural)]
pub enum ServoRegister {
    FirmwareMajorVersion,
    FirmwareSubVersion,
    ServoMainVersion,
    ServoSubVersion,
    ID,
    BaudRate,
    ReturnDelay,
    ResponseStatusLevel,
    MinAngleLimit,
    MaxAngleLimit,
    MaxTemperatureLimit,
    MaxInputVoltage,
    MinInputVoltage,
    MaxTorque,
    Phase,
    UnloadingCondition,
    LEDAlarmCondition,
    PProportionalCoeff,
    DDifferentialCoeff,
    IIntegralCoeff,
    MinStartupForce,
    ClockwiseInsensitiveArea,
    CounterclockwiseInsensitiveArea,
    ProtectionCurrent,
    AngularResolution,
    PositionCorrection,
    OperationMode,
    ProtectiveTorque,
    ProtectionTime,
    OverloadTorque,
    SpeedClosedLoopPCoeff,
    OverCurrentProtectionTime,
    VelocityClosedLoopICoeff,
    TorqueSwitch,
    Acceleration,
    TargetLocation,
    RunningTime,
    RunningSpeed,
    TorqueLimit,
    LockMark,
    CurrentLocation,
    CurrentSpeed,
    CurrentLoad,
    CurrentVoltage,
    CurrentTemperature,
    AsyncWriteFlag,
    ServoStatus,
    MobileSign,
    CurrentCurrent,
}

impl ServoRegister {
    /// The wire address of the register: a protocol constant.
    pub open spec fn spec_address(self) -> u8 {
        match self {
            ServoRegister::FirmwareMajorVersion => 0x00,
            ServoRegister::FirmwareSubVersion => 0x01,
            ServoRegister::ServoMainVersion => 0x03,
            ServoRegister::ServoSubVersion => 0x04,
            ServoRegister::ID => 0x05,
            ServoRegister::BaudRate => 0x06,
            ServoRegister::ReturnDelay => 0x07,
            ServoRegister::ResponseStatusLevel => 0x08,
            ServoRegister::MinAngleLimit => 0x09,
            ServoRegister::MaxAngleLimit => 0x0B,
            ServoRegister::MaxTemperatureLimit => 0x0D,
            ServoRegister::MaxInputVoltage => 0x0E,
            ServoRegister::MinInputVoltage => 0x0F,
            ServoRegister::MaxTorque => 0x10,
            ServoRegister::Phase => 0x12,
            ServoRegister::UnloadingCondition => 0x13,
            ServoRegister::LEDAlarmCondition => 0x14,
            ServoRegister::PProportionalCoeff => 0x15,
            ServoRegister::DDifferentialCoeff => 0x16,
            ServoRegister::IIntegralCoeff => 0x17,
            ServoRegister::MinStartupForce => 0x18,
            ServoRegister::ClockwiseInsensitiveArea => 0x1A,
            ServoRegister::CounterclockwiseInsensitiveArea => 0x1B,
            ServoRegister::ProtectionCurrent => 0x1C,
            ServoRegister::AngularResolution => 0x1E,
            ServoRegister::PositionCorrection => 0x1F,
            ServoRegister::OperationMode => 0x21,
            ServoRegister::ProtectiveTorque => 0x22,
            ServoRegister::ProtectionTime => 0x23,
            ServoRegister::OverloadTorque => 0x24,
            ServoRegister::SpeedClosedLoopPCoeff => 0x25,
            ServoRegister::OverCurrentProtectionTime => 0x26,
            ServoRegister::VelocityClosedLoopICoeff => 0x27,
            ServoRegister::TorqueSwitch => 0x28,
            ServoRegister::Acceleration => 0x29,
            ServoRegister::TargetLocation => 0x2A,
            ServoRegister::RunningTime => 0x2C,
            ServoRegister::RunningSpeed => 0x2E,
            ServoRegister::TorqueLimit => 0x30,
            ServoRegister::LockMark => 0x37,
            ServoRegister::CurrentLocation => 0x38,
            ServoRegister::CurrentSpeed => 0x3A,
            ServoRegister::CurrentLoad => 0x3C,
            ServoRegister::CurrentVoltage => 0x3E,
            ServoRegister::CurrentTemperature => 0x3F,
            ServoRegister::AsyncWriteFlag => 0x40,
            ServoRegister::ServoStatus => 0x41,
            ServoRegister::MobileSign => 0x42,
            ServoRegister::CurrentCurrent => 0x45,
        }
    }

    /// Returns the wire address of the register.
    pub fn address(self) -> (a: u8)
        ensures
            a == self.spec_address(),
    {
        match self {
            ServoRegister::FirmwareMajorVersion => 0x00,
            ServoRegister::FirmwareSubVersion => 0x01,
            ServoRegister::ServoMainVersion => 0x03,
            ServoRegister::ServoSubVersion => 0x04,
            ServoRegister::ID => 0x05,
            ServoRegister::BaudRate => 0x06,
            ServoRegister::ReturnDelay => 0x07,
            ServoRegister::ResponseStatusLevel => 0x08,
            ServoRegister::MinAngleLimit => 0x09,
            ServoRegister::MaxAngleLimit => 0x0B,
            ServoRegister::MaxTemperatureLimit => 0x0D,
            ServoRegister::MaxInputVoltage => 0x0E,
            ServoRegister::MinInputVoltage => 0x0F,
            ServoRegister::MaxTorque => 0x10,
            ServoRegister::Phase => 0x12,
            ServoRegister::UnloadingCondition => 0x13,
            ServoRegister::LEDAlarmCondition => 0x14,
            ServoRegister::PProportionalCoeff => 0x15,
            ServoRegister::DDifferentialCoeff => 0x16,
            ServoRegister::IIntegralCoeff => 0x17,
            ServoRegister::MinStartupForce => 0x18,
            ServoRegister::ClockwiseInsensitiveArea => 0x1A,
            ServoRegister::CounterclockwiseInsensitiveArea => 0x1B,
            ServoRegister::ProtectionCurrent => 0x1C,
            ServoRegister::AngularResolution => 0x1E,
            ServoRegister::PositionCorrection => 0x1F,
            ServoRegister::OperationMode => 0x21,
            ServoRegister::ProtectiveTorque => 0x22,
            ServoRegister::ProtectionTime => 0x23,
            ServoRegister::OverloadTorque => 0x24,
            ServoRegister::SpeedClosedLoopPCoeff => 0x25,
            ServoRegister::OverCurrentProtectionTime => 0x26,
            ServoRegister::VelocityClosedLoopICoeff => 0x27,
            ServoRegister::TorqueSwitch => 0x28,
            ServoRegister::Acceleration => 0x29,
            ServoRegister::TargetLocation => 0x2A,
            ServoRegister::RunningTime => 0x2C,
            ServoRegister::RunningSpeed => 0x2E,
            ServoRegister::TorqueLimit => 0x30,
            ServoRegister::LockMark => 0x37,
            ServoRegister::CurrentLocation => 0x38,
            ServoRegister::CurrentSpeed => 0x3A,
            ServoRegister::CurrentLoad => 0x3C,
            ServoRegister::CurrentVoltage => 0x3E,
            ServoRegister::CurrentTemperature => 0x3F,
            ServoRegister::AsyncWriteFlag => 0x40,
            ServoRegister::ServoStatus => 0x41,
            ServoRegister::MobileSign => 0x42,
            ServoRegister::CurrentCurrent => 0x45,
        }
    }

    /// The byte width of the register (1 or 2): a protocol constant.
    pub open spec fn spec_width(self) -> u8 {
        match self {
            ServoRegister::MinAngleLimit => 2,
            ServoRegister::MaxAngleLimit => 2,
            ServoRegister::MaxTorque => 2,
            ServoRegister::MinStartupForce => 2,
            ServoRegister::ProtectionCurrent => 2,
            ServoRegister::PositionCorrection => 2,
            ServoRegister::TargetLocation => 2,
            ServoRegister::RunningTime => 2,
            ServoRegister::RunningSpeed => 2,
            ServoRegister::TorqueLimit => 2,
            ServoRegister::CurrentLocation => 2,
            ServoRegister::CurrentSpeed => 2,
            ServoRegister::CurrentLoad => 2,
            ServoRegister::CurrentCurrent => 2,
            _ => 1,
        }
    }

    /// Returns the byte width of the register.
    pub fn width(self) -> (w: u8)
        ensures
            w == self.spec_width(),
    {
        match self {
            ServoRegister::MinAngleLimit => 2,
            ServoRegister::MaxAngleLimit => 2,
            ServoRegister::MaxTorque => 2,
            ServoRegister::MinStartupForce => 2,
            ServoRegister::ProtectionCurrent => 2,
            ServoRegister::PositionCorrection => 2,
            ServoRegister::TargetLocation => 2,
            ServoRegister::RunningTime => 2,
            ServoRegister::RunningSpeed => 2,
            ServoRegister::TorqueLimit => 2,
            ServoRegister::CurrentLocation => 2,
            ServoRegister::CurrentSpeed => 2,
            ServoRegister::CurrentLoad => 2,
            ServoRegister::CurrentCurrent => 2,
            _ => 1,
        }
    }

    /// True of the non-volatile (EEPROM) registers, which require the lock
    /// mark to be cleared before a write and re-asserted afterwards.
    /// The EEPROM region of this servo family ends just before the torque
    /// switch register.
    pub open spec fn spec_is_eeprom(self) -> bool {
        self.spec_address() < 0x28
    }

    /// Returns whether the register lives in the EEPROM (non-volatile) domain.
    pub fn is_eeprom(self) -> (e: bool)
        ensures
            e == self.spec_is_eeprom(),
    {
        self.address() < 0x28
    }
}

/// State of the EEPROM write lock: writes to non-volatile registers are only
/// honoured while the lock is cleared.
#[derive(Clone, Copy, Debug, PartialEq, Eq, Structural)]
pub enum MemoryLockState {
    Unlocked,
    Locked,
}

impl MemoryLockState {
    /// The byte written to the lock-mark register for this state.
    pub open spec fn spec_byte(self) -> u8 {
        match self {
            MemoryLockState::Unlocked => 0,
            MemoryLockState::Locked => 1,
        }
    }

    /// Returns the byte written to the lock-mark register for this state.
    pub fn byte(self) -> (b: u8)
        ensures
            b == self.spec_byte(),
    {
        match self {
            MemoryLockState::Unlocked => 0,
            MemoryLockState::Locked => 1,
        }
    }
}

/// Operating mode of a servo.
#[derive(Clone, Copy, Debug, PartialEq, Eq, Structural)]
pub enum ServoMode {
    Position,
    ConstantSpeed,
    PWMOpenLoop,
    StepServo,
}

impl ServoMode {
    /// The mode byte as written to the operation-mode register.
    pub open spec fn spec_byte(self) -> u8 {
        match self {
            ServoMode::Position => 0,
            ServoMode::ConstantSpeed => 1,
            ServoMode::PWMOpenLoop => 2,
            ServoMode::StepServo => 3,
        }
    }

    /// Returns the mode byte as written to the operation-mode register.
    pub fn byte(self) -> (b: u8)
        ensures
            b == self.spec_byte(),
    {
        match self {
            ServoMode::Position => 0,
            ServoMode::ConstantSpeed => 1,
            ServoMode::PWMOpenLoop => 2,
            ServoMode::StepServo => 3,
        }
    }
}

/// Direction of continuous rotation.
#[derive(Clone, Copy, Debug, PartialEq, Eq, Structural)]
pub enum ServoDirection {
    Clockwise,
    Counterclockwise,
}

/// Returns the opposite rotation direction.
pub fn opposite_direction(direction: ServoDirection) -> (r: ServoDirection)
    ensures
        direction == ServoDirection::Clockwise ==> r == ServoDirection::Counterclockwise,
        direction == ServoDirection::Counterclockwise ==> r == ServoDirection::Clockwise,
{
    match direction {
        ServoDirection::Clockwise => ServoDirection::Counterclockwise,
        ServoDirection::Counterclockwise => ServoDirection::Clockwise,
    }
}

/// Torque switch setting.
#[derive(Clone, Copy, Debug, PartialEq, Eq, Structural)]
pub enum TorqueMode {
    Disabled,
    Enabled,
    Stiff,
}

impl TorqueMode {
    /// The byte written to the torque-switch register for this mode.
    pub open spec fn spec_byte(self) -> u8 {
        match self {
            TorqueMode::Disabled => 0,
            TorqueMode::Enabled => 1,
            TorqueMode::Stiff => 2,
        }
    }

    /// Returns the byte written to the torque-switch register for this mode.
    pub fn byte(self) -> (b: u8)
        ensures
            b == self.spec_byte(),
    {
        match self {
            TorqueMode::Disabled => 0,
            TorqueMode::Enabled => 1,
            TorqueMode::Stiff => 2,
        }
    }
}

/// The torque mode that toggling flips to, given the current torque-switch
/// register value: torque off turns on, anything else turns off.
pub fn toggle_torque_mode(torque_switch: u8) -> (m: TorqueMode)
    ensures
        torque_switch == 0 ==> m == TorqueMode::Enabled,
        torque_switch != 0 ==> m == TorqueMode::Disabled,
{
    if torque_switch == 0 {
        TorqueMode::Enabled
    } else {
        TorqueMode::Disabled
    }
}

} // verus!
