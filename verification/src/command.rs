//! The controller's operation codes.

use vstd::prelude::*;

verus! {

/// An operation of the controller.
///
/// The set is closed: these are the operations of the controller's register
/// map, each with the 16-bit code that a command transaction carries.
#[derive(Debug, Clone, Copy, PartialEq, Eq, Structural)]
pub enum Command {
    Nop,
    SoftReset,
    GetDisplayId,
    GetDsiErr,
    GetPowerMode,
    GetAddressMode,
    GetPixelFormat,
    GetDisplayMode,
    GetSignalMode,
    GetDiagnosticResult,
    EnterSleepMode,
    ExitSleepMode,
    EnterPartialMode,
    EnterNormalMode,
    ExitInvertMode,
    EnterInvertMode,
    SetAllPixelOff,
    SetAllPixelOn,
    GammaCurveSelect,
    SetDisplayOff,
    SetDisplayOn,
    SetColumnAddress,
    SetPageAddress,
    WriteMemoryStart,
    ReadMemoryStart,
    SetPartialArea,
    SetScrollArea,
    SetTearOff,
    SetTearOn,
    SetAddressMode,
    ExitIdleMode,
    EnterIdleMode,
    SetPixelFormat,
    WriteMemoryContinue,
    ReadMemoryContinue,
    SetTearScanline,
    GetScanline,
    SetDeepStandbyMode,
    SetProfileValueForDisplay,
    SetDisplayBrightness,
    GetDisplayBrightness,
    SetControlDisplay,
    GetControlDisplay,
    SetCabcMode,
    GetCabcMode,
    SetHysteresis,
    SetGammaSetting,
    GetFsValueMsbs,
    GetFsValueLsbs,
    GetMedianFilterFsValueMsbs,
    GetMedianFilterFsValueLsbs,
    SetCabcMinBrightness,
    GetCabcMinBrightness,
    SetLightSensorCoefficient,
    GetLsccMsbs,
    GetLsccLsbs,
    GetBlackWhiteLowBit,
    GetBkx,
    GetBky,
    GetWx,
    GetWy,
    GetRedGreenLowBit,
    GetRx,
    GetRy,
    GetGx,
    GetGy,
    GetBlueAcolorLowBit,
    GetBx,
    GetBy,
    GetAx,
    GetAy,
    ReadDdbStart,
    ReadDdbContinue,
    ReadFirstChecksum,
    ReadContinueChecksum,
    ReadId1,
    ReadId2,
    ReadId3,
}

impl Command {
    /// The 16-bit code of each operation, as the register map fixes it.
    pub open spec fn code_of(&self) -> u16 {
        match self {
            Command::Nop => 0x0000,
            Command::SoftReset => 0x0100,
            Command::GetDisplayId => 0x0400,
            Command::GetDsiErr => 0x0500,
            Command::GetPowerMode => 0x0A00,
            Command::GetAddressMode => 0x0B00,
            Command::GetPixelFormat => 0x0C00,
            Command::GetDisplayMode => 0x0D00,
            Command::GetSignalMode => 0x0E00,
            Command::GetDiagnosticResult => 0x0F00,
            Command::EnterSleepMode => 0x1000,
            Command::ExitSleepMode => 0x1100,
            Command::EnterPartialMode => 0x1200,
            Command::EnterNormalMode => 0x1300,
            Command::ExitInvertMode => 0x2000,
            Command::EnterInvertMode => 0x2100,
            Command::SetAllPixelOff => 0x2200,
            Command::SetAllPixelOn => 0x2300,
            Command::GammaCurveSelect => 0x2600,
            Command::SetDisplayOff => 0x2800,
            Command::SetDisplayOn => 0x2900,
            Command::SetColumnAddress => 0x2A00,
            Command::SetPageAddress => 0x2B00,
            Command::WriteMemoryStart => 0x2C00,
            Command::ReadMemoryStart => 0x2E00,
            Command::SetPartialArea => 0x3000,
            Command::SetScrollArea => 0x3300,
            Command::SetTearOff => 0x3400,
            Command::SetTearOn => 0x3500,
            Command::SetAddressMode => 0x3600,
            Command::ExitIdleMode => 0x3800,
            Command::EnterIdleMode => 0x3900,
            Command::SetPixelFormat => 0x3A00,
            Command::WriteMemoryContinue => 0x3C00,
            Command::ReadMemoryContinue => 0x3E00,
            Command::SetTearScanline => 0x4400,
            Command::GetScanline => 0x4500,
            Command::SetDeepStandbyMode => 0x4F00,
            Command::SetProfileValueForDisplay => 0x5000,
            Command::SetDisplayBrightness => 0x5100,
            Command::GetDisplayBrightness => 0x5200,
            Command::SetControlDisplay => 0x5300,
            Command::GetControlDisplay => 0x5400,
            Command::SetCabcMode => 0x5500,
            Command::GetCabcMode => 0x5600,
            Command::SetHysteresis => 0x5700,
            Command::SetGammaSetting => 0x5800,
            Command::GetFsValueMsbs => 0x5A00,
            Command::GetFsValueLsbs => 0x5B00,
            Command::GetMedianFilterFsValueMsbs => 0x5C00,
            Command::GetMedianFilterFsValueLsbs => 0x5D00,
            Command::SetCabcMinBrightness => 0x5E00,
            Command::GetCabcMinBrightness => 0x5F00,
            Command::SetLightSensorCoefficient => 0x6500,
            Command::GetLsccMsbs => 0x6600,
            Command::GetLsccLsbs => 0x6700,
            Command::GetBlackWhiteLowBit => 0x7000,
            Command::GetBkx => 0x7100,
            Command::GetBky => 0x7200,
            Command::GetWx => 0x7300,
            Command::GetWy => 0x7400,
            Command::GetRedGreenLowBit => 0x7500,
            Command::GetRx => 0x7600,
            Command::GetRy => 0x7700,
            Command::GetGx => 0x7800,
            Command::GetGy => 0x7900,
            Command::GetBlueAcolorLowBit => 0x7A00,
            Command::GetBx => 0x7B00,
            Command::GetBy => 0x7C00,
            Command::GetAx => 0x7D00,
            Command::GetAy => 0x7E00,
            Command::ReadDdbStart => 0xA100,
            Command::ReadDdbContinue => 0xA800,
            Command::ReadFirstChecksum => 0xAA00,
            Command::ReadContinueChecksum => 0xAF00,
            Command::ReadId1 => 0xDA00,
            Command::ReadId2 => 0xDB00,
            Command::ReadId3 => 0xDC00,
        }
    }

    /// The code that a command transaction carries for this operation.
    #[verifier::when_used_as_spec(code_of)]
    pub fn code(&self) -> (code: u16)
        ensures
            code == self.code_of(),
    {
        match self {
            Command::Nop => 0x0000,
            Command::SoftReset => 0x0100,
            Command::GetDisplayId => 0x0400,
            Command::GetDsiErr => 0x0500,
            Command::GetPowerMode => 0x0A00,
            Command::GetAddressMode => 0x0B00,
            Command::GetPixelFormat => 0x0C00,
            Command::GetDisplayMode => 0x0D00,
            Command::GetSignalMode => 0x0E00,
            Command::GetDiagnosticResult => 0x0F00,
            Command::EnterSleepMode => 0x1000,
            Command::ExitSleepMode => 0x1100,
            Command::EnterPartialMode => 0x1200,
            Command::EnterNormalMode => 0x1300,
            Command::ExitInvertMode => 0x2000,
            Command::EnterInvertMode => 0x2100,
            Command::SetAllPixelOff => 0x2200,
            Command::SetAllPixelOn => 0x2300,
            Command::GammaCurveSelect => 0x2600,
            Command::SetDisplayOff => 0x2800,
            Command::SetDisplayOn => 0x2900,
            Command::SetColumnAddress => 0x2A00,
            Command::SetPageAddress => 0x2B00,
            Command::WriteMemoryStart => 0x2C00,
            Command::ReadMemoryStart => 0x2E00,
            Command::SetPartialArea => 0x3000,
            Command::SetScrollArea => 0x3300,
            Command::SetTearOff => 0x3400,
            Command::SetTearOn => 0x3500,
            Command::SetAddressMode => 0x3600,
            Command::ExitIdleMode => 0x3800,
            Command::EnterIdleMode => 0x3900,
            Command::SetPixelFormat => 0x3A00,
            Command::WriteMemoryContinue => 0x3C00,
            Command::ReadMemoryContinue => 0x3E00,
            Command::SetTearScanline => 0x4400,
            Command::GetScanline => 0x4500,
            Command::SetDeepStandbyMode => 0x4F00,
            Command::SetProfileValueForDisplay => 0x5000,
            Command::SetDisplayBrightness => 0x5100,
            Command::GetDisplayBrightness => 0x5200,
            Command::SetControlDisplay => 0x5300,
            Command::GetControlDisplay => 0x5400,
            Command::SetCabcMode => 0x5500,
            Command::GetCabcMode => 0x5600,
            Command::SetHysteresis => 0x5700,
            Command::SetGammaSetting => 0x5800,
            Command::GetFsValueMsbs => 0x5A00,
            Command::GetFsValueLsbs => 0x5B00,
            Command::GetMedianFilterFsValueMsbs => 0x5C00,
            Command::GetMedianFilterFsValueLsbs => 0x5D00,
            Command::SetCabcMinBrightness => 0x5E00,
            Command::GetCabcMinBrightness => 0x5F00,
            Command::SetLightSensorCoefficient => 0x6500,
            Command::GetLsccMsbs => 0x6600,
            Command::GetLsccLsbs => 0x6700,
            Command::GetBlackWhiteLowBit => 0x7000,
            Command::GetBkx => 0x7100,
            Command::GetBky => 0x7200,
            Command::GetWx => 0x7300,
            Command::GetWy => 0x7400,
            Command::GetRedGreenLowBit => 0x7500,
            Command::GetRx => 0x7600,
            Command::GetRy => 0x7700,
            Command::GetGx => 0x7800,
            Command::GetGy => 0x7900,
            Command::GetBlueAcolorLowBit => 0x7A00,
            Command::GetBx => 0x7B00,
            Command::GetBy => 0x7C00,
            Command::GetAx => 0x7D00,
            Command::GetAy => 0x7E00,
            Command::ReadDdbStart => 0xA100,
            Command::ReadDdbContinue => 0xA800,
            Command::ReadFirstChecksum => 0xAA00,
            Command::ReadContinueChecksum => 0xAF00,
            Command::ReadId1 => 0xDA00,
            Command::ReadId2 => 0xDB00,
            Command::ReadId3 => 0xDC00,
        }
    }
}

/// Distinct operations have distinct codes.
pub proof fn code_injective(a: Command, b: Command)
    requires
        a.code() == b.code(),
    ensures
        a == b,
{
}

/// Every code names a register in its high byte; the low byte is zero.
pub proof fn code_low_byte_zero(command: Command)
    ensures
        command.code() % 256 == 0,
{
}

} // verus!
