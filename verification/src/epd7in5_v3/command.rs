//! Opcodes of the controller of the 7.5" (V3) panel.
use vstd::prelude::*;

verus! {

/// A command of the 7.5" (V3) panel's controller. What each one does in
/// full is in the controller's data sheet.
#[derive(Clone, Copy, PartialEq, Eq, Structural, Debug)]
pub enum Command {
    /// Resolution, LUT selection, pixel mode, scan and shift direction, booster switch, soft reset.
    PanelSetting,
    /// Selects internal or external power.
    PowerSetting,
    /// Powers the driver down along its power-off sequence; register data is kept.
    PowerOff,
    /// Sets the power-off sequence.
    PowerOffSequenceSetting,
    /// Powers the driver up along its power-on sequence.
    PowerOn,
    /// Sets the booster soft start.
    BoosterSoftStart,
    /// Enters deep sleep; takes the check code 0xA5, and only a hardware reset wakes the chip.
    DeepSleep,
    /// Starts writing the black/white (or old) plane into SRAM.
    DataStartTransmission1,
    /// Stops a data transmission.
    DataStop,
    /// Refreshes the display from SRAM and the LUTs.
    DisplayRefresh,
    /// Starts writing the red (or new) plane into SRAM.
    DataStartTransmission2,
    /// Dual SPI mode.
    DualSpi,
    /// Builds the VCOM look-up table.
    LutForVcom,
    /// Builds the black look-up table.
    LutBlack,
    /// Builds the white look-up table.
    LutWhite,
    /// Builds the first gray look-up table.
    LutGray1,
    /// Builds the second gray look-up table.
    LutGray2,
    /// Builds the red look-up table 0.
    LutRed0,
    /// Builds the red look-up table 1.
    LutRed1,
    /// Builds the red look-up table 2.
    LutRed2,
    /// Builds the red look-up table 3.
    LutRed3,
    /// Builds the XON look-up table.
    LutXon,
    /// Controls the PLL clock frequency.
    PllControl,
    /// Reads the temperature that the sensor measured.
    TemperatureSensor,
    /// Selects the internal or the external temperature sensor.
    TemperatureCalibration,
    /// Writes to the external temperature sensor.
    TemperatureSensorWrite,
    /// Reads from the external temperature sensor.
    TemperatureSensorRead,
    /// Sets the interval between VCOM and data output.
    VcomAndDataIntervalSetting,
    /// Reads the low-power flag.
    LowPowerDetection,
    /// Sets the non-overlap period of gate and source.
    TconSetting,
    /// Sets the resolution; overrides the one of the panel setting.
    TconResolution,
    /// Lets the host reach the external flash memory.
    SpiFlashControl,
    /// Reads the LUT and chip revision.
    Revision,
    /// Reads the status of the chip.
    GetStatus,
    /// Sets up automatic VCOM sensing.
    AutoMeasurementVcom,
    /// Reads the VCOM value.
    ReadVcomValue,
    /// Sets the VCOM DC value.
    VcmDcSetting,
}

impl Command {
    /// The register address that selects the command.
    pub open spec fn code(self) -> u8 {
        match self {
            Command::PanelSetting => 0x00,
            Command::PowerSetting => 0x01,
            Command::PowerOff => 0x02,
            Command::PowerOffSequenceSetting => 0x03,
            Command::PowerOn => 0x04,
            Command::BoosterSoftStart => 0x06,
            Command::DeepSleep => 0x07,
            Command::DataStartTransmission1 => 0x10,
            Command::DataStop => 0x11,
            Command::DisplayRefresh => 0x12,
            Command::DataStartTransmission2 => 0x13,
            Command::DualSpi => 0x15,
            Command::LutForVcom => 0x20,
            Command::LutBlack => 0x21,
            Command::LutWhite => 0x22,
            Command::LutGray1 => 0x23,
            Command::LutGray2 => 0x24,
            Command::LutRed0 => 0x25,
            Command::LutRed1 => 0x26,
            Command::LutRed2 => 0x27,
            Command::LutRed3 => 0x28,
            Command::LutXon => 0x29,
            Command::PllControl => 0x30,
            Command::TemperatureSensor => 0x40,
            Command::TemperatureCalibration => 0x41,
            Command::TemperatureSensorWrite => 0x42,
            Command::TemperatureSensorRead => 0x43,
            Command::VcomAndDataIntervalSetting => 0x50,
            Command::LowPowerDetection => 0x51,
            Command::TconSetting => 0x60,
            Command::TconResolution => 0x61,
            Command::SpiFlashControl => 0x65,
            Command::Revision => 0x70,
            Command::GetStatus => 0x71,
            Command::AutoMeasurementVcom => 0x80,
            Command::ReadVcomValue => 0x81,
            Command::VcmDcSetting => 0x82,
        }
    }

    /// Returns the address of the command.
    pub fn address(self) -> (a: u8)
        ensures
            a == self.code(),
    {
        match self {
            Command::PanelSetting => 0x00,
            Command::PowerSetting => 0x01,
            Command::PowerOff => 0x02,
            Command::PowerOffSequenceSetting => 0x03,
            Command::PowerOn => 0x04,
            Command::BoosterSoftStart => 0x06,
            Command::DeepSleep => 0x07,
            Command::DataStartTransmission1 => 0x10,
            Command::DataStop => 0x11,
            Command::DisplayRefresh => 0x12,
            Command::DataStartTransmission2 => 0x13,
            Command::DualSpi => 0x15,
            Command::LutForVcom => 0x20,
            Command::LutBlack => 0x21,
            Command::LutWhite => 0x22,
            Command::LutGray1 => 0x23,
            Command::LutGray2 => 0x24,
            Command::LutRed0 => 0x25,
            Command::LutRed1 => 0x26,
            Command::LutRed2 => 0x27,
            Command::LutRed3 => 0x28,
            Command::LutXon => 0x29,
            Command::PllControl => 0x30,
            Command::TemperatureSensor => 0x40,
            Command::TemperatureCalibration => 0x41,
            Command::TemperatureSensorWrite => 0x42,
            Command::TemperatureSensorRead => 0x43,
            Command::VcomAndDataIntervalSetting => 0x50,
            Command::LowPowerDetection => 0x51,
            Command::TconSetting => 0x60,
            Command::TconResolution => 0x61,
            Command::SpiFlashControl => 0x65,
            Command::Revision => 0x70,
            Command::GetStatus => 0x71,
            Command::AutoMeasurementVcom => 0x80,
            Command::ReadVcomValue => 0x81,
            Command::VcmDcSetting => 0x82,
        }
    }
}

/// No two commands share an address.
pub proof fn lemma_addresses_differ(a: Command, b: Command)
    requires
        a.code() == b.code(),
    ensures
        a == b,
{
}

} // verus!
