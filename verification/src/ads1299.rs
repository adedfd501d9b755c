//! ADS1299 analog-front-end register map: named register addresses, bit-field
//! constants, and the sample-rate and gain settings the client writes through
//! the `wreg` command.

#![allow(non_camel_case_types)]

use vstd::prelude::*;

verus! {

/// Number of analog channels on the ADS1299.
pub const NUM_CHANNELS: usize = 8;

/// SPI-level system command opcodes of the chip.
#[derive(Clone, Copy, Debug, PartialEq, Eq, Structural)]
pub enum SystemCommands {
    WAKEUP,
    STANDBY,
    RESET,
    START,
    STOP,
}

impl SystemCommands {
    pub open spec fn spec_value(self) -> u8 {
        match self {
            SystemCommands::WAKEUP => 0x02,
            SystemCommands::STANDBY => 0x04,
            SystemCommands::RESET => 0x06,
            SystemCommands::START => 0x08,
            SystemCommands::STOP => 0x0a,
        }
    }

    pub fn value(&self) -> (r: u8)
        ensures
            r == self.spec_value(),
    {
        match self {
            SystemCommands::WAKEUP => 0x02,
            SystemCommands::STANDBY => 0x04,
            SystemCommands::RESET => 0x06,
            SystemCommands::START => 0x08,
            SystemCommands::STOP => 0x0a,
        }
    }
}

/// SPI-level data-read command opcodes of the chip.
#[derive(Clone, Copy, Debug, PartialEq, Eq, Structural)]
pub enum ReadCommands {
    RDATAC,
    SDATAC,
    RDATA,
}

impl ReadCommands {
    pub open spec fn spec_value(self) -> u8 {
        match self {
            ReadCommands::RDATAC => 0x10,
            ReadCommands::SDATAC => 0x11,
            ReadCommands::RDATA => 0x12,
        }
    }

    pub fn value(&self) -> (r: u8)
        ensures
            r == self.spec_value(),
    {
        match self {
            ReadCommands::RDATAC => 0x10,
            ReadCommands::SDATAC => 0x11,
            ReadCommands::RDATA => 0x12,
        }
    }
}

/// SPI-level register access command opcodes of the chip.
#[derive(Clone, Copy, Debug, PartialEq, Eq, Structural)]
pub enum RegisterCommands {
    RREG,
    WREG,
}

impl RegisterCommands {
    pub open spec fn spec_value(self) -> u8 {
        match self {
            RegisterCommands::RREG => 0x20,
            RegisterCommands::WREG => 0x40,
        }
    }

    pub fn value(&self) -> (r: u8)
        ensures
            r == self.spec_value(),
    {
        match self {
            RegisterCommands::RREG => 0x20,
            RegisterCommands::WREG => 0x40,
        }
    }
}

/// Read-only device identification register.
#[derive(Clone, Copy, Debug, PartialEq, Eq, Structural)]
pub enum DeviceSettings {
    ID,
}

impl DeviceSettings {
    pub open spec fn spec_addr(self) -> u8 {
        match self {
            DeviceSettings::ID => 0x00,
        }
    }

    pub fn addr(&self) -> (r: u8)
        ensures
            r == self.spec_addr(),
    {
        match self {
            DeviceSettings::ID => 0x00,
        }
    }
}

/// Global configuration registers.
#[derive(Clone, Copy, Debug, PartialEq, Eq, Structural)]
pub enum GlobalSettings {
    CONFIG1,
    CONFIG2,
    CONFIG3,
    LOFF,
}

impl GlobalSettings {
    pub open spec fn spec_addr(self) -> u8 {
        match self {
            GlobalSettings::CONFIG1 => 0x01,
            GlobalSettings::CONFIG2 => 0x02,
            GlobalSettings::CONFIG3 => 0x03,
            GlobalSettings::LOFF => 0x04,
        }
    }

    pub fn addr(&self) -> (r: u8)
        ensures
            r == self.spec_addr(),
    {
        match self {
            GlobalSettings::CONFIG1 => 0x01,
            GlobalSettings::CONFIG2 => 0x02,
            GlobalSettings::CONFIG3 => 0x03,
            GlobalSettings::LOFF => 0x04,
        }
    }
}

/// Per-channel configuration registers.  `CHnSET` is the base such that the
/// register of channel `n` (1-based) sits at `CHnSET.addr() + n`.
#[derive(Clone, Copy, Debug, PartialEq, Eq, Structural)]
pub enum ChannelSettings {
    CHnSET,
    CH1SET,
    CH2SET,
    CH3SET,
    CH4SET,
    CH5SET,
    CH6SET,
    CH7SET,
    CH8SET,
    BIAS_SENSP,
    BIAS_SENSN,
    LOFF_SENSP,
    LOFF_SENSN,
    LOFF_FLIP,
}

impl ChannelSettings {
    pub open spec fn spec_addr(self) -> u8 {
        match self {
            ChannelSettings::CHnSET => 0x04,
            ChannelSettings::CH1SET => 0x05,
            ChannelSettings::CH2SET => 0x06,
            ChannelSettings::CH3SET => 0x07,
            ChannelSettings::CH4SET => 0x08,
            ChannelSettings::CH5SET => 0x09,
            ChannelSettings::CH6SET => 0x0a,
            ChannelSettings::CH7SET => 0x0b,
            ChannelSettings::CH8SET => 0x0c,
            ChannelSettings::BIAS_SENSP => 0x0d,
            ChannelSettings::BIAS_SENSN => 0x0e,
            ChannelSettings::LOFF_SENSP => 0x0f,
            ChannelSettings::LOFF_SENSN => 0x10,
            ChannelSettings::LOFF_FLIP => 0x11,
        }
    }

    pub fn addr(&self) -> (r: u8)
        ensures
            r == self.spec_addr(),
    {
        match self {
            ChannelSettings::CHnSET => 0x04,
            ChannelSettings::CH1SET => 0x05,
            ChannelSettings::CH2SET => 0x06,
            ChannelSettings::CH3SET => 0x07,
            ChannelSettings::CH4SET => 0x08,
            ChannelSettings::CH5SET => 0x09,
            ChannelSettings::CH6SET => 0x0a,
            ChannelSettings::CH7SET => 0x0b,
            ChannelSettings::CH8SET => 0x0c,
            ChannelSettings::BIAS_SENSP => 0x0d,
            ChannelSettings::BIAS_SENSN => 0x0e,
            ChannelSettings::LOFF_SENSP => 0x0f,
            ChannelSettings::LOFF_SENSN => 0x10,
            ChannelSettings::LOFF_FLIP => 0x11,
        }
    }
}

/// Lead-off status registers.
#[derive(Clone, Copy, Debug, PartialEq, Eq, Structural)]
pub enum LeadOffStatus {
    LOFF_STATP,
    LOFF_STATN,
}

impl LeadOffStatus {
    pub open spec fn spec_addr(self) -> u8 {
        match self {
            LeadOffStatus::LOFF_STATP => 0x12,
            LeadOffStatus::LOFF_STATN => 0x13,
        }
    }

    pub fn addr(&self) -> (r: u8)
        ensures
            r == self.spec_addr(),
    {
        match self {
            LeadOffStatus::LOFF_STATP => 0x12,
            LeadOffStatus::LOFF_STATN => 0x13,
        }
    }
}

/// High-resolution sample-rate settings of the CONFIG1 register.
#[derive(Clone, Copy, Debug, PartialEq, Eq, Structural)]
pub enum Speed {
    HIGH_RES_16k_SPS,
    HIGH_RES_8k_SPS,
    HIGH_RES_4k_SPS,
    HIGH_RES_2k_SPS,
    HIGH_RES_1k_SPS,
    HIGH_RES_500_SPS,
    HIGH_RES_250_SPS,
}

/// The samples-per-second figures that have a CONFIG1 setting.
pub open spec fn valid_sps(sps: u32) -> bool {
    sps == 250 || sps == 500 || sps == 1000 || sps == 2000 || sps == 4000 || sps == 8000
        || sps == 16000
}

impl Speed {
    pub open spec fn spec_value(self) -> u8 {
        match self {
            Speed::HIGH_RES_16k_SPS => 0x00,
            Speed::HIGH_RES_8k_SPS => 0x01,
            Speed::HIGH_RES_4k_SPS => 0x02,
            Speed::HIGH_RES_2k_SPS => 0x03,
            Speed::HIGH_RES_1k_SPS => 0x04,
            Speed::HIGH_RES_500_SPS => 0x05,
            Speed::HIGH_RES_250_SPS => 0x06,
        }
    }

    pub fn value(&self) -> (r: u8)
        ensures
            r == self.spec_value(),
    {
        match self {
            Speed::HIGH_RES_16k_SPS => 0x00,
            Speed::HIGH_RES_8k_SPS => 0x01,
            Speed::HIGH_RES_4k_SPS => 0x02,
            Speed::HIGH_RES_2k_SPS => 0x03,
            Speed::HIGH_RES_1k_SPS => 0x04,
            Speed::HIGH_RES_500_SPS => 0x05,
            Speed::HIGH_RES_250_SPS => 0x06,
        }
    }

    pub open spec fn spec_from_sps(sps: u32) -> Speed {
        if sps == 250 {
            Speed::HIGH_RES_250_SPS
        } else if sps == 500 {
            Speed::HIGH_RES_500_SPS
        } else if sps == 1000 {
            Speed::HIGH_RES_1k_SPS
        } else if sps == 2000 {
            Speed::HIGH_RES_2k_SPS
        } else if sps == 4000 {
            Speed::HIGH_RES_4k_SPS
        } else if sps == 8000 {
            Speed::HIGH_RES_8k_SPS
        } else {
            Speed::HIGH_RES_16k_SPS
        }
    }

    /// The setting for a samples-per-second figure; rates the chip does not
    /// offer are excluded by the precondition.
    pub fn from_sps(sps: u32) -> (r: Speed)
        requires
            valid_sps(sps),
        ensures
            r == Speed::spec_from_sps(sps),
    {
        if sps == 250 {
            Speed::HIGH_RES_250_SPS
        } else if sps == 500 {
            Speed::HIGH_RES_500_SPS
        } else if sps == 1000 {
            Speed::HIGH_RES_1k_SPS
        } else if sps == 2000 {
            Speed::HIGH_RES_2k_SPS
        } else if sps == 4000 {
            Speed::HIGH_RES_4k_SPS
        } else if sps == 8000 {
            Speed::HIGH_RES_8k_SPS
        } else {
            Speed::HIGH_RES_16k_SPS
        }
    }
}

/// Per-channel programmable-gain-amplifier settings (ADS1299 data sheet,
/// CHnSET register).
#[derive(Clone, Copy, Debug, PartialEq, Eq, Structural)]
pub enum Gain {
    X1,
    X2,
    X4,
    X6,
    X8,
    X12,
    X24,
}

/// The multipliers that have a gain setting.
pub open spec fn valid_gain(num: u32) -> bool {
    num == 1 || num == 2 || num == 4 || num == 6 || num == 8 || num == 12 || num == 24
}

impl Gain {
    pub open spec fn spec_bits(self) -> u8 {
        match self {
            Gain::X1 => 0b000,
            Gain::X2 => 0b001,
            Gain::X4 => 0b010,
            Gain::X6 => 0b011,
            Gain::X8 => 0b100,
            Gain::X12 => 0b101,
            Gain::X24 => 0b110,
        }
    }

    pub fn bits(&self) -> (r: u8)
        ensures
            r == self.spec_bits(),
    {
        match self {
            Gain::X1 => 0b000,
            Gain::X2 => 0b001,
            Gain::X4 => 0b010,
            Gain::X6 => 0b011,
            Gain::X8 => 0b100,
            Gain::X12 => 0b101,
            Gain::X24 => 0b110,
        }
    }

    pub open spec fn spec_from_numeric(num: u32) -> Gain {
        if num == 1 {
            Gain::X1
        } else if num == 2 {
            Gain::X2
        } else if num == 4 {
            Gain::X4
        } else if num == 6 {
            Gain::X6
        } else if num == 8 {
            Gain::X8
        } else if num == 12 {
            Gain::X12
        } else {
            Gain::X24
        }
    }

    /// The setting for a gain multiplier; multipliers the chip does not offer
    /// are excluded by the precondition.
    pub fn from_numeric(num: u32) -> (r: Gain)
        requires
            valid_gain(num),
        ensures
            r == Gain::spec_from_numeric(num),
    {
        if num == 1 {
            Gain::X1
        } else if num == 2 {
            Gain::X2
        } else if num == 4 {
            Gain::X4
        } else if num == 6 {
            Gain::X6
        } else if num == 8 {
            Gain::X8
        } else if num == 12 {
            Gain::X12
        } else {
            Gain::X24
        }
    }
}

/// GPIO / miscellaneous register address.
pub const MISC1: u8 = 0x15;

pub const INT_TEST: u8 = 0x10;
pub const TEST_AMP: u8 = 0x04;
pub const TEST_FREQ1: u8 = 0x02;
pub const TEST_FREQ0: u8 = 0x01;

pub const CONFIG2_const: u8 = 0xC0;
pub const CONFIG1_const: u8 = 0x90;
pub const INT_TEST_4HZ: u8 = INT_TEST;
pub const INT_TEST_8HZ: u8 = INT_TEST | TEST_FREQ0;
pub const INT_TEST_DC: u8 = INT_TEST | TEST_FREQ1 | TEST_FREQ0;

/// Channel power-down bit of a CHnSET register.
pub const PDn: u8 = 0x80;

pub const MUXn2: u8 = 0x04;
pub const MUXn1: u8 = 0x02;
pub const MUXn0: u8 = 0x01;

/// Input-mux selections of a CHnSET register.
pub const ELECTRODE_INPUT: u8 = 0x00;
pub const SHORTED: u8 = 0x01;
pub const MVDD: u8 = MUXn1 | MUXn0;
pub const TEMP: u8 = MUXn2;
pub const TEST_SIGNAL: u8 = MUXn2 | MUXn0;
pub const BIAS_DRP: u8 = MUXn2 | MUXn1;
pub const BIAS_DRN: u8 = MUXn2 | MUXn1 | MUXn0;

pub const MISC1_const: u8 = 0;
/// Reference-electrode routing bit of the MISC1 register.
pub const SRB1: u8 = 0x20;

} // verus!
