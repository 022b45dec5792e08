//! The numeric codes that each field of a configuration register accepts.

use vstd::prelude::*;

verus! {

// Drive control register

/// Charge-pump undervoltage fault: 0 reports it, 1 silences it.
pub const DIS_CPUV_EN: u16 = 0x0;
pub const DIS_CPUV_DIS: u16 = 0x1;

/// Gate-drive fault: 0 reports it, 1 silences it.
pub const DIS_GDF_EN: u16 = 0x0;
pub const DIS_GDF_DIS: u16 = 0x1;

/// Overtemperature warning on the fault line and the fault bit.
pub const OTW_REP_EN: u16 = 0x1;
pub const OTW_REP_DIS: u16 = 0x0;

/// PWM input mode.
pub const PWM_MODE_6X: u16 = 0x0;
pub const PWM_MODE_3X: u16 = 0x1;
pub const PWM_MODE_1X: u16 = 0x2;
pub const PWM_MODE_IND: u16 = 0x3;

/// Rectification in the one-input PWM mode.
pub const PWM_1X_COM_SYNC: u16 = 0x0;
pub const PWM_1X_COM_ASYNC: u16 = 0x1;

/// Direction bit of the one-input PWM mode.
pub const PWM_1X_DIR_0: u16 = 0x0;
pub const PWM_1X_DIR_1: u16 = 0x1;

// Gate drive register, high side

/// Lock code for the configuration registers.
pub const LOCK_ON: u16 = 0x6;
pub const LOCK_OFF: u16 = 0x3;

/// High-side peak source current.
pub const IDRIVEP_HS_10MA: u16 = 0x0;
pub const IDRIVEP_HS_30MA: u16 = 0x1;
pub const IDRIVEP_HS_60MA: u16 = 0x2;
pub const IDRIVEP_HS_80MA: u16 = 0x3;
pub const IDRIVEP_HS_120MA: u16 = 0x4;
pub const IDRIVEP_HS_140MA: u16 = 0x5;
pub const IDRIVEP_HS_170MA: u16 = 0x6;
pub const IDRIVEP_HS_190MA: u16 = 0x7;
pub const IDRIVEP_HS_260MA: u16 = 0x8;
pub const IDRIVEP_HS_330MA: u16 = 0x9;
pub const IDRIVEP_HS_370MA: u16 = 0xA;
pub const IDRIVEP_HS_440MA: u16 = 0xB;
pub const IDRIVEP_HS_570MA: u16 = 0xC;
pub const IDRIVEP_HS_680MA: u16 = 0xD;
pub const IDRIVEP_HS_820MA: u16 = 0xE;
pub const IDRIVEP_HS_1000MA: u16 = 0xF;

/// High-side peak sink current.
pub const IDRIVEN_HS_20MA: u16 = 0x0;
pub const IDRIVEN_HS_60MA: u16 = 0x1;
pub const IDRIVEN_HS_120MA: u16 = 0x2;
pub const IDRIVEN_HS_160MA: u16 = 0x3;
pub const IDRIVEN_HS_240MA: u16 = 0x4;
pub const IDRIVEN_HS_280MA: u16 = 0x5;
pub const IDRIVEN_HS_340MA: u16 = 0x6;
pub const IDRIVEN_HS_380MA: u16 = 0x7;
pub const IDRIVEN_HS_520MA: u16 = 0x8;
pub const IDRIVEN_HS_660MA: u16 = 0x9;
pub const IDRIVEN_HS_740MA: u16 = 0xA;
pub const IDRIVEN_HS_880MA: u16 = 0xB;
pub const IDRIVEN_HS_1140MA: u16 = 0xC;
pub const IDRIVEN_HS_1360MA: u16 = 0xD;
pub const IDRIVEN_HS_1640MA: u16 = 0xE;
pub const IDRIVEN_HS_2000MA: u16 = 0xF;

// Gate drive register, low side

/// Peak gate-current drive time.
pub const TDRIVE_500NS: u16 = 0x0;
pub const TDRIVE_1000NS: u16 = 0x1;
pub const TDRIVE_2000NS: u16 = 0x2;
pub const TDRIVE_4000NS: u16 = 0x3;

/// Low-side peak source current.
pub const IDRIVEP_LS_10MA: u16 = 0x0;
pub const IDRIVEP_LS_30MA: u16 = 0x1;
pub const IDRIVEP_LS_60MA: u16 = 0x2;
pub const IDRIVEP_LS_80MA: u16 = 0x3;
pub const IDRIVEP_LS_120MA: u16 = 0x4;
pub const IDRIVEP_LS_140MA: u16 = 0x5;
pub const IDRIVEP_LS_170MA: u16 = 0x6;
pub const IDRIVEP_LS_190MA: u16 = 0x7;
pub const IDRIVEP_LS_260MA: u16 = 0x8;
pub const IDRIVEP_LS_330MA: u16 = 0x9;
pub const IDRIVEP_LS_370MA: u16 = 0xA;
pub const IDRIVEP_LS_440MA: u16 = 0xB;
pub const IDRIVEP_LS_570MA: u16 = 0xC;
pub const IDRIVEP_LS_680MA: u16 = 0xD;
pub const IDRIVEP_LS_820MA: u16 = 0xE;
pub const IDRIVEP_LS_1000MA: u16 = 0xF;

/// Low-side peak sink current.
pub const IDRIVEN_LS_20MA: u16 = 0x0;
pub const IDRIVEN_LS_60MA: u16 = 0x1;
pub const IDRIVEN_LS_120MA: u16 = 0x2;
pub const IDRIVEN_LS_160MA: u16 = 0x3;
pub const IDRIVEN_LS_240MA: u16 = 0x4;
pub const IDRIVEN_LS_280MA: u16 = 0x5;
pub const IDRIVEN_LS_340MA: u16 = 0x6;
pub const IDRIVEN_LS_380MA: u16 = 0x7;
pub const IDRIVEN_LS_520MA: u16 = 0x8;
pub const IDRIVEN_LS_660MA: u16 = 0x9;
pub const IDRIVEN_LS_740MA: u16 = 0xA;
pub const IDRIVEN_LS_880MA: u16 = 0xB;
pub const IDRIVEN_LS_1140MA: u16 = 0xC;
pub const IDRIVEN_LS_1360MA: u16 = 0xD;
pub const IDRIVEN_LS_1640MA: u16 = 0xE;
pub const IDRIVEN_LS_2000MA: u16 = 0xF;

// Overcurrent protection control register

/// Retry time after an overcurrent event.
pub const TRETRY_4MS: u16 = 0x0;
pub const TRETRY_50US: u16 = 0x1;

/// Dead time between the two switches of a leg.
pub const DEADTIME_50NS: u16 = 0x0;
pub const DEADTIME_100NS: u16 = 0x1;
pub const DEADTIME_200NS: u16 = 0x2;
pub const DEADTIME_400NS: u16 = 0x3;

/// Overcurrent protection mode.
pub const OCP_LATCH: u16 = 0x0;
pub const OCP_RETRY: u16 = 0x1;
pub const OCP_REPORT: u16 = 0x2;
pub const OCP_NONE: u16 = 0x3;

/// Overcurrent deglitch time.
pub const OCP_DEG_2US: u16 = 0x0;
pub const OCP_DEG_4US: u16 = 0x1;
pub const OCP_DEG_6US: u16 = 0x2;
pub const OCP_DEG_8US: u16 = 0x3;

/// Drain-source overcurrent trip level, in volts.
pub const VDS_LVL_0_06: u16 = 0x0;
pub const VDS_LVL_0_13: u16 = 0x1;
pub const VDS_LVL_0_2: u16 = 0x2;
pub const VDS_LVL_0_26: u16 = 0x3;
pub const VDS_LVL_0_31: u16 = 0x4;
pub const VDS_LVL_0_45: u16 = 0x5;
pub const VDS_LVL_0_53: u16 = 0x6;
pub const VDS_LVL_0_6: u16 = 0x7;
pub const VDS_LVL_0_68: u16 = 0x8;
pub const VDS_LVL_0_75: u16 = 0x9;
pub const VDS_LVL_0_94: u16 = 0xA;
pub const VDS_LVL_1_13: u16 = 0xB;
pub const VDS_LVL_1_3: u16 = 0xC;
pub const VDS_LVL_1_5: u16 = 0xD;
pub const VDS_LVL_1_7: u16 = 0xE;
pub const VDS_LVL_1_88: u16 = 0xF;

// Current-sense amplifier control register

/// Positive input of the current-sense amplifier.
pub const CSA_FET_SP: u16 = 0x0;
pub const CSA_FET_SH: u16 = 0x1;

/// Divider of the amplifier reference voltage.
pub const VREF_DIV_1: u16 = 0x0;
pub const VREF_DIV_2: u16 = 0x1;

/// Gain of the current-sense amplifier.
pub const CSA_GAIN_5: u16 = 0x0;
pub const CSA_GAIN_10: u16 = 0x1;
pub const CSA_GAIN_20: u16 = 0x2;
pub const CSA_GAIN_40: u16 = 0x3;

/// Sense overcurrent fault: 0 reports it, 1 silences it.
pub const DIS_SEN_EN: u16 = 0x0;
pub const DIS_SEN_DIS: u16 = 0x1;

/// Sense overcurrent trip level, in volts.
pub const SEN_LVL_0_25: u16 = 0x0;
pub const SEN_LVL_0_5: u16 = 0x1;
pub const SEN_LVL_0_75: u16 = 0x2;
pub const SEN_LVL_1_0: u16 = 0x3;

} // verus!
