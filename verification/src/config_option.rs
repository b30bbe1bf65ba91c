//! Configuration options of devices and channel groups, and the data types
//! and measured quantities they report.

use vstd::prelude::*;


use crate::text::{join_texts, joined, parse_i32, parse_i32_spec, parse_u64, parse_u64_spec, text_eq, texts};
use crate::types::SrError;

verus! {

/// All possible types for a value that libsigrok reports for an option.
#[derive(Debug, Clone, Copy, PartialEq, Eq, Structural)]
pub enum GVariantDataType {
    /// Unsigned 64-bit integer; it may also come as a string key paired with an array of such integers.
    Uint64,
    /// Single string.
    String,
    /// Single truth value.
    Bool,
    /// Single floating-point number.
    Float,
    /// Rational number standing for a period.
    RationalPeriod,
    /// Rational number standing for a voltage.
    RationalVolt,
    /// Key-value pairs.
    KeyValue,
    /// Range of unsigned 64-bit integers.
    Uint64Range,
    /// Range of floating-point numbers.
    DoubleRange,
    /// Single signed 32-bit integer.
    Int32,
    /// Measured quantity: a quantity paired with its flag.
    MQ,
}

impl GVariantDataType {
    /// The number libsigrok uses for the data type.
    pub open spec fn spec_code(self) -> i32 {
        match self {
            GVariantDataType::Uint64 => 10000i32,
            GVariantDataType::String => 10001i32,
            GVariantDataType::Bool => 10002i32,
            GVariantDataType::Float => 10003i32,
            GVariantDataType::RationalPeriod => 10004i32,
            GVariantDataType::RationalVolt => 10005i32,
            GVariantDataType::KeyValue => 10006i32,
            GVariantDataType::Uint64Range => 10007i32,
            GVariantDataType::DoubleRange => 10008i32,
            GVariantDataType::Int32 => 10009i32,
            GVariantDataType::MQ => 10010i32,
        }
    }

    /// Returns the number libsigrok uses for the data type.
    pub fn code(&self) -> (c: i32)
        ensures
            c == self.spec_code(),
    {
        match self {
            GVariantDataType::Uint64 => 10000,
            GVariantDataType::String => 10001,
            GVariantDataType::Bool => 10002,
            GVariantDataType::Float => 10003,
            GVariantDataType::RationalPeriod => 10004,
            GVariantDataType::RationalVolt => 10005,
            GVariantDataType::KeyValue => 10006,
            GVariantDataType::Uint64Range => 10007,
            GVariantDataType::DoubleRange => 10008,
            GVariantDataType::Int32 => 10009,
            GVariantDataType::MQ => 10010,
        }
    }

    /// Returns whether the library can turn text into a value of this type.
    pub fn settable(&self) -> (r: bool)
        ensures
            r == self.is_settable(),
    {
        match self {
            GVariantDataType::KeyValue
            | GVariantDataType::MQ
            | GVariantDataType::RationalPeriod
            | GVariantDataType::RationalVolt => false,
            _ => true,
        }
    }

    /// Whether the library can turn text into a value of this type.
    pub open spec fn is_settable(self) -> bool {
        match self {
            GVariantDataType::KeyValue
            | GVariantDataType::MQ
            | GVariantDataType::RationalPeriod
            | GVariantDataType::RationalVolt => false,
            _ => true,
        }
    }
}

/// The data type that a libsigrok number names, if any.
pub open spec fn data_type_of_code(value: i32) -> Result<GVariantDataType, SrError> {
    if value == 10000 {
        Ok(GVariantDataType::Uint64)
    } else if value == 10001 {
        Ok(GVariantDataType::String)
    } else if value == 10002 {
        Ok(GVariantDataType::Bool)
    } else if value == 10003 {
        Ok(GVariantDataType::Float)
    } else if value == 10004 {
        Ok(GVariantDataType::RationalPeriod)
    } else if value == 10005 {
        Ok(GVariantDataType::RationalVolt)
    } else if value == 10006 {
        Ok(GVariantDataType::KeyValue)
    } else if value == 10007 {
        Ok(GVariantDataType::Uint64Range)
    } else if value == 10008 {
        Ok(GVariantDataType::DoubleRange)
    } else if value == 10009 {
        Ok(GVariantDataType::Int32)
    } else if value == 10010 {
        Ok(GVariantDataType::MQ)
    } else {
        Err(SrError::SrErrNA)
    }
}

impl TryFrom<i32> for GVariantDataType {
    type Error = SrError;

    fn try_from(value: i32) -> (r: Result<GVariantDataType, SrError>) {
        match value {
            10000 => Ok(GVariantDataType::Uint64),
            10001 => Ok(GVariantDataType::String),
            10002 => Ok(GVariantDataType::Bool),
            10003 => Ok(GVariantDataType::Float),
            10004 => Ok(GVariantDataType::RationalPeriod),
            10005 => Ok(GVariantDataType::RationalVolt),
            10006 => Ok(GVariantDataType::KeyValue),
            10007 => Ok(GVariantDataType::Uint64Range),
            10008 => Ok(GVariantDataType::DoubleRange),
            10009 => Ok(GVariantDataType::Int32),
            10010 => Ok(GVariantDataType::MQ),
            _ => Err(SrError::SrErrNA),
        }
    }
}

impl vstd::std_specs::convert::TryFromSpecImpl<i32> for GVariantDataType {
    open spec fn obeys_try_from_spec() -> bool {
        true
    }

    open spec fn try_from_spec(v: i32) -> Result<GVariantDataType, SrError> {
        data_type_of_code(v)
    }
}

/// Measured quantity, returned from a configuration option.
#[derive(Debug, Clone, Copy, PartialEq, Eq, Structural)]
pub enum MeasuredQuantity {
    /// Voltage [V]
    Voltage,
    /// Current [A]
    Current,
    /// Resistance [Ohm]
    Resistance,
    /// Capacitance [F]
    Capacitance,
    /// Temperature [°C]
    Temperature,
    /// Frequency [Hz]
    Frequency,
    /// Duty cycle, e.g. on/off ratio.
    DutyCycle,
    /// Continuity test.
    Continuity,
    /// Pulse width [s]
    PulseWidth,
    /// Conductance [Siemens]
    Conductance,
    /// Electrical power, usually in W, or dBm.
    Power,
    /// Gain (a transistor's gain, or hFE, for example).
    Gain,
    /// Logarithmic representation of sound pressure relative to a reference value.
    SoundPressureLevel,
    /// Carbon monoxide level.
    CarbonMonoxide,
    /// Humidity.
    RelativeHumidity,
    /// Time.
    Time,
    /// Wind speed.
    WindSpeed,
    /// Pressure.
    Pressure,
    /// Parallel inductance (LCR meter model).
    ParallelInductance,
    /// Parallel capacitance (LCR meter model).
    ParallelCapacitance,
    /// Parallel resistance (LCR meter model).
    ParallelResistance,
    /// Series inductance (LCR meter model).
    SeriesInductance,
    /// Series capacitance (LCR meter model).
    SeriesCapacitance,
    /// Series resistance (LCR meter model).
    SeriesResistance,
    /// Dissipation factor.
    DissipationFactor,
    /// Quality factor.
    QualityFactor,
    /// Phase angle.
    PhaseAngle,
    /// Difference from reference value.
    Difference,
    /// Count.
    Count,
    /// Power factor.
    PowerFactor,
    /// Apparent power.
    ApparentPower,
    /// Mass.
    Mass,
    /// Harmonic ratio.
    HarmonicRatio,
}

impl MeasuredQuantity {
    /// The number libsigrok uses for the quantity.
    pub open spec fn spec_code(self) -> i32 {
        match self {
            MeasuredQuantity::Voltage => 10000i32,
            MeasuredQuantity::Current => 10001i32,
            MeasuredQuantity::Resistance => 10002i32,
            MeasuredQuantity::Capacitance => 10003i32,
            MeasuredQuantity::Temperature => 10004i32,
            MeasuredQuantity::Frequency => 10005i32,
            MeasuredQuantity::DutyCycle => 10006i32,
            MeasuredQuantity::Continuity => 10007i32,
            MeasuredQuantity::PulseWidth => 10008i32,
            MeasuredQuantity::Conductance => 10009i32,
            MeasuredQuantity::Power => 10010i32,
            MeasuredQuantity::Gain => 10011i32,
            MeasuredQuantity::SoundPressureLevel => 10012i32,
            MeasuredQuantity::CarbonMonoxide => 10013i32,
            MeasuredQuantity::RelativeHumidity => 10014i32,
            MeasuredQuantity::Time => 10015i32,
            MeasuredQuantity::WindSpeed => 10016i32,
            MeasuredQuantity::Pressure => 10017i32,
            MeasuredQuantity::ParallelInductance => 10018i32,
            MeasuredQuantity::ParallelCapacitance => 10019i32,
            MeasuredQuantity::ParallelResistance => 10020i32,
            MeasuredQuantity::SeriesInductance => 10021i32,
            MeasuredQuantity::SeriesCapacitance => 10022i32,
            MeasuredQuantity::SeriesResistance => 10023i32,
            MeasuredQuantity::DissipationFactor => 10024i32,
            MeasuredQuantity::QualityFactor => 10025i32,
            MeasuredQuantity::PhaseAngle => 10026i32,
            MeasuredQuantity::Difference => 10027i32,
            MeasuredQuantity::Count => 10028i32,
            MeasuredQuantity::PowerFactor => 10029i32,
            MeasuredQuantity::ApparentPower => 10030i32,
            MeasuredQuantity::Mass => 10031i32,
            MeasuredQuantity::HarmonicRatio => 10032i32,
        }
    }

    /// Returns the number libsigrok uses for the quantity.
    pub fn code(&self) -> (c: i32)
        ensures
            c == self.spec_code(),
    {
        match self {
            MeasuredQuantity::Voltage => 10000,
            MeasuredQuantity::Current => 10001,
            MeasuredQuantity::Resistance => 10002,
            MeasuredQuantity::Capacitance => 10003,
            MeasuredQuantity::Temperature => 10004,
            MeasuredQuantity::Frequency => 10005,
            MeasuredQuantity::DutyCycle => 10006,
            MeasuredQuantity::Continuity => 10007,
            MeasuredQuantity::PulseWidth => 10008,
            MeasuredQuantity::Conductance => 10009,
            MeasuredQuantity::Power => 10010,
            MeasuredQuantity::Gain => 10011,
            MeasuredQuantity::SoundPressureLevel => 10012,
            MeasuredQuantity::CarbonMonoxide => 10013,
            MeasuredQuantity::RelativeHumidity => 10014,
            MeasuredQuantity::Time => 10015,
            MeasuredQuantity::WindSpeed => 10016,
            MeasuredQuantity::Pressure => 10017,
            MeasuredQuantity::ParallelInductance => 10018,
            MeasuredQuantity::ParallelCapacitance => 10019,
            MeasuredQuantity::ParallelResistance => 10020,
            MeasuredQuantity::SeriesInductance => 10021,
            MeasuredQuantity::SeriesCapacitance => 10022,
            MeasuredQuantity::SeriesResistance => 10023,
            MeasuredQuantity::DissipationFactor => 10024,
            MeasuredQuantity::QualityFactor => 10025,
            MeasuredQuantity::PhaseAngle => 10026,
            MeasuredQuantity::Difference => 10027,
            MeasuredQuantity::Count => 10028,
            MeasuredQuantity::PowerFactor => 10029,
            MeasuredQuantity::ApparentPower => 10030,
            MeasuredQuantity::Mass => 10031,
            MeasuredQuantity::HarmonicRatio => 10032,
        }
    }

    /// The name of the quantity.
    pub open spec fn name(self) -> Seq<char> {
        match self {
            MeasuredQuantity::Voltage => "Voltage"@,
            MeasuredQuantity::Current => "Current"@,
            MeasuredQuantity::Resistance => "Resistance"@,
            MeasuredQuantity::Capacitance => "Capacitance"@,
            MeasuredQuantity::Temperature => "Temperature"@,
            MeasuredQuantity::Frequency => "Frequency"@,
            MeasuredQuantity::DutyCycle => "Duty cycle"@,
            MeasuredQuantity::Continuity => "Continuity"@,
            MeasuredQuantity::PulseWidth => "Pulse width"@,
            MeasuredQuantity::Conductance => "Conductance"@,
            MeasuredQuantity::Power => "Power"@,
            MeasuredQuantity::Gain => "Gain"@,
            MeasuredQuantity::SoundPressureLevel => "Sound pressure level"@,
            MeasuredQuantity::CarbonMonoxide => "Carbon monoxide"@,
            MeasuredQuantity::RelativeHumidity => "Relative humidity"@,
            MeasuredQuantity::Time => "Time"@,
            MeasuredQuantity::WindSpeed => "Wind speed"@,
            MeasuredQuantity::Pressure => "Pressure"@,
            MeasuredQuantity::ParallelInductance => "Parallel inductance"@,
            MeasuredQuantity::ParallelCapacitance => "Parallel capacitance"@,
            MeasuredQuantity::ParallelResistance => "Parallel resistance"@,
            MeasuredQuantity::SeriesInductance => "Series inductance"@,
            MeasuredQuantity::SeriesCapacitance => "Series capacitance"@,
            MeasuredQuantity::SeriesResistance => "Series resistance"@,
            MeasuredQuantity::DissipationFactor => "Dissipation factor"@,
            MeasuredQuantity::QualityFactor => "Quality factor"@,
            MeasuredQuantity::PhaseAngle => "Phase angle"@,
            MeasuredQuantity::Difference => "Difference"@,
            MeasuredQuantity::Count => "Count"@,
            MeasuredQuantity::PowerFactor => "Power factor"@,
            MeasuredQuantity::ApparentPower => "Apparent power"@,
            MeasuredQuantity::Mass => "Mass"@,
            MeasuredQuantity::HarmonicRatio => "Harmonic ratio"@,
        }
    }

    /// Converts the enum to a string value.
    pub fn as_str(&self) -> (s: &'static str)
        ensures
            s@ == self.name(),
    {
        match self {
            MeasuredQuantity::Voltage => "Voltage",
            MeasuredQuantity::Current => "Current",
            MeasuredQuantity::Resistance => "Resistance",
            MeasuredQuantity::Capacitance => "Capacitance",
            MeasuredQuantity::Temperature => "Temperature",
            MeasuredQuantity::Frequency => "Frequency",
            MeasuredQuantity::DutyCycle => "Duty cycle",
            MeasuredQuantity::Continuity => "Continuity",
            MeasuredQuantity::PulseWidth => "Pulse width",
            MeasuredQuantity::Conductance => "Conductance",
            MeasuredQuantity::Power => "Power",
            MeasuredQuantity::Gain => "Gain",
            MeasuredQuantity::SoundPressureLevel => "Sound pressure level",
            MeasuredQuantity::CarbonMonoxide => "Carbon monoxide",
            MeasuredQuantity::RelativeHumidity => "Relative humidity",
            MeasuredQuantity::Time => "Time",
            MeasuredQuantity::WindSpeed => "Wind speed",
            MeasuredQuantity::Pressure => "Pressure",
            MeasuredQuantity::ParallelInductance => "Parallel inductance",
            MeasuredQuantity::ParallelCapacitance => "Parallel capacitance",
            MeasuredQuantity::ParallelResistance => "Parallel resistance",
            MeasuredQuantity::SeriesInductance => "Series inductance",
            MeasuredQuantity::SeriesCapacitance => "Series capacitance",
            MeasuredQuantity::SeriesResistance => "Series resistance",
            MeasuredQuantity::DissipationFactor => "Dissipation factor",
            MeasuredQuantity::QualityFactor => "Quality factor",
            MeasuredQuantity::PhaseAngle => "Phase angle",
            MeasuredQuantity::Difference => "Difference",
            MeasuredQuantity::Count => "Count",
            MeasuredQuantity::PowerFactor => "Power factor",
            MeasuredQuantity::ApparentPower => "Apparent power",
            MeasuredQuantity::Mass => "Mass",
            MeasuredQuantity::HarmonicRatio => "Harmonic ratio",
        }
    }
}

/// The measured quantity that a libsigrok number names, if any.
pub open spec fn quantity_of_code(value: i32) -> Result<MeasuredQuantity, SrError> {
    if value == 10000 {
        Ok(MeasuredQuantity::Voltage)
    } else if value == 10001 {
        Ok(MeasuredQuantity::Current)
    } else if value == 10002 {
        Ok(MeasuredQuantity::Resistance)
    } else if value == 10003 {
        Ok(MeasuredQuantity::Capacitance)
    } else if value == 10004 {
        Ok(MeasuredQuantity::Temperature)
    } else if value == 10005 {
        Ok(MeasuredQuantity::Frequency)
    } else if value == 10006 {
        Ok(MeasuredQuantity::DutyCycle)
    } else if value == 10007 {
        Ok(MeasuredQuantity::Continuity)
    } else if value == 10008 {
        Ok(MeasuredQuantity::PulseWidth)
    } else if value == 10009 {
        Ok(MeasuredQuantity::Conductance)
    } else if value == 10010 {
        Ok(MeasuredQuantity::Power)
    } else if value == 10011 {
        Ok(MeasuredQuantity::Gain)
    } else if value == 10012 {
        Ok(MeasuredQuantity::SoundPressureLevel)
    } else if value == 10013 {
        Ok(MeasuredQuantity::CarbonMonoxide)
    } else if value == 10014 {
        Ok(MeasuredQuantity::RelativeHumidity)
    } else if value == 10015 {
        Ok(MeasuredQuantity::Time)
    } else if value == 10016 {
        Ok(MeasuredQuantity::WindSpeed)
    } else if value == 10017 {
        Ok(MeasuredQuantity::Pressure)
    } else if value == 10018 {
        Ok(MeasuredQuantity::ParallelInductance)
    } else if value == 10019 {
        Ok(MeasuredQuantity::ParallelCapacitance)
    } else if value == 10020 {
        Ok(MeasuredQuantity::ParallelResistance)
    } else if value == 10021 {
        Ok(MeasuredQuantity::SeriesInductance)
    } else if value == 10022 {
        Ok(MeasuredQuantity::SeriesCapacitance)
    } else if value == 10023 {
        Ok(MeasuredQuantity::SeriesResistance)
    } else if value == 10024 {
        Ok(MeasuredQuantity::DissipationFactor)
    } else if value == 10025 {
        Ok(MeasuredQuantity::QualityFactor)
    } else if value == 10026 {
        Ok(MeasuredQuantity::PhaseAngle)
    } else if value == 10027 {
        Ok(MeasuredQuantity::Difference)
    } else if value == 10028 {
        Ok(MeasuredQuantity::Count)
    } else if value == 10029 {
        Ok(MeasuredQuantity::PowerFactor)
    } else if value == 10030 {
        Ok(MeasuredQuantity::ApparentPower)
    } else if value == 10031 {
        Ok(MeasuredQuantity::Mass)
    } else if value == 10032 {
        Ok(MeasuredQuantity::HarmonicRatio)
    } else {
        Err(SrError::SrErrNA)
    }
}

impl TryFrom<i32> for MeasuredQuantity {
    type Error = SrError;

    fn try_from(value: i32) -> (r: Result<MeasuredQuantity, SrError>) {
        match value {
            10000 => Ok(MeasuredQuantity::Voltage),
            10001 => Ok(MeasuredQuantity::Current),
            10002 => Ok(MeasuredQuantity::Resistance),
            10003 => Ok(MeasuredQuantity::Capacitance),
            10004 => Ok(MeasuredQuantity::Temperature),
            10005 => Ok(MeasuredQuantity::Frequency),
            10006 => Ok(MeasuredQuantity::DutyCycle),
            10007 => Ok(MeasuredQuantity::Continuity),
            10008 => Ok(MeasuredQuantity::PulseWidth),
            10009 => Ok(MeasuredQuantity::Conductance),
            10010 => Ok(MeasuredQuantity::Power),
            10011 => Ok(MeasuredQuantity::Gain),
            10012 => Ok(MeasuredQuantity::SoundPressureLevel),
            10013 => Ok(MeasuredQuantity::CarbonMonoxide),
            10014 => Ok(MeasuredQuantity::RelativeHumidity),
            10015 => Ok(MeasuredQuantity::Time),
            10016 => Ok(MeasuredQuantity::WindSpeed),
            10017 => Ok(MeasuredQuantity::Pressure),
            10018 => Ok(MeasuredQuantity::ParallelInductance),
            10019 => Ok(MeasuredQuantity::ParallelCapacitance),
            10020 => Ok(MeasuredQuantity::ParallelResistance),
            10021 => Ok(MeasuredQuantity::SeriesInductance),
            10022 => Ok(MeasuredQuantity::SeriesCapacitance),
            10023 => Ok(MeasuredQuantity::SeriesResistance),
            10024 => Ok(MeasuredQuantity::DissipationFactor),
            10025 => Ok(MeasuredQuantity::QualityFactor),
            10026 => Ok(MeasuredQuantity::PhaseAngle),
            10027 => Ok(MeasuredQuantity::Difference),
            10028 => Ok(MeasuredQuantity::Count),
            10029 => Ok(MeasuredQuantity::PowerFactor),
            10030 => Ok(MeasuredQuantity::ApparentPower),
            10031 => Ok(MeasuredQuantity::Mass),
            10032 => Ok(MeasuredQuantity::HarmonicRatio),
            _ => Err(SrError::SrErrNA),
        }
    }
}

impl vstd::std_specs::convert::TryFromSpecImpl<i32> for MeasuredQuantity {
    open spec fn obeys_try_from_spec() -> bool {
        true
    }

    open spec fn try_from_spec(v: i32) -> Result<MeasuredQuantity, SrError> {
        quantity_of_code(v)
    }
}

/// Flags associated with a measured quantity.
#[derive(Debug, Clone, Copy, PartialEq, Eq, Structural)]
pub enum MeasuredQuantityFlag {
    /// Voltage measurement is alternating current (AC).
    Ac,
    /// Voltage measurement is direct current (DC).
    Dc,
    /// This is a true RMS measurement.
    Rms,
    /// Value is voltage drop across a diode, or NAN.
    Diode,
    /// Device is in "hold" mode (repeating the last measurement).
    Hold,
    /// Device is in "max" mode, only updating upon a new max value.
    Max,
    /// Device is in "min" mode, only updating upon a new min value.
    Min,
    /// Device is in autoranging mode.
    Autorange,
    /// Device is in relative mode.
    Relative,
    /// Sound pressure level is A-weighted in the frequency domain, according to IEC 61672:2003.
    SplFreqWeightA,
    /// Sound pressure level is C-weighted in the frequency domain, according to IEC 61672:2003.
    SplFreqWeightC,
    /// Sound pressure level is Z-weighted (i.e. not at all) in the frequency domain, according to IEC 61672:2003.
    SplFreqWeightZ,
    /// Sound pressure level is not weighted in the frequency domain, albeit without standards-defined low and high frequency limits.
    SplFreqWeightFlat,
    /// Sound pressure level measurement is S-weighted (1s) in the time domain.
    SplTimeWeightS,
    /// Sound pressure level measurement is F-weighted (125ms) in the time domain.
    SplTimeWeightF,
    /// Sound pressure level is time-averaged (LAT), also known as Equivalent Continuous A-weighted Sound Level (LEQ).
    SplLat,
    /// Sound pressure level represented as a percentage of measurements that were over a preset alarm level.
    SplPctOverAlarm,
    /// Time is duration (as opposed to epoch, ...).
    Duration,
    /// Device is in "avg" mode, averaging upon each new value.
    Avg,
    /// Reference value shown.
    Reference,
    /// Unstable value (hasn't settled yet).
    Unstable,
    /// Measurement is four wire (e.g. Kelvin connection).
    FourWire,
}

impl MeasuredQuantityFlag {
    /// The bit libsigrok uses for the flag.
    pub open spec fn spec_code(self) -> u64 {
        match self {
            MeasuredQuantityFlag::Ac => 0x1u64,
            MeasuredQuantityFlag::Dc => 0x2u64,
            MeasuredQuantityFlag::Rms => 0x4u64,
            MeasuredQuantityFlag::Diode => 0x8u64,
            MeasuredQuantityFlag::Hold => 0x10u64,
            MeasuredQuantityFlag::Max => 0x20u64,
            MeasuredQuantityFlag::Min => 0x40u64,
            MeasuredQuantityFlag::Autorange => 0x80u64,
            MeasuredQuantityFlag::Relative => 0x100u64,
            MeasuredQuantityFlag::SplFreqWeightA => 0x200u64,
            MeasuredQuantityFlag::SplFreqWeightC => 0x400u64,
            MeasuredQuantityFlag::SplFreqWeightZ => 0x800u64,
            MeasuredQuantityFlag::SplFreqWeightFlat => 0x1000u64,
            MeasuredQuantityFlag::SplTimeWeightS => 0x2000u64,
            MeasuredQuantityFlag::SplTimeWeightF => 0x4000u64,
            MeasuredQuantityFlag::SplLat => 0x8000u64,
            MeasuredQuantityFlag::SplPctOverAlarm => 0x10000u64,
            MeasuredQuantityFlag::Duration => 0x20000u64,
            MeasuredQuantityFlag::Avg => 0x40000u64,
            MeasuredQuantityFlag::Reference => 0x80000u64,
            MeasuredQuantityFlag::Unstable => 0x100000u64,
            MeasuredQuantityFlag::FourWire => 0x200000u64,
        }
    }

    /// Returns the bit libsigrok uses for the flag.
    pub fn code(&self) -> (c: u64)
        ensures
            c == self.spec_code(),
    {
        match self {
            MeasuredQuantityFlag::Ac => 0x1,
            MeasuredQuantityFlag::Dc => 0x2,
            MeasuredQuantityFlag::Rms => 0x4,
            MeasuredQuantityFlag::Diode => 0x8,
            MeasuredQuantityFlag::Hold => 0x10,
            MeasuredQuantityFlag::Max => 0x20,
            MeasuredQuantityFlag::Min => 0x40,
            MeasuredQuantityFlag::Autorange => 0x80,
            MeasuredQuantityFlag::Relative => 0x100,
            MeasuredQuantityFlag::SplFreqWeightA => 0x200,
            MeasuredQuantityFlag::SplFreqWeightC => 0x400,
            MeasuredQuantityFlag::SplFreqWeightZ => 0x800,
            MeasuredQuantityFlag::SplFreqWeightFlat => 0x1000,
            MeasuredQuantityFlag::SplTimeWeightS => 0x2000,
            MeasuredQuantityFlag::SplTimeWeightF => 0x4000,
            MeasuredQuantityFlag::SplLat => 0x8000,
            MeasuredQuantityFlag::SplPctOverAlarm => 0x10000,
            MeasuredQuantityFlag::Duration => 0x20000,
            MeasuredQuantityFlag::Avg => 0x40000,
            MeasuredQuantityFlag::Reference => 0x80000,
            MeasuredQuantityFlag::Unstable => 0x100000,
            MeasuredQuantityFlag::FourWire => 0x200000,
        }
    }

    /// The name of the flag.
    pub open spec fn name(self) -> Seq<char> {
        match self {
            MeasuredQuantityFlag::Ac => "AC"@,
            MeasuredQuantityFlag::Dc => "DC"@,
            MeasuredQuantityFlag::Rms => "RMS"@,
            MeasuredQuantityFlag::Diode => "Diode"@,
            MeasuredQuantityFlag::Hold => "Hold"@,
            MeasuredQuantityFlag::Max => "Max"@,
            MeasuredQuantityFlag::Min => "Min"@,
            MeasuredQuantityFlag::Autorange => "Autorange"@,
            MeasuredQuantityFlag::Relative => "Relative"@,
            MeasuredQuantityFlag::SplFreqWeightA => "SPL frequency weight A"@,
            MeasuredQuantityFlag::SplFreqWeightC => "SPL frequency weight C"@,
            MeasuredQuantityFlag::SplFreqWeightZ => "SPL frequency weight Z"@,
            MeasuredQuantityFlag::SplFreqWeightFlat => "SPL frequency weight flat"@,
            MeasuredQuantityFlag::SplTimeWeightS => "SPL time weight S"@,
            MeasuredQuantityFlag::SplTimeWeightF => "SPL time weight F"@,
            MeasuredQuantityFlag::SplLat => "SPL LAT"@,
            MeasuredQuantityFlag::SplPctOverAlarm => "SPL percentage over alarm"@,
            MeasuredQuantityFlag::Duration => "Duration"@,
            MeasuredQuantityFlag::Avg => "Average"@,
            MeasuredQuantityFlag::Reference => "Reference"@,
            MeasuredQuantityFlag::Unstable => "Unstable"@,
            MeasuredQuantityFlag::FourWire => "Four wire"@,
        }
    }

    /// Converts the enum into a string value.
    pub fn as_str(&self) -> (s: &'static str)
        ensures
            s@ == self.name(),
    {
        match self {
            MeasuredQuantityFlag::Ac => "AC",
            MeasuredQuantityFlag::Dc => "DC",
            MeasuredQuantityFlag::Rms => "RMS",
            MeasuredQuantityFlag::Diode => "Diode",
            MeasuredQuantityFlag::Hold => "Hold",
            MeasuredQuantityFlag::Max => "Max",
            MeasuredQuantityFlag::Min => "Min",
            MeasuredQuantityFlag::Autorange => "Autorange",
            MeasuredQuantityFlag::Relative => "Relative",
            MeasuredQuantityFlag::SplFreqWeightA => "SPL frequency weight A",
            MeasuredQuantityFlag::SplFreqWeightC => "SPL frequency weight C",
            MeasuredQuantityFlag::SplFreqWeightZ => "SPL frequency weight Z",
            MeasuredQuantityFlag::SplFreqWeightFlat => "SPL frequency weight flat",
            MeasuredQuantityFlag::SplTimeWeightS => "SPL time weight S",
            MeasuredQuantityFlag::SplTimeWeightF => "SPL time weight F",
            MeasuredQuantityFlag::SplLat => "SPL LAT",
            MeasuredQuantityFlag::SplPctOverAlarm => "SPL percentage over alarm",
            MeasuredQuantityFlag::Duration => "Duration",
            MeasuredQuantityFlag::Avg => "Average",
            MeasuredQuantityFlag::Reference => "Reference",
            MeasuredQuantityFlag::Unstable => "Unstable",
            MeasuredQuantityFlag::FourWire => "Four wire",
        }
    }
}

/// The flag that a libsigrok bit names, if any.
pub open spec fn flag_of_code(value: u64) -> Result<MeasuredQuantityFlag, SrError> {
    if value == 0x1 {
        Ok(MeasuredQuantityFlag::Ac)
    } else if value == 0x2 {
        Ok(MeasuredQuantityFlag::Dc)
    } else if value == 0x4 {
        Ok(MeasuredQuantityFlag::Rms)
    } else if value == 0x8 {
        Ok(MeasuredQuantityFlag::Diode)
    } else if value == 0x10 {
        Ok(MeasuredQuantityFlag::Hold)
    } else if value == 0x20 {
        Ok(MeasuredQuantityFlag::Max)
    } else if value == 0x40 {
        Ok(MeasuredQuantityFlag::Min)
    } else if value == 0x80 {
        Ok(MeasuredQuantityFlag::Autorange)
    } else if value == 0x100 {
        Ok(MeasuredQuantityFlag::Relative)
    } else if value == 0x200 {
        Ok(MeasuredQuantityFlag::SplFreqWeightA)
    } else if value == 0x400 {
        Ok(MeasuredQuantityFlag::SplFreqWeightC)
    } else if value == 0x800 {
        Ok(MeasuredQuantityFlag::SplFreqWeightZ)
    } else if value == 0x1000 {
        Ok(MeasuredQuantityFlag::SplFreqWeightFlat)
    } else if value == 0x2000 {
        Ok(MeasuredQuantityFlag::SplTimeWeightS)
    } else if value == 0x4000 {
        Ok(MeasuredQuantityFlag::SplTimeWeightF)
    } else if value == 0x8000 {
        Ok(MeasuredQuantityFlag::SplLat)
    } else if value == 0x10000 {
        Ok(MeasuredQuantityFlag::SplPctOverAlarm)
    } else if value == 0x20000 {
        Ok(MeasuredQuantityFlag::Duration)
    } else if value == 0x40000 {
        Ok(MeasuredQuantityFlag::Avg)
    } else if value == 0x80000 {
        Ok(MeasuredQuantityFlag::Reference)
    } else if value == 0x100000 {
        Ok(MeasuredQuantityFlag::Unstable)
    } else if value == 0x200000 {
        Ok(MeasuredQuantityFlag::FourWire)
    } else {
        Err(SrError::SrErrNA)
    }
}

impl TryFrom<u64> for MeasuredQuantityFlag {
    type Error = SrError;

    fn try_from(value: u64) -> (r: Result<MeasuredQuantityFlag, SrError>) {
        match value {
            0x1 => Ok(MeasuredQuantityFlag::Ac),
            0x2 => Ok(MeasuredQuantityFlag::Dc),
            0x4 => Ok(MeasuredQuantityFlag::Rms),
            0x8 => Ok(MeasuredQuantityFlag::Diode),
            0x10 => Ok(MeasuredQuantityFlag::Hold),
            0x20 => Ok(MeasuredQuantityFlag::Max),
            0x40 => Ok(MeasuredQuantityFlag::Min),
            0x80 => Ok(MeasuredQuantityFlag::Autorange),
            0x100 => Ok(MeasuredQuantityFlag::Relative),
            0x200 => Ok(MeasuredQuantityFlag::SplFreqWeightA),
            0x400 => Ok(MeasuredQuantityFlag::SplFreqWeightC),
            0x800 => Ok(MeasuredQuantityFlag::SplFreqWeightZ),
            0x1000 => Ok(MeasuredQuantityFlag::SplFreqWeightFlat),
            0x2000 => Ok(MeasuredQuantityFlag::SplTimeWeightS),
            0x4000 => Ok(MeasuredQuantityFlag::SplTimeWeightF),
            0x8000 => Ok(MeasuredQuantityFlag::SplLat),
            0x10000 => Ok(MeasuredQuantityFlag::SplPctOverAlarm),
            0x20000 => Ok(MeasuredQuantityFlag::Duration),
            0x40000 => Ok(MeasuredQuantityFlag::Avg),
            0x80000 => Ok(MeasuredQuantityFlag::Reference),
            0x100000 => Ok(MeasuredQuantityFlag::Unstable),
            0x200000 => Ok(MeasuredQuantityFlag::FourWire),
            _ => Err(SrError::SrErrNA),
        }
    }
}

impl vstd::std_specs::convert::TryFromSpecImpl<u64> for MeasuredQuantityFlag {
    open spec fn obeys_try_from_spec() -> bool {
        true
    }

    open spec fn try_from_spec(v: u64) -> Result<MeasuredQuantityFlag, SrError> {
        flag_of_code(v)
    }
}


/// Every data type is named by its own number, and by no other.
pub proof fn lemma_data_type_code_roundtrip(t: GVariantDataType, value: i32)
    ensures
        data_type_of_code(t.spec_code()) == Ok::<GVariantDataType, SrError>(t),
        data_type_of_code(value) matches Ok(u) ==> u.spec_code() == value,
        data_type_of_code(value) is Err <==> !(10000 <= value <= 10010),
{
}

/// Every measured quantity is named by its own number, and by no other.
pub proof fn lemma_quantity_code_roundtrip(q: MeasuredQuantity, value: i32)
    ensures
        quantity_of_code(q.spec_code()) == Ok::<MeasuredQuantity, SrError>(q),
        quantity_of_code(value) matches Ok(p) ==> p.spec_code() == value,
        quantity_of_code(value) is Err <==> !(10000 <= value <= 10032),
{
}

/// Every flag is named by its own bit, and by no other number.
pub proof fn lemma_flag_code_roundtrip(f: MeasuredQuantityFlag, value: u64)
    ensures
        flag_of_code(f.spec_code()) == Ok::<MeasuredQuantityFlag, SrError>(f),
        flag_of_code(value) matches Ok(g) ==> g.spec_code() == value,
{
}

/// The Unicode lowercase form of a text (`str::to_lowercase`).
pub uninterp spec fn lowercase(s: Seq<char>) -> Seq<char>;

/// Whether every character of a text is ASCII.
pub open spec fn is_ascii_text(s: Seq<char>) -> bool {
    forall|i: int| 0 <= i < s.len() ==> (#[trigger] s[i] as u32) < 128
}

/// The ASCII lowercase form of a character: upper-case ASCII letters
/// become lower-case, every other character stays.
pub open spec fn ascii_lower(c: char) -> char {
    if 'A' <= c && c <= 'Z' {
        ((c as u32) + 32) as char
    } else {
        c
    }
}

/// `str::to_lowercase`: claimed to return the text named `lowercase(s@)`,
/// a function of `s` alone (Unicode's lowercase mapping, which is not
/// written out here), and, on ASCII text, the text with each upper-case
/// ASCII letter made lower-case.
#[verifier::external_body]
fn to_lowercase(s: &str) -> (r: String)
    ensures
        r@ == lowercase(s@),
        is_ascii_text(s@) ==> r@ == s@.map_values(|c: char| ascii_lower(c)),
{
    s.to_lowercase()
}

/// The truth value that a lowercase word stands for, if any.
pub open spec fn bool_word(s: Seq<char>) -> Option<bool> {
    if s == "true"@ || s == "1"@ || s == "on"@ || s == "ok"@ || s == "t"@ {
        Some(true)
    } else if s == "false"@ || s == "0"@ || s == "off"@ || s == "f"@ {
        Some(false)
    } else {
        None
    }
}

/// Reads a truth value from a word that is already in lowercase:
/// "true", "1", "on", "ok" and "t" stand for true; "false", "0", "off"
/// and "f" for false.
pub fn bool_from_lowercase(word: &str) -> (r: Option<bool>)
    ensures
        r == bool_word(word@),
{
    if text_eq(word, "true") || text_eq(word, "1") || text_eq(word, "on") || text_eq(word, "ok")
        || text_eq(word, "t") {
        Some(true)
    } else if text_eq(word, "false") || text_eq(word, "0") || text_eq(word, "off") || text_eq(
        word,
        "f",
    ) {
        Some(false)
    } else {
        None
    }
}

/// A value ready to be handed to libsigrok for an option.
#[derive(Debug, Clone)]
pub enum OptionValue {
    /// A truth value.
    Bool(bool),
    /// A signed 32-bit integer.
    Int32(i32),
    /// An unsigned 64-bit integer.
    Uint64(u64),
    /// The text of a floating-point number, still to be read as one.
    Double(String),
    /// A string.
    Text(String),
}

/// The mathematical content of an `OptionValue`.
pub enum ValueModel {
    Bool(bool),
    Int32(i32),
    Uint64(u64),
    Double(Seq<char>),
    Text(Seq<char>),
}

impl View for OptionValue {
    type V = ValueModel;

    open spec fn view(&self) -> ValueModel {
        match self {
            OptionValue::Bool(b) => ValueModel::Bool(*b),
            OptionValue::Int32(v) => ValueModel::Int32(*v),
            OptionValue::Uint64(v) => ValueModel::Uint64(*v),
            OptionValue::Double(t) => ValueModel::Double(t@),
            OptionValue::Text(t) => ValueModel::Text(t@),
        }
    }
}

/// What setting an option of type `data_type` to the text `value` hands to
/// libsigrok, or the error that refuses the text.
pub open spec fn parsed_value(data_type: GVariantDataType, value: Seq<char>) -> Result<
    ValueModel,
    SrError,
> {
    match data_type {
        GVariantDataType::Bool => match bool_word(lowercase(value)) {
            Some(b) => Ok(ValueModel::Bool(b)),
            None => Err(SrError::SrInvalidOptionValue),
        },
        GVariantDataType::Int32 => match parse_i32_spec(value) {
            Some(v) => Ok(ValueModel::Int32(v)),
            None => Err(SrError::SrInvalidOptionValue),
        },
        GVariantDataType::Uint64 | GVariantDataType::Uint64Range => match parse_u64_spec(value) {
            Some(v) => Ok(ValueModel::Uint64(v)),
            None => Err(SrError::SrInvalidOptionValue),
        },
        GVariantDataType::Float | GVariantDataType::DoubleRange => Ok(ValueModel::Double(value)),
        _ => Ok(ValueModel::Text(value)),
    }
}

/// The bit of the capability word that says an option's value can be read.
pub const CONF_GET: u32 = 0x8000_0000;

/// The bit of the capability word that says an option has a list of
/// possible values.
pub const CONF_LIST: u32 = 0x2000_0000;

/// Whether a capability word holds the bit `bit`.
pub open spec fn has_capability(capabilities: u32, bit: u32) -> bool {
    capabilities & bit != 0
}

/// The current value an option is given when it is scanned: the value read
/// from the device when it can be read, else its possible values separated
/// by spaces when it has a list of them, else nothing.
pub open spec fn initial_value(
    capabilities: u32,
    current: Option<Seq<char>>,
    possible_values: Seq<Seq<char>>,
) -> Seq<char> {
    if has_capability(capabilities, CONF_GET) && current is Some {
        current->0
    } else if has_capability(capabilities, CONF_LIST) {
        joined(possible_values, " "@)
    } else {
        Seq::empty()
    }
}

/// A configuration option is any modifiable parameter from a device or a
/// channel group.
#[derive(Debug, Clone)]
pub struct ConfigOption {
    /// Number that identifies the option, as in libsigrok's `SR_CONF_`
    /// constants.
    key: u32,
    /// Data type of the option's values.
    data_type: GVariantDataType,
    /// Unique identifier of the option, by which it is referenced.
    pub id: String,
    /// Descriptive name, purely informative.
    pub name: String,
    /// The option's current value; empty when it has none.
    pub value: String,
    /// The possible values of the option, when it lists them.
    pub possible_values: Vec<String>,
}

/// The mathematical content of a configuration option.
pub struct OptionModel {
    pub key: u32,
    pub data_type: GVariantDataType,
    pub id: Seq<char>,
    pub name: Seq<char>,
    pub value: Seq<char>,
    pub possible_values: Seq<Seq<char>>,
}

impl View for ConfigOption {
    type V = OptionModel;

    closed spec fn view(&self) -> OptionModel {
        OptionModel {
            key: self.key,
            data_type: self.data_type,
            id: self.id@,
            name: self.name@,
            value: self.value@,
            possible_values: texts(self.possible_values@),
        }
    }
}

impl ConfigOption {
    /// Builds an option from its parts.
    pub fn new(
        key: u32,
        data_type: GVariantDataType,
        id: String,
        name: String,
        value: String,
        possible_values: Vec<String>,
    ) -> (o: ConfigOption)
        ensures
            o@ == (OptionModel {
                key,
                data_type,
                id: id@,
                name: name@,
                value: value@,
                possible_values: texts(possible_values@),
            }),
    {
        ConfigOption { key, data_type, id, name, value, possible_values }
    }

    /// Builds an option as a scan finds it: `capabilities` is the word of
    /// capability bits that libsigrok reports for it, `current` the value
    /// read from the device (when it can be read) and `possible_values` the
    /// values it lists (when it lists them).
    pub fn from_capabilities(
        key: u32,
        data_type: GVariantDataType,
        id: String,
        name: String,
        capabilities: u32,
        current: Option<String>,
        possible_values: Vec<String>,
    ) -> (o: ConfigOption)
        ensures
            o@ == (OptionModel {
                key,
                data_type,
                id: id@,
                name: name@,
                value: initial_value(
                    capabilities,
                    match current {
                        Some(c) => Some(c@),
                        None => None,
                    },
                    texts(possible_values@),
                ),
                possible_values: texts(possible_values@),
            }),
    {
        let can_get = capabilities & CONF_GET != 0;
        let can_list = capabilities & CONF_LIST != 0;
        let value = match current {
            Some(c) if can_get => c,
            _ => if can_list {
                join_texts(&possible_values, " ")
            } else {
                String::new()
            },
        };
        ConfigOption { key, data_type, id, name, value, possible_values }
    }

    /// Returns the option's identifier.
    pub fn get_id(&self) -> (r: &String)
        ensures
            r@ == self@.id,
    {
        &self.id
    }

    /// Returns the option's descriptive name.
    pub fn get_name(&self) -> (r: &String)
        ensures
            r@ == self@.name,
    {
        &self.name
    }

    /// Returns the option's current value.
    pub fn get_value(&self) -> (r: &String)
        ensures
            r@ == self@.value,
    {
        &self.value
    }

    /// Returns the option's possible values.
    pub fn get_possible_values(&self) -> (r: &Vec<String>)
        ensures
            texts(r@) == self@.possible_values,
    {
        &self.possible_values
    }

    /// Returns the number that identifies the option.
    pub fn key(&self) -> (k: u32)
        ensures
            k == self@.key,
    {
        self.key
    }

    /// Returns the data type of the option's values.
    pub fn data_type(&self) -> (t: GVariantDataType)
        ensures
            t == self@.data_type,
    {
        self.data_type
    }

    /// Reads `value` as a value of the option's data type, as setting the
    /// option does before it hands the value to libsigrok.
    pub fn parse_value(&self, value: &str) -> (r: Result<OptionValue, SrError>)
        requires
            self@.data_type.is_settable(),
        ensures
            match r {
                Ok(v) => parsed_value(self@.data_type, value@) == Ok::<ValueModel, SrError>(
                    v@,
                ),
                Err(e) => parsed_value(self@.data_type, value@) == Err::<ValueModel, SrError>(
                    e,
                ),
            },
            self@.data_type == GVariantDataType::Bool && is_ascii_text(value@) ==> lowercase(
                value@,
            ) == value@.map_values(|c: char| ascii_lower(c)),
    {
        match self.data_type {
            GVariantDataType::Bool => {
                let lowered = to_lowercase(value);
                match bool_from_lowercase(lowered.as_str()) {
                    Some(b) => Ok(OptionValue::Bool(b)),
                    None => Err(SrError::SrInvalidOptionValue),
                }
            },
            GVariantDataType::Int32 => match parse_i32(value) {
                Some(v) => Ok(OptionValue::Int32(v)),
                None => Err(SrError::SrInvalidOptionValue),
            },
            GVariantDataType::Uint64 | GVariantDataType::Uint64Range => match parse_u64(value) {
                Some(v) => Ok(OptionValue::Uint64(v)),
                None => Err(SrError::SrInvalidOptionValue),
            },
            GVariantDataType::Float | GVariantDataType::DoubleRange => Ok(
                OptionValue::Double(String::from_str(value)),
            ),
            _ => Ok(OptionValue::Text(String::from_str(value))),
        }
    }

    /// Records `value` as the option's current value.
    pub fn set_value(&mut self, value: &str)
        ensures
            final(self)@ == (OptionModel { value: value@, ..old(self)@ }),
    {
        self.value = String::from_str(value);
    }
}

/// What tells apart the names of quantities and flags: the length, the
/// first two characters, the tenth (or the last, in a shorter name) and
/// the last one.
pub open spec fn name_key(s: Seq<char>) -> (int, char, char, char, char) {
    (s.len() as int, s[0], s[1], if s.len() > 9 {
        s[9]
    } else {
        s.last()
    }, s.last())
}

/// The key of the name of each measured quantity.
pub open spec fn quantity_name_key(quantity: MeasuredQuantity) -> (int, char, char, char, char) {
    match quantity {
        MeasuredQuantity::Voltage => (7int, 'V', 'o', 'e', 'e'),
        MeasuredQuantity::Current => (7int, 'C', 'u', 't', 't'),
        MeasuredQuantity::Resistance => (10int, 'R', 'e', 'e', 'e'),
        MeasuredQuantity::Capacitance => (11int, 'C', 'a', 'c', 'e'),
        MeasuredQuantity::Temperature => (11int, 'T', 'e', 'r', 'e'),
        MeasuredQuantity::Frequency => (9int, 'F', 'r', 'y', 'y'),
        MeasuredQuantity::DutyCycle => (10int, 'D', 'u', 'e', 'e'),
        MeasuredQuantity::Continuity => (10int, 'C', 'o', 'y', 'y'),
        MeasuredQuantity::PulseWidth => (11int, 'P', 'u', 't', 'h'),
        MeasuredQuantity::Conductance => (11int, 'C', 'o', 'c', 'e'),
        MeasuredQuantity::Power => (5int, 'P', 'o', 'r', 'r'),
        MeasuredQuantity::Gain => (4int, 'G', 'a', 'n', 'n'),
        MeasuredQuantity::SoundPressureLevel => (20int, 'S', 'o', 's', 'l'),
        MeasuredQuantity::CarbonMonoxide => (15int, 'C', 'a', 'n', 'e'),
        MeasuredQuantity::RelativeHumidity => (17int, 'R', 'e', 'h', 'y'),
        MeasuredQuantity::Time => (4int, 'T', 'i', 'e', 'e'),
        MeasuredQuantity::WindSpeed => (10int, 'W', 'i', 'd', 'd'),
        MeasuredQuantity::Pressure => (8int, 'P', 'r', 'e', 'e'),
        MeasuredQuantity::ParallelInductance => (19int, 'P', 'a', 'i', 'e'),
        MeasuredQuantity::ParallelCapacitance => (20int, 'P', 'a', 'c', 'e'),
        MeasuredQuantity::ParallelResistance => (19int, 'P', 'a', 'r', 'e'),
        MeasuredQuantity::SeriesInductance => (17int, 'S', 'e', 'd', 'e'),
        MeasuredQuantity::SeriesCapacitance => (18int, 'S', 'e', 'p', 'e'),
        MeasuredQuantity::SeriesResistance => (17int, 'S', 'e', 's', 'e'),
        MeasuredQuantity::DissipationFactor => (18int, 'D', 'i', 'o', 'r'),
        MeasuredQuantity::QualityFactor => (14int, 'Q', 'u', 'a', 'r'),
        MeasuredQuantity::PhaseAngle => (11int, 'P', 'h', 'l', 'e'),
        MeasuredQuantity::Difference => (10int, 'D', 'i', 'e', 'e'),
        MeasuredQuantity::Count => (5int, 'C', 'o', 't', 't'),
        MeasuredQuantity::PowerFactor => (12int, 'P', 'o', 't', 'r'),
        MeasuredQuantity::ApparentPower => (14int, 'A', 'p', 'p', 'r'),
        MeasuredQuantity::Mass => (4int, 'M', 'a', 's', 's'),
        MeasuredQuantity::HarmonicRatio => (14int, 'H', 'a', 'r', 'o'),
    }
}

/// The measured quantity whose name has key `k`, if any.
pub open spec fn quantity_of_name_key(k: (int, char, char, char, char)) -> Option<MeasuredQuantity> {
    if k == (7int, 'V', 'o', 'e', 'e') {
        Some(MeasuredQuantity::Voltage)
    } else if k == (7int, 'C', 'u', 't', 't') {
        Some(MeasuredQuantity::Current)
    } else if k == (10int, 'R', 'e', 'e', 'e') {
        Some(MeasuredQuantity::Resistance)
    } else if k == (11int, 'C', 'a', 'c', 'e') {
        Some(MeasuredQuantity::Capacitance)
    } else if k == (11int, 'T', 'e', 'r', 'e') {
        Some(MeasuredQuantity::Temperature)
    } else if k == (9int, 'F', 'r', 'y', 'y') {
        Some(MeasuredQuantity::Frequency)
    } else if k == (10int, 'D', 'u', 'e', 'e') {
        Some(MeasuredQuantity::DutyCycle)
    } else if k == (10int, 'C', 'o', 'y', 'y') {
        Some(MeasuredQuantity::Continuity)
    } else if k == (11int, 'P', 'u', 't', 'h') {
        Some(MeasuredQuantity::PulseWidth)
    } else if k == (11int, 'C', 'o', 'c', 'e') {
        Some(MeasuredQuantity::Conductance)
    } else if k == (5int, 'P', 'o', 'r', 'r') {
        Some(MeasuredQuantity::Power)
    } else if k == (4int, 'G', 'a', 'n', 'n') {
        Some(MeasuredQuantity::Gain)
    } else if k == (20int, 'S', 'o', 's', 'l') {
        Some(MeasuredQuantity::SoundPressureLevel)
    } else if k == (15int, 'C', 'a', 'n', 'e') {
        Some(MeasuredQuantity::CarbonMonoxide)
    } else if k == (17int, 'R', 'e', 'h', 'y') {
        Some(MeasuredQuantity::RelativeHumidity)
    } else if k == (4int, 'T', 'i', 'e', 'e') {
        Some(MeasuredQuantity::Time)
    } else if k == (10int, 'W', 'i', 'd', 'd') {
        Some(MeasuredQuantity::WindSpeed)
    } else if k == (8int, 'P', 'r', 'e', 'e') {
        Some(MeasuredQuantity::Pressure)
    } else if k == (19int, 'P', 'a', 'i', 'e') {
        Some(MeasuredQuantity::ParallelInductance)
    } else if k == (20int, 'P', 'a', 'c', 'e') {
        Some(MeasuredQuantity::ParallelCapacitance)
    } else if k == (19int, 'P', 'a', 'r', 'e') {
        Some(MeasuredQuantity::ParallelResistance)
    } else if k == (17int, 'S', 'e', 'd', 'e') {
        Some(MeasuredQuantity::SeriesInductance)
    } else if k == (18int, 'S', 'e', 'p', 'e') {
        Some(MeasuredQuantity::SeriesCapacitance)
    } else if k == (17int, 'S', 'e', 's', 'e') {
        Some(MeasuredQuantity::SeriesResistance)
    } else if k == (18int, 'D', 'i', 'o', 'r') {
        Some(MeasuredQuantity::DissipationFactor)
    } else if k == (14int, 'Q', 'u', 'a', 'r') {
        Some(MeasuredQuantity::QualityFactor)
    } else if k == (11int, 'P', 'h', 'l', 'e') {
        Some(MeasuredQuantity::PhaseAngle)
    } else if k == (10int, 'D', 'i', 'e', 'e') {
        Some(MeasuredQuantity::Difference)
    } else if k == (5int, 'C', 'o', 't', 't') {
        Some(MeasuredQuantity::Count)
    } else if k == (12int, 'P', 'o', 't', 'r') {
        Some(MeasuredQuantity::PowerFactor)
    } else if k == (14int, 'A', 'p', 'p', 'r') {
        Some(MeasuredQuantity::ApparentPower)
    } else if k == (4int, 'M', 'a', 's', 's') {
        Some(MeasuredQuantity::Mass)
    } else if k == (14int, 'H', 'a', 'r', 'o') {
        Some(MeasuredQuantity::HarmonicRatio)
    } else {
        None
    }
}

/// The name of a measured quantity has the key given for it, and that key leads
/// back to the measured quantity.
proof fn lemma_quantity_name_key(quantity: MeasuredQuantity)
    ensures
        quantity.name().len() >= 2,
        name_key(quantity.name()) == quantity_name_key(quantity),
        quantity_of_name_key(quantity_name_key(quantity)) == Some(quantity),
{
    match quantity {
        MeasuredQuantity::Voltage => {
            reveal_strlit("Voltage");
        },
        MeasuredQuantity::Current => {
            reveal_strlit("Current");
        },
        MeasuredQuantity::Resistance => {
            reveal_strlit("Resistance");
        },
        MeasuredQuantity::Capacitance => {
            reveal_strlit("Capacitance");
        },
        MeasuredQuantity::Temperature => {
            reveal_strlit("Temperature");
        },
        MeasuredQuantity::Frequency => {
            reveal_strlit("Frequency");
        },
        MeasuredQuantity::DutyCycle => {
            reveal_strlit("Duty cycle");
        },
        MeasuredQuantity::Continuity => {
            reveal_strlit("Continuity");
        },
        MeasuredQuantity::PulseWidth => {
            reveal_strlit("Pulse width");
        },
        MeasuredQuantity::Conductance => {
            reveal_strlit("Conductance");
        },
        MeasuredQuantity::Power => {
            reveal_strlit("Power");
        },
        MeasuredQuantity::Gain => {
            reveal_strlit("Gain");
        },
        MeasuredQuantity::SoundPressureLevel => {
            reveal_strlit("Sound pressure level");
        },
        MeasuredQuantity::CarbonMonoxide => {
            reveal_strlit("Carbon monoxide");
        },
        MeasuredQuantity::RelativeHumidity => {
            reveal_strlit("Relative humidity");
        },
        MeasuredQuantity::Time => {
            reveal_strlit("Time");
        },
        MeasuredQuantity::WindSpeed => {
            reveal_strlit("Wind speed");
        },
        MeasuredQuantity::Pressure => {
            reveal_strlit("Pressure");
        },
        MeasuredQuantity::ParallelInductance => {
            reveal_strlit("Parallel inductance");
        },
        MeasuredQuantity::ParallelCapacitance => {
            reveal_strlit("Parallel capacitance");
        },
        MeasuredQuantity::ParallelResistance => {
            reveal_strlit("Parallel resistance");
        },
        MeasuredQuantity::SeriesInductance => {
            reveal_strlit("Series inductance");
        },
        MeasuredQuantity::SeriesCapacitance => {
            reveal_strlit("Series capacitance");
        },
        MeasuredQuantity::SeriesResistance => {
            reveal_strlit("Series resistance");
        },
        MeasuredQuantity::DissipationFactor => {
            reveal_strlit("Dissipation factor");
        },
        MeasuredQuantity::QualityFactor => {
            reveal_strlit("Quality factor");
        },
        MeasuredQuantity::PhaseAngle => {
            reveal_strlit("Phase angle");
        },
        MeasuredQuantity::Difference => {
            reveal_strlit("Difference");
        },
        MeasuredQuantity::Count => {
            reveal_strlit("Count");
        },
        MeasuredQuantity::PowerFactor => {
            reveal_strlit("Power factor");
        },
        MeasuredQuantity::ApparentPower => {
            reveal_strlit("Apparent power");
        },
        MeasuredQuantity::Mass => {
            reveal_strlit("Mass");
        },
        MeasuredQuantity::HarmonicRatio => {
            reveal_strlit("Harmonic ratio");
        },
    }
}

/// Every measured quantity has a non-empty name of its own: no two share one.
pub proof fn lemma_quantity_names_distinct(a: MeasuredQuantity, b: MeasuredQuantity)
    ensures
        a.name().len() > 0,
        a.name() == b.name() ==> a == b,
{
    lemma_quantity_name_key(a);
    lemma_quantity_name_key(b);
}

/// The key of the name of each flag.
pub open spec fn flag_name_key(flag: MeasuredQuantityFlag) -> (int, char, char, char, char) {
    match flag {
        MeasuredQuantityFlag::Ac => (2int, 'A', 'C', 'C', 'C'),
        MeasuredQuantityFlag::Dc => (2int, 'D', 'C', 'C', 'C'),
        MeasuredQuantityFlag::Rms => (3int, 'R', 'M', 'S', 'S'),
        MeasuredQuantityFlag::Diode => (5int, 'D', 'i', 'e', 'e'),
        MeasuredQuantityFlag::Hold => (4int, 'H', 'o', 'd', 'd'),
        MeasuredQuantityFlag::Max => (3int, 'M', 'a', 'x', 'x'),
        MeasuredQuantityFlag::Min => (3int, 'M', 'i', 'n', 'n'),
        MeasuredQuantityFlag::Autorange => (9int, 'A', 'u', 'e', 'e'),
        MeasuredQuantityFlag::Relative => (8int, 'R', 'e', 'e', 'e'),
        MeasuredQuantityFlag::SplFreqWeightA => (22int, 'S', 'P', 'e', 'A'),
        MeasuredQuantityFlag::SplFreqWeightC => (22int, 'S', 'P', 'e', 'C'),
        MeasuredQuantityFlag::SplFreqWeightZ => (22int, 'S', 'P', 'e', 'Z'),
        MeasuredQuantityFlag::SplFreqWeightFlat => (25int, 'S', 'P', 'e', 't'),
        MeasuredQuantityFlag::SplTimeWeightS => (17int, 'S', 'P', 'w', 'S'),
        MeasuredQuantityFlag::SplTimeWeightF => (17int, 'S', 'P', 'w', 'F'),
        MeasuredQuantityFlag::SplLat => (7int, 'S', 'P', 'T', 'T'),
        MeasuredQuantityFlag::SplPctOverAlarm => (25int, 'S', 'P', 'n', 'm'),
        MeasuredQuantityFlag::Duration => (8int, 'D', 'u', 'n', 'n'),
        MeasuredQuantityFlag::Avg => (7int, 'A', 'v', 'e', 'e'),
        MeasuredQuantityFlag::Reference => (9int, 'R', 'e', 'e', 'e'),
        MeasuredQuantityFlag::Unstable => (8int, 'U', 'n', 'e', 'e'),
        MeasuredQuantityFlag::FourWire => (9int, 'F', 'o', 'e', 'e'),
    }
}

/// The flag whose name has key `k`, if any.
pub open spec fn flag_of_name_key(k: (int, char, char, char, char)) -> Option<MeasuredQuantityFlag> {
    if k == (2int, 'A', 'C', 'C', 'C') {
        Some(MeasuredQuantityFlag::Ac)
    } else if k == (2int, 'D', 'C', 'C', 'C') {
        Some(MeasuredQuantityFlag::Dc)
    } else if k == (3int, 'R', 'M', 'S', 'S') {
        Some(MeasuredQuantityFlag::Rms)
    } else if k == (5int, 'D', 'i', 'e', 'e') {
        Some(MeasuredQuantityFlag::Diode)
    } else if k == (4int, 'H', 'o', 'd', 'd') {
        Some(MeasuredQuantityFlag::Hold)
    } else if k == (3int, 'M', 'a', 'x', 'x') {
        Some(MeasuredQuantityFlag::Max)
    } else if k == (3int, 'M', 'i', 'n', 'n') {
        Some(MeasuredQuantityFlag::Min)
    } else if k == (9int, 'A', 'u', 'e', 'e') {
        Some(MeasuredQuantityFlag::Autorange)
    } else if k == (8int, 'R', 'e', 'e', 'e') {
        Some(MeasuredQuantityFlag::Relative)
    } else if k == (22int, 'S', 'P', 'e', 'A') {
        Some(MeasuredQuantityFlag::SplFreqWeightA)
    } else if k == (22int, 'S', 'P', 'e', 'C') {
        Some(MeasuredQuantityFlag::SplFreqWeightC)
    } else if k == (22int, 'S', 'P', 'e', 'Z') {
        Some(MeasuredQuantityFlag::SplFreqWeightZ)
    } else if k == (25int, 'S', 'P', 'e', 't') {
        Some(MeasuredQuantityFlag::SplFreqWeightFlat)
    } else if k == (17int, 'S', 'P', 'w', 'S') {
        Some(MeasuredQuantityFlag::SplTimeWeightS)
    } else if k == (17int, 'S', 'P', 'w', 'F') {
        Some(MeasuredQuantityFlag::SplTimeWeightF)
    } else if k == (7int, 'S', 'P', 'T', 'T') {
        Some(MeasuredQuantityFlag::SplLat)
    } else if k == (25int, 'S', 'P', 'n', 'm') {
        Some(MeasuredQuantityFlag::SplPctOverAlarm)
    } else if k == (8int, 'D', 'u', 'n', 'n') {
        Some(MeasuredQuantityFlag::Duration)
    } else if k == (7int, 'A', 'v', 'e', 'e') {
        Some(MeasuredQuantityFlag::Avg)
    } else if k == (9int, 'R', 'e', 'e', 'e') {
        Some(MeasuredQuantityFlag::Reference)
    } else if k == (8int, 'U', 'n', 'e', 'e') {
        Some(MeasuredQuantityFlag::Unstable)
    } else if k == (9int, 'F', 'o', 'e', 'e') {
        Some(MeasuredQuantityFlag::FourWire)
    } else {
        None
    }
}

/// The name of a flag has the key given for it, and that key leads
/// back to the flag.
proof fn lemma_flag_name_key(flag: MeasuredQuantityFlag)
    ensures
        flag.name().len() >= 2,
        name_key(flag.name()) == flag_name_key(flag),
        flag_of_name_key(flag_name_key(flag)) == Some(flag),
{
    match flag {
        MeasuredQuantityFlag::Ac => {
            reveal_strlit("AC");
        },
        MeasuredQuantityFlag::Dc => {
            reveal_strlit("DC");
        },
        MeasuredQuantityFlag::Rms => {
            reveal_strlit("RMS");
        },
        MeasuredQuantityFlag::Diode => {
            reveal_strlit("Diode");
        },
        MeasuredQuantityFlag::Hold => {
            reveal_strlit("Hold");
        },
        MeasuredQuantityFlag::Max => {
            reveal_strlit("Max");
        },
        MeasuredQuantityFlag::Min => {
            reveal_strlit("Min");
        },
        MeasuredQuantityFlag::Autorange => {
            reveal_strlit("Autorange");
        },
        MeasuredQuantityFlag::Relative => {
            reveal_strlit("Relative");
        },
        MeasuredQuantityFlag::SplFreqWeightA => {
            reveal_strlit("SPL frequency weight A");
        },
        MeasuredQuantityFlag::SplFreqWeightC => {
            reveal_strlit("SPL frequency weight C");
        },
        MeasuredQuantityFlag::SplFreqWeightZ => {
            reveal_strlit("SPL frequency weight Z");
        },
        MeasuredQuantityFlag::SplFreqWeightFlat => {
            reveal_strlit("SPL frequency weight flat");
        },
        MeasuredQuantityFlag::SplTimeWeightS => {
            reveal_strlit("SPL time weight S");
        },
        MeasuredQuantityFlag::SplTimeWeightF => {
            reveal_strlit("SPL time weight F");
        },
        MeasuredQuantityFlag::SplLat => {
            reveal_strlit("SPL LAT");
        },
        MeasuredQuantityFlag::SplPctOverAlarm => {
            reveal_strlit("SPL percentage over alarm");
        },
        MeasuredQuantityFlag::Duration => {
            reveal_strlit("Duration");
        },
        MeasuredQuantityFlag::Avg => {
            reveal_strlit("Average");
        },
        MeasuredQuantityFlag::Reference => {
            reveal_strlit("Reference");
        },
        MeasuredQuantityFlag::Unstable => {
            reveal_strlit("Unstable");
        },
        MeasuredQuantityFlag::FourWire => {
            reveal_strlit("Four wire");
        },
    }
}

/// Every flag has a non-empty name of its own: no two share one.
pub proof fn lemma_flag_names_distinct(a: MeasuredQuantityFlag, b: MeasuredQuantityFlag)
    ensures
        a.name().len() > 0,
        a.name() == b.name() ==> a == b,
{
    lemma_flag_name_key(a);
    lemma_flag_name_key(b);
}


/// The value a scanned option starts with: the value read from the device
/// whenever its value can be read (bit 31 of the capability word),
/// whatever the other bits; else, when it lists possible values (bit 29),
/// those values joined by single spaces; else the empty text.
pub proof fn lemma_initial_value_by_capabilities(
    capabilities: u32,
    current: Seq<char>,
    possible_values: Seq<Seq<char>>,
)
    ensures
        capabilities & 0x8000_0000u32 != 0 ==> initial_value(
            capabilities,
            Some(current),
            possible_values,
        ) == current,
        capabilities & 0x8000_0000u32 == 0 && capabilities & 0x2000_0000u32 != 0
            ==> initial_value(capabilities, Some(current), possible_values) == joined(
            possible_values,
            seq![' '],
        ),
        capabilities & 0x2000_0000u32 != 0 ==> initial_value(capabilities, None, possible_values)
            == joined(possible_values, seq![' ']),
        capabilities & 0xA000_0000u32 == 0 ==> initial_value(
            capabilities,
            Some(current),
            possible_values,
        ) == Seq::<char>::empty(),
{
    reveal_strlit(" ");
    assert(" "@ =~= seq![' ']);
    assert(capabilities & 0xA000_0000u32 == 0 ==> capabilities & 0x8000_0000u32 == 0
        && capabilities & 0x2000_0000u32 == 0) by (bit_vector);
}

} // verus!
