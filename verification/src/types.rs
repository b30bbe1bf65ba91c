//! Enumerations shared with libsigrok, and the status-code conventions
//! of its C interface.

use vstd::prelude::*;

verus! {

/// Log level.
#[derive(Debug, Clone, Copy, PartialEq, Eq, Structural)]
pub enum LogLevel {
    LogNone,
    LogErr,
    LogWarn,
    LogInfo,
    LogDbg,
    LogSpew,
}

impl LogLevel {
    /// The number libsigrok uses for the level.
    pub open spec fn spec_code(self) -> i32 {
        match self {
            LogLevel::LogNone => 0,
            LogLevel::LogErr => 1,
            LogLevel::LogWarn => 2,
            LogLevel::LogInfo => 3,
            LogLevel::LogDbg => 4,
            LogLevel::LogSpew => 5,
        }
    }

    /// Returns the number libsigrok uses for the level.
    pub fn code(&self) -> (c: i32)
        ensures
            c == self.spec_code(),
    {
        match self {
            LogLevel::LogNone => 0,
            LogLevel::LogErr => 1,
            LogLevel::LogWarn => 2,
            LogLevel::LogInfo => 3,
            LogLevel::LogDbg => 4,
            LogLevel::LogSpew => 5,
        }
    }
}

/// Sigrok error codes.
#[derive(Debug, Clone, Copy, PartialEq, Eq, Structural)]
pub enum SrError {
    /// No error.
    SrOk,
    /// Generic/unspecified error.
    SrErr,
    /// Malloc/calloc/realloc error.
    SrErrMalloc,
    /// Function argument error.
    SrErrArg,
    /// Errors hinting at internal bugs.
    SrErrBug,
    /// Incorrect samplerate.
    SrErrSampleRate,
    /// Not applicable.
    SrErrNA,
    /// Device is closed, but must be open.
    SrErrDevClose,
    /// A timeout occurred.
    SrErrTimeout,
    /// A channel group must be specified.
    SrErrChannelGroup,
    /// Data is invalid.
    SrErrData,
    /// Input/output error.
    SrErrIO,
    /// Device not found.
    SrDeviceNotFound,
    /// Pointer was NULL.
    SrNull,
    /// Configuration option does not exist.
    SrOptionNotExist,
    /// Invalid value for configuration option.
    SrInvalidOptionValue,
    /// Channel name or index not found.
    SrChannelNotFound,
}

/// The error that a libsigrok status code stands for; a code that names
/// no error stands for "not applicable".
pub open spec fn error_of_code(value: i32) -> SrError {
    if value == 0 {
        SrError::SrOk
    } else if value == -1 {
        SrError::SrErr
    } else if value == -2 {
        SrError::SrErrMalloc
    } else if value == -3 {
        SrError::SrErrArg
    } else if value == -4 {
        SrError::SrErrBug
    } else if value == -5 {
        SrError::SrErrSampleRate
    } else if value == -6 {
        SrError::SrErrNA
    } else if value == -7 {
        SrError::SrErrDevClose
    } else if value == -8 {
        SrError::SrErrTimeout
    } else if value == -9 {
        SrError::SrErrChannelGroup
    } else if value == -10 {
        SrError::SrErrData
    } else if value == -11 {
        SrError::SrErrIO
    } else if value == -12 {
        SrError::SrDeviceNotFound
    } else if value == -13 {
        SrError::SrNull
    } else if value == -14 {
        SrError::SrOptionNotExist
    } else if value == -15 {
        SrError::SrInvalidOptionValue
    } else if value == -16 {
        SrError::SrChannelNotFound
    } else {
        SrError::SrErrNA
    }
}

impl SrError {
    /// The status code of the error.
    pub open spec fn spec_code(self) -> i32 {
        match self {
            SrError::SrOk => 0i32,
            SrError::SrErr => -1i32,
            SrError::SrErrMalloc => -2i32,
            SrError::SrErrArg => -3i32,
            SrError::SrErrBug => -4i32,
            SrError::SrErrSampleRate => -5i32,
            SrError::SrErrNA => -6i32,
            SrError::SrErrDevClose => -7i32,
            SrError::SrErrTimeout => -8i32,
            SrError::SrErrChannelGroup => -9i32,
            SrError::SrErrData => -10i32,
            SrError::SrErrIO => -11i32,
            SrError::SrDeviceNotFound => -12i32,
            SrError::SrNull => -13i32,
            SrError::SrOptionNotExist => -14i32,
            SrError::SrInvalidOptionValue => -15i32,
            SrError::SrChannelNotFound => -16i32,
        }
    }

    /// Returns the status code of the error.
    pub fn code(&self) -> (c: i32)
        ensures
            c == self.spec_code(),
    {
        match self {
            SrError::SrOk => 0,
            SrError::SrErr => -1,
            SrError::SrErrMalloc => -2,
            SrError::SrErrArg => -3,
            SrError::SrErrBug => -4,
            SrError::SrErrSampleRate => -5,
            SrError::SrErrNA => -6,
            SrError::SrErrDevClose => -7,
            SrError::SrErrTimeout => -8,
            SrError::SrErrChannelGroup => -9,
            SrError::SrErrData => -10,
            SrError::SrErrIO => -11,
            SrError::SrDeviceNotFound => -12,
            SrError::SrNull => -13,
            SrError::SrOptionNotExist => -14,
            SrError::SrInvalidOptionValue => -15,
            SrError::SrChannelNotFound => -16,
        }
    }
}

impl From<i32> for SrError {
    fn from(value: i32) -> (e: SrError) {
        match value {
            0 => SrError::SrOk,
            -1 => SrError::SrErr,
            -2 => SrError::SrErrMalloc,
            -3 => SrError::SrErrArg,
            -4 => SrError::SrErrBug,
            -5 => SrError::SrErrSampleRate,
            -6 => SrError::SrErrNA,
            -7 => SrError::SrErrDevClose,
            -8 => SrError::SrErrTimeout,
            -9 => SrError::SrErrChannelGroup,
            -10 => SrError::SrErrData,
            -11 => SrError::SrErrIO,
            -12 => SrError::SrDeviceNotFound,
            -13 => SrError::SrNull,
            -14 => SrError::SrOptionNotExist,
            -15 => SrError::SrInvalidOptionValue,
            -16 => SrError::SrChannelNotFound,
            _ => SrError::SrErrNA,
        }
    }
}

impl vstd::std_specs::convert::FromSpecImpl<i32> for SrError {
    open spec fn obeys_from_spec() -> bool {
        true
    }

    open spec fn from_spec(v: i32) -> SrError {
        error_of_code(v)
    }
}

/// Turns a libsigrok status code into a result: the code of success
/// gives `Ok`, any other code the error it stands for.
pub fn check_status(status: i32) -> (r: Result<(), SrError>)
    ensures
        status == 0 ==> r is Ok,
        status != 0 ==> r == Err::<(), SrError>(error_of_code(status)),
{
    if status != 0 {
        Err(SrError::from(status))
    } else {
        Ok(())
    }
}

/// Every error is given back by its own status code.
pub proof fn lemma_error_code_roundtrip(e: SrError)
    ensures
        error_of_code(e.spec_code()) == e,
{
}

/// Every code from success down to the last custom error names one error,
/// whose code it is; every other code stands for "not applicable".
pub proof fn lemma_code_error_roundtrip(value: i32)
    ensures
        -16 <= value <= 0 ==> error_of_code(value).spec_code() == value,
        !(-16 <= value <= 0) ==> error_of_code(value) == SrError::SrErrNA,
{
}


/// Device type.
#[derive(Debug, Clone, Copy, PartialEq, Eq, Structural)]
pub enum DeviceType {
    /// The device can act as logic analyzer.
    LogicAnalyzer,
    /// The device can act as an oscilloscope.
    Oscilloscope,
    /// The device can act as a multimeter.
    Multimeter,
    /// The device is a demo device.
    DemoDev,
    /// The device can act as a sound level meter.
    SoundLevelMeter,
    /// The device can measure temperature.
    Thermometer,
    /// The device can measure humidity.
    Hygrometer,
    /// The device can measure energy consumption.
    EnergyMeter,
    /// The device can act as a signal demodulator.
    Demodulator,
    /// The device can act as a programmable power supply.
    PowerSupply,
    /// The device can act as an LCR meter.
    LCRMeter,
    /// The device can act as an electronic load.
    ElectronicLoad,
    /// The device can act as a scale.
    Scale,
    /// The device can act as a function generator.
    SignalGenerator,
    /// The device can measure power.
    PowerMeter,
}

impl DeviceType {
    /// The number libsigrok uses for the device type.
    pub open spec fn spec_code(self) -> u32 {
        match self {
            DeviceType::LogicAnalyzer => 10000u32,
            DeviceType::Oscilloscope => 10001u32,
            DeviceType::Multimeter => 10002u32,
            DeviceType::DemoDev => 10003u32,
            DeviceType::SoundLevelMeter => 10004u32,
            DeviceType::Thermometer => 10005u32,
            DeviceType::Hygrometer => 10006u32,
            DeviceType::EnergyMeter => 10007u32,
            DeviceType::Demodulator => 10008u32,
            DeviceType::PowerSupply => 10009u32,
            DeviceType::LCRMeter => 10010u32,
            DeviceType::ElectronicLoad => 10011u32,
            DeviceType::Scale => 10012u32,
            DeviceType::SignalGenerator => 10013u32,
            DeviceType::PowerMeter => 10014u32,
        }
    }

    /// Returns the number libsigrok uses for the device type.
    pub fn code(&self) -> (c: u32)
        ensures
            c == self.spec_code(),
    {
        match self {
            DeviceType::LogicAnalyzer => 10000,
            DeviceType::Oscilloscope => 10001,
            DeviceType::Multimeter => 10002,
            DeviceType::DemoDev => 10003,
            DeviceType::SoundLevelMeter => 10004,
            DeviceType::Thermometer => 10005,
            DeviceType::Hygrometer => 10006,
            DeviceType::EnergyMeter => 10007,
            DeviceType::Demodulator => 10008,
            DeviceType::PowerSupply => 10009,
            DeviceType::LCRMeter => 10010,
            DeviceType::ElectronicLoad => 10011,
            DeviceType::Scale => 10012,
            DeviceType::SignalGenerator => 10013,
            DeviceType::PowerMeter => 10014,
        }
    }
}

/// Packet type.
#[derive(Debug, Clone, Copy, PartialEq, Eq, Structural)]
pub enum PacketType {
    /// Payload is the header of a data feed.
    Header,
    /// End of stream (no further data).
    End,
    /// Payload is a list of configuration changes.
    Meta,
    /// The trigger matched at this point in the data feed. No payload.
    Trigger,
    /// Payload is a block of logic samples.
    Logic,
    /// Beginning of frame. No payload.
    FrameBegin,
    /// End of frame. No payload.
    FrameEnd,
    /// Payload is a block of analog samples.
    Analog,
}

impl PacketType {
    /// The number libsigrok uses for the packet type.
    pub open spec fn spec_code(self) -> u16 {
        match self {
            PacketType::Header => 10000u16,
            PacketType::End => 10001u16,
            PacketType::Meta => 10002u16,
            PacketType::Trigger => 10003u16,
            PacketType::Logic => 10004u16,
            PacketType::FrameBegin => 10005u16,
            PacketType::FrameEnd => 10006u16,
            PacketType::Analog => 10007u16,
        }
    }

    /// Returns the number libsigrok uses for the packet type.
    pub fn code(&self) -> (c: u16)
        ensures
            c == self.spec_code(),
    {
        match self {
            PacketType::Header => 10000,
            PacketType::End => 10001,
            PacketType::Meta => 10002,
            PacketType::Trigger => 10003,
            PacketType::Logic => 10004,
            PacketType::FrameBegin => 10005,
            PacketType::FrameEnd => 10006,
            PacketType::Analog => 10007,
        }
    }
}

/// The packet type that a libsigrok number names, if any.
pub open spec fn packet_type_of_code(value: u16) -> Result<PacketType, SrError> {
    if value == 10000 {
        Ok(PacketType::Header)
    } else if value == 10001 {
        Ok(PacketType::End)
    } else if value == 10002 {
        Ok(PacketType::Meta)
    } else if value == 10003 {
        Ok(PacketType::Trigger)
    } else if value == 10004 {
        Ok(PacketType::Logic)
    } else if value == 10005 {
        Ok(PacketType::FrameBegin)
    } else if value == 10006 {
        Ok(PacketType::FrameEnd)
    } else if value == 10007 {
        Ok(PacketType::Analog)
    } else {
        Err(SrError::SrErrNA)
    }
}

impl TryFrom<u16> for PacketType {
    type Error = SrError;

    fn try_from(value: u16) -> (r: Result<PacketType, SrError>) {
        match value {
            10000 => Ok(PacketType::Header),
            10001 => Ok(PacketType::End),
            10002 => Ok(PacketType::Meta),
            10003 => Ok(PacketType::Trigger),
            10004 => Ok(PacketType::Logic),
            10005 => Ok(PacketType::FrameBegin),
            10006 => Ok(PacketType::FrameEnd),
            10007 => Ok(PacketType::Analog),
            _ => Err(SrError::SrErrNA),
        }
    }
}

impl vstd::std_specs::convert::TryFromSpecImpl<u16> for PacketType {
    open spec fn obeys_try_from_spec() -> bool {
        true
    }

    open spec fn try_from_spec(v: u16) -> Result<PacketType, SrError> {
        packet_type_of_code(v)
    }
}

/// Every packet type is named by its own number, and by no other.
pub proof fn lemma_packet_type_code_roundtrip(t: PacketType, value: u16)
    ensures
        packet_type_of_code(t.spec_code()) == Ok::<PacketType, SrError>(t),
        packet_type_of_code(value) matches Ok(u) ==> u.spec_code() == value,
        packet_type_of_code(value) is Err <==> !(10000 <= value <= 10007),
{
}

} // verus!
