use vstd::prelude::*;

verus! {

/// The CiA 301 SDO abort-code catalogue.
///
/// Each variant stands for one 32-bit abort code; [`SDOAbortCode::code`]
/// gives the on-wire value and [`SDOAbortCode::from_code`] parses one.
#[derive(Clone, Copy, PartialEq, Eq, Structural, Debug)]
pub enum SDOAbortCode {
    UnknownAbortCode,
    ToggleBitNotAlternated,
    SDOProtocolTimedOut,
    CommandSpecifierError,
    InvalidBlockSize,
    InvalidSequenceNumber,
    CRCError,
    OutOfMemory,
    UnsupportedAccess,
    WriteOnlyError,
    ReadOnlyError,
    ObjectDoesNotExist,
    ObjectCannotBeMapped,
    PDOOverflow,
    ParameterIncompatibility,
    InternalIncompatibility,
    HardwareError,
    WrongLength,
    TooLong,
    TooShort,
    SubindexDoesNotExist,
    InvalidValue,
    ValueTooHigh,
    ValueTooLow,
    MaxLessThanMin,
    ResourceNotAvailable,
    GeneralError,
    TransferOrStorageError,
    LocalControlError,
    DeviceStateError,
    DictionaryError,
    NoDataAvailable,
}

impl SDOAbortCode {
    /// The 32-bit abort code of each variant, as CiA 301 lists them.
    pub open spec fn spec_code(self) -> u32 {
        match self {
            SDOAbortCode::UnknownAbortCode => 0,
            SDOAbortCode::ToggleBitNotAlternated => 0x0503_0000,
            SDOAbortCode::SDOProtocolTimedOut => 0x0504_0000,
            SDOAbortCode::CommandSpecifierError => 0x0504_0001,
            SDOAbortCode::InvalidBlockSize => 0x0504_0002,
            SDOAbortCode::InvalidSequenceNumber => 0x0504_0003,
            SDOAbortCode::CRCError => 0x0504_0004,
            SDOAbortCode::OutOfMemory => 0x0504_0005,
            SDOAbortCode::UnsupportedAccess => 0x0601_0000,
            SDOAbortCode::ReadOnlyError => 0x0601_0001,
            SDOAbortCode::WriteOnlyError => 0x0601_0002,
            SDOAbortCode::ObjectDoesNotExist => 0x0602_0000,
            SDOAbortCode::ObjectCannotBeMapped => 0x0604_0041,
            SDOAbortCode::PDOOverflow => 0x0604_0042,
            SDOAbortCode::ParameterIncompatibility => 0x0604_0043,
            SDOAbortCode::InternalIncompatibility => 0x0604_0047,
            SDOAbortCode::HardwareError => 0x0606_0000,
            SDOAbortCode::WrongLength => 0x0607_0010,
            SDOAbortCode::TooLong => 0x0607_0012,
            SDOAbortCode::TooShort => 0x0607_0013,
            SDOAbortCode::SubindexDoesNotExist => 0x0609_0011,
            SDOAbortCode::InvalidValue => 0x0609_0030,
            SDOAbortCode::ValueTooHigh => 0x0609_0031,
            SDOAbortCode::ValueTooLow => 0x0609_0032,
            SDOAbortCode::MaxLessThanMin => 0x0609_0036,
            SDOAbortCode::ResourceNotAvailable => 0x060A_0023,
            SDOAbortCode::GeneralError => 0x0800_0000,
            SDOAbortCode::TransferOrStorageError => 0x0800_0020,
            SDOAbortCode::LocalControlError => 0x0800_0021,
            SDOAbortCode::DeviceStateError => 0x0800_0022,
            SDOAbortCode::DictionaryError => 0x0800_0023,
            SDOAbortCode::NoDataAvailable => 0x0800_0024,
        }
    }

    /// The abort code that is sent on the wire for this error.
    pub fn code(self) -> (r: u32)
        ensures
            r == self.spec_code(),
    {
        match self {
            SDOAbortCode::UnknownAbortCode => 0,
            SDOAbortCode::ToggleBitNotAlternated => 0x0503_0000,
            SDOAbortCode::SDOProtocolTimedOut => 0x0504_0000,
            SDOAbortCode::CommandSpecifierError => 0x0504_0001,
            SDOAbortCode::InvalidBlockSize => 0x0504_0002,
            SDOAbortCode::InvalidSequenceNumber => 0x0504_0003,
            SDOAbortCode::CRCError => 0x0504_0004,
            SDOAbortCode::OutOfMemory => 0x0504_0005,
            SDOAbortCode::UnsupportedAccess => 0x0601_0000,
            SDOAbortCode::ReadOnlyError => 0x0601_0001,
            SDOAbortCode::WriteOnlyError => 0x0601_0002,
            SDOAbortCode::ObjectDoesNotExist => 0x0602_0000,
            SDOAbortCode::ObjectCannotBeMapped => 0x0604_0041,
            SDOAbortCode::PDOOverflow => 0x0604_0042,
            SDOAbortCode::ParameterIncompatibility => 0x0604_0043,
            SDOAbortCode::InternalIncompatibility => 0x0604_0047,
            SDOAbortCode::HardwareError => 0x0606_0000,
            SDOAbortCode::WrongLength => 0x0607_0010,
            SDOAbortCode::TooLong => 0x0607_0012,
            SDOAbortCode::TooShort => 0x0607_0013,
            SDOAbortCode::SubindexDoesNotExist => 0x0609_0011,
            SDOAbortCode::InvalidValue => 0x0609_0030,
            SDOAbortCode::ValueTooHigh => 0x0609_0031,
            SDOAbortCode::ValueTooLow => 0x0609_0032,
            SDOAbortCode::MaxLessThanMin => 0x0609_0036,
            SDOAbortCode::ResourceNotAvailable => 0x060A_0023,
            SDOAbortCode::GeneralError => 0x0800_0000,
            SDOAbortCode::TransferOrStorageError => 0x0800_0020,
            SDOAbortCode::LocalControlError => 0x0800_0021,
            SDOAbortCode::DeviceStateError => 0x0800_0022,
            SDOAbortCode::DictionaryError => 0x0800_0023,
            SDOAbortCode::NoDataAvailable => 0x0800_0024,
        }
    }

    /// The human-readable CiA 301 description of this abort code.
    pub fn description(&self) -> &'static str {
        match self {
            SDOAbortCode::ToggleBitNotAlternated => "Toggle bit not alternated",
            SDOAbortCode::SDOProtocolTimedOut => "SDO protocol timed out",
            SDOAbortCode::CommandSpecifierError => "Client/server command specifier not valid or unknown",
            SDOAbortCode::InvalidBlockSize => "Invalid block size",
            SDOAbortCode::InvalidSequenceNumber => "Invalid sequence number",
            SDOAbortCode::CRCError => "CRC error",
            SDOAbortCode::OutOfMemory => "Out of memory",
            SDOAbortCode::UnsupportedAccess => "Unsupported access to an object",
            SDOAbortCode::WriteOnlyError => "Attempt to read a write only object",
            SDOAbortCode::ReadOnlyError => "Attempt to write a read only object",
            SDOAbortCode::ObjectDoesNotExist => "Object does not exist in the object dictionary",
            SDOAbortCode::ObjectCannotBeMapped => "Object cannot be mapped to the PDO",
            SDOAbortCode::PDOOverflow => "The number and length of the objects to be mapped would exceed PDO length",
            SDOAbortCode::ParameterIncompatibility => "General parameter incompatibility reason",
            SDOAbortCode::InternalIncompatibility => "General internal incompatibility in the device",
            SDOAbortCode::HardwareError => "Access failed due to a hardware error",
            SDOAbortCode::WrongLength => "Data type does not match, length of service parameter does not match",
            SDOAbortCode::TooLong => "Data type does not match, length of service parameter too high",
            SDOAbortCode::TooShort => "Data type does not match, length of service parameter too low",
            SDOAbortCode::SubindexDoesNotExist => "Subindex does not exist",
            SDOAbortCode::InvalidValue => "Invalid value for parameter",
            SDOAbortCode::ValueTooHigh => "Value of parameter written too high",
            SDOAbortCode::ValueTooLow => "Value of parameter written too low",
            SDOAbortCode::MaxLessThanMin => "Maximum value is less than minimum value",
            SDOAbortCode::ResourceNotAvailable => "Resource not available: SDO connection",
            SDOAbortCode::GeneralError => "General error",
            SDOAbortCode::TransferOrStorageError => "Data cannot be transferred or stored to the application",
            SDOAbortCode::LocalControlError => "Data can not be transferred or stored to the application because of local control",
            SDOAbortCode::DeviceStateError => "Data can not be transferred or stored to the application because of the present device state",
            SDOAbortCode::DictionaryError => "Object dictionary dynamic generation fails or no object dictionary is present",
            SDOAbortCode::NoDataAvailable => "No data available",
            SDOAbortCode::UnknownAbortCode => "Unknown abort code",
        }
    }

    /// The variant whose code is `code`, as [`SDOAbortCode::from_code`] picks it.
    pub open spec fn spec_from_code(code: u32) -> SDOAbortCode {
        match code {
            0x0503_0000 => SDOAbortCode::ToggleBitNotAlternated,
            0x0504_0000 => SDOAbortCode::SDOProtocolTimedOut,
            0x0504_0001 => SDOAbortCode::CommandSpecifierError,
            0x0504_0002 => SDOAbortCode::InvalidBlockSize,
            0x0504_0003 => SDOAbortCode::InvalidSequenceNumber,
            0x0504_0004 => SDOAbortCode::CRCError,
            0x0504_0005 => SDOAbortCode::OutOfMemory,
            0x0601_0000 => SDOAbortCode::UnsupportedAccess,
            0x0601_0001 => SDOAbortCode::ReadOnlyError,
            0x0601_0002 => SDOAbortCode::WriteOnlyError,
            0x0602_0000 => SDOAbortCode::ObjectDoesNotExist,
            0x0604_0041 => SDOAbortCode::ObjectCannotBeMapped,
            0x0604_0042 => SDOAbortCode::PDOOverflow,
            0x0604_0043 => SDOAbortCode::ParameterIncompatibility,
            0x0604_0047 => SDOAbortCode::InternalIncompatibility,
            0x0606_0000 => SDOAbortCode::HardwareError,
            0x0607_0010 => SDOAbortCode::WrongLength,
            0x0607_0012 => SDOAbortCode::TooLong,
            0x0607_0013 => SDOAbortCode::TooShort,
            0x0609_0011 => SDOAbortCode::SubindexDoesNotExist,
            0x0609_0030 => SDOAbortCode::InvalidValue,
            0x0609_0031 => SDOAbortCode::ValueTooHigh,
            0x0609_0032 => SDOAbortCode::ValueTooLow,
            0x0609_0036 => SDOAbortCode::MaxLessThanMin,
            0x0800_0000 => SDOAbortCode::GeneralError,
            0x0800_0020 => SDOAbortCode::TransferOrStorageError,
            0x0800_0021 => SDOAbortCode::LocalControlError,
            0x0800_0022 => SDOAbortCode::DeviceStateError,
            0x0800_0023 => SDOAbortCode::DictionaryError,
            0x0800_0024 => SDOAbortCode::NoDataAvailable,
            _ => SDOAbortCode::UnknownAbortCode,
        }
    }

    /// Parse a 32-bit abort code; unknown codes give `UnknownAbortCode`.
    pub fn from_code(code: u32) -> (r: SDOAbortCode)
        ensures
            r == SDOAbortCode::spec_from_code(code),
    {
        match code {
            0x0503_0000 => SDOAbortCode::ToggleBitNotAlternated,
            0x0504_0000 => SDOAbortCode::SDOProtocolTimedOut,
            0x0504_0001 => SDOAbortCode::CommandSpecifierError,
            0x0504_0002 => SDOAbortCode::InvalidBlockSize,
            0x0504_0003 => SDOAbortCode::InvalidSequenceNumber,
            0x0504_0004 => SDOAbortCode::CRCError,
            0x0504_0005 => SDOAbortCode::OutOfMemory,
            0x0601_0000 => SDOAbortCode::UnsupportedAccess,
            0x0601_0001 => SDOAbortCode::ReadOnlyError,
            0x0601_0002 => SDOAbortCode::WriteOnlyError,
            0x0602_0000 => SDOAbortCode::ObjectDoesNotExist,
            0x0604_0041 => SDOAbortCode::ObjectCannotBeMapped,
            0x0604_0042 => SDOAbortCode::PDOOverflow,
            0x0604_0043 => SDOAbortCode::ParameterIncompatibility,
            0x0604_0047 => SDOAbortCode::InternalIncompatibility,
            0x0606_0000 => SDOAbortCode::HardwareError,
            0x0607_0010 => SDOAbortCode::WrongLength,
            0x0607_0012 => SDOAbortCode::TooLong,
            0x0607_0013 => SDOAbortCode::TooShort,
            0x0609_0011 => SDOAbortCode::SubindexDoesNotExist,
            0x0609_0030 => SDOAbortCode::InvalidValue,
            0x0609_0031 => SDOAbortCode::ValueTooHigh,
            0x0609_0032 => SDOAbortCode::ValueTooLow,
            0x0609_0036 => SDOAbortCode::MaxLessThanMin,
            0x0800_0000 => SDOAbortCode::GeneralError,
            0x0800_0020 => SDOAbortCode::TransferOrStorageError,
            0x0800_0021 => SDOAbortCode::LocalControlError,
            0x0800_0022 => SDOAbortCode::DeviceStateError,
            0x0800_0023 => SDOAbortCode::DictionaryError,
            0x0800_0024 => SDOAbortCode::NoDataAvailable,
            _ => SDOAbortCode::UnknownAbortCode,
        }
    }
}

} // verus!
