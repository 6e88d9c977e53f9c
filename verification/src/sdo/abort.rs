use vstd::prelude::*;

verus! {

/// SDO abort reason codes, the closed set of CiA 301 abort transfer codes.
/// Unknown codes on the wire decode to `GeneralError`.
#[derive(Debug, Clone, Copy, PartialEq, Eq, Structural)]
pub enum AbortCode {
    ToggleBitNotAlternated,
    SDOProtocolTimedOut,
    ClientServerCommandSpecifierNotValidOrUnknown,
    InvalidBlockSize,
    InvalidSequenceNumber,
    CrcError,
    OutOfMemory,
    UnsupportedAccessToAnObject,
    AttemptToReadAWriteOnlyObject,
    AttemptToWriteAReadOnlyObject,
    ObjectDoesNotExistInTheObjectDictionary,
    ObjectCannotBeMappedToThePDO,
    TheNumberAndLengthOfTheObjectsToBeMappedWouldExceedPdoLength,
    GeneralParameterIncompatibilityReason,
    GeneralInternalIncompatibilityInTheDevice,
    AccessFailedDueToAnHardwareError,
    DataTypeDoesNotMatchLengthOfServiceParameterDoesNotMatch,
    DataTypeDoesNotMatchLengthOfServiceParameterTooHigh,
    DataTypeDoesNotMatchLengthOfServiceParameterTooLow,
    SubIndexDoesNotExist,
    InvalidValueForParameterDownloadOnly,
    ValueOfParameterWrittenTooHighDownloadOnly,
    ValueOfParameterWrittenTooLowDownloadOnly,
    MaximumValueIsLessThanMinimumValue,
    ResourceNotAvailableSdoConnection,
    GeneralError,
    DataCannotBeTransferredOrStoredToTheApplication,
    DataCannotBeTransferredOrStoredToTheApplicationBecauseOfLocalControl,
    DataCannotBeTransferredOrStoredToTheApplicationBecauseOfThePresentDeviceState,
    ObjectDictionaryDynamicGenerationFailsOrNoObjectDictionaryIsPresent,
    NoDataAvailable,
}

/// The 32-bit wire value of an abort code, per CiA 301.
pub open spec fn spec_abort_code(c: AbortCode) -> u32 {
    match c {
        AbortCode::ToggleBitNotAlternated => 0x05030000,
        AbortCode::SDOProtocolTimedOut => 0x05040000,
        AbortCode::ClientServerCommandSpecifierNotValidOrUnknown => 0x05040001,
        AbortCode::InvalidBlockSize => 0x05040002,
        AbortCode::InvalidSequenceNumber => 0x05040003,
        AbortCode::CrcError => 0x05040004,
        AbortCode::OutOfMemory => 0x05040005,
        AbortCode::UnsupportedAccessToAnObject => 0x06010000,
        AbortCode::AttemptToReadAWriteOnlyObject => 0x06010001,
        AbortCode::AttemptToWriteAReadOnlyObject => 0x06010002,
        AbortCode::ObjectDoesNotExistInTheObjectDictionary => 0x06020000,
        AbortCode::ObjectCannotBeMappedToThePDO => 0x06040041,
        AbortCode::TheNumberAndLengthOfTheObjectsToBeMappedWouldExceedPdoLength => 0x06040042,
        AbortCode::GeneralParameterIncompatibilityReason => 0x06040043,
        AbortCode::GeneralInternalIncompatibilityInTheDevice => 0x06040047,
        AbortCode::AccessFailedDueToAnHardwareError => 0x06060000,
        AbortCode::DataTypeDoesNotMatchLengthOfServiceParameterDoesNotMatch => 0x06070010,
        AbortCode::DataTypeDoesNotMatchLengthOfServiceParameterTooHigh => 0x06070012,
        AbortCode::DataTypeDoesNotMatchLengthOfServiceParameterTooLow => 0x06070013,
        AbortCode::SubIndexDoesNotExist => 0x06090011,
        AbortCode::InvalidValueForParameterDownloadOnly => 0x06090030,
        AbortCode::ValueOfParameterWrittenTooHighDownloadOnly => 0x06090031,
        AbortCode::ValueOfParameterWrittenTooLowDownloadOnly => 0x06090032,
        AbortCode::MaximumValueIsLessThanMinimumValue => 0x06090036,
        AbortCode::ResourceNotAvailableSdoConnection => 0x060A0023,
        AbortCode::GeneralError => 0x08000000,
        AbortCode::DataCannotBeTransferredOrStoredToTheApplication => 0x08000020,
        AbortCode::DataCannotBeTransferredOrStoredToTheApplicationBecauseOfLocalControl => 0x08000021,
        AbortCode::DataCannotBeTransferredOrStoredToTheApplicationBecauseOfThePresentDeviceState => 0x08000022,
        AbortCode::ObjectDictionaryDynamicGenerationFailsOrNoObjectDictionaryIsPresent => 0x08000023,
        AbortCode::NoDataAvailable => 0x08000024,
    }
}

/// The abort code denoted by a 32-bit wire value; values outside the closed
/// set denote `GeneralError`.
pub open spec fn spec_abort_of(value: u32) -> AbortCode {
    if value == 0x05030000 {
        AbortCode::ToggleBitNotAlternated
    } else if value == 0x05040000 {
        AbortCode::SDOProtocolTimedOut
    } else if value == 0x05040001 {
        AbortCode::ClientServerCommandSpecifierNotValidOrUnknown
    } else if value == 0x05040002 {
        AbortCode::InvalidBlockSize
    } else if value == 0x05040003 {
        AbortCode::InvalidSequenceNumber
    } else if value == 0x05040004 {
        AbortCode::CrcError
    } else if value == 0x05040005 {
        AbortCode::OutOfMemory
    } else if value == 0x06010000 {
        AbortCode::UnsupportedAccessToAnObject
    } else if value == 0x06010001 {
        AbortCode::AttemptToReadAWriteOnlyObject
    } else if value == 0x06010002 {
        AbortCode::AttemptToWriteAReadOnlyObject
    } else if value == 0x06020000 {
        AbortCode::ObjectDoesNotExistInTheObjectDictionary
    } else if value == 0x06040041 {
        AbortCode::ObjectCannotBeMappedToThePDO
    } else if value == 0x06040042 {
        AbortCode::TheNumberAndLengthOfTheObjectsToBeMappedWouldExceedPdoLength
    } else if value == 0x06040043 {
        AbortCode::GeneralParameterIncompatibilityReason
    } else if value == 0x06040047 {
        AbortCode::GeneralInternalIncompatibilityInTheDevice
    } else if value == 0x06060000 {
        AbortCode::AccessFailedDueToAnHardwareError
    } else if value == 0x06070010 {
        AbortCode::DataTypeDoesNotMatchLengthOfServiceParameterDoesNotMatch
    } else if value == 0x06070012 {
        AbortCode::DataTypeDoesNotMatchLengthOfServiceParameterTooHigh
    } else if value == 0x06070013 {
        AbortCode::DataTypeDoesNotMatchLengthOfServiceParameterTooLow
    } else if value == 0x06090011 {
        AbortCode::SubIndexDoesNotExist
    } else if value == 0x06090030 {
        AbortCode::InvalidValueForParameterDownloadOnly
    } else if value == 0x06090031 {
        AbortCode::ValueOfParameterWrittenTooHighDownloadOnly
    } else if value == 0x06090032 {
        AbortCode::ValueOfParameterWrittenTooLowDownloadOnly
    } else if value == 0x06090036 {
        AbortCode::MaximumValueIsLessThanMinimumValue
    } else if value == 0x060A0023 {
        AbortCode::ResourceNotAvailableSdoConnection
    } else if value == 0x08000000 {
        AbortCode::GeneralError
    } else if value == 0x08000020 {
        AbortCode::DataCannotBeTransferredOrStoredToTheApplication
    } else if value == 0x08000021 {
        AbortCode::DataCannotBeTransferredOrStoredToTheApplicationBecauseOfLocalControl
    } else if value == 0x08000022 {
        AbortCode::DataCannotBeTransferredOrStoredToTheApplicationBecauseOfThePresentDeviceState
    } else if value == 0x08000023 {
        AbortCode::ObjectDictionaryDynamicGenerationFailsOrNoObjectDictionaryIsPresent
    } else if value == 0x08000024 {
        AbortCode::NoDataAvailable
    } else {
        AbortCode::GeneralError
    }
}

/// Every abort code decodes back from its own wire value: the closed set of
/// CiA 301 codes is carried losslessly.
pub proof fn lemma_abort_code_roundtrip(c: AbortCode)
    ensures
        spec_abort_of(spec_abort_code(c)) == c,
{
}

impl AbortCode {
    /// The 32-bit wire value of this abort code.
    pub fn code(self) -> (r: u32)
        ensures
            r == spec_abort_code(self),
    {
        match self {
            AbortCode::ToggleBitNotAlternated => 0x05030000,
            AbortCode::SDOProtocolTimedOut => 0x05040000,
            AbortCode::ClientServerCommandSpecifierNotValidOrUnknown => 0x05040001,
            AbortCode::InvalidBlockSize => 0x05040002,
            AbortCode::InvalidSequenceNumber => 0x05040003,
            AbortCode::CrcError => 0x05040004,
            AbortCode::OutOfMemory => 0x05040005,
            AbortCode::UnsupportedAccessToAnObject => 0x06010000,
            AbortCode::AttemptToReadAWriteOnlyObject => 0x06010001,
            AbortCode::AttemptToWriteAReadOnlyObject => 0x06010002,
            AbortCode::ObjectDoesNotExistInTheObjectDictionary => 0x06020000,
            AbortCode::ObjectCannotBeMappedToThePDO => 0x06040041,
            AbortCode::TheNumberAndLengthOfTheObjectsToBeMappedWouldExceedPdoLength => 0x06040042,
            AbortCode::GeneralParameterIncompatibilityReason => 0x06040043,
            AbortCode::GeneralInternalIncompatibilityInTheDevice => 0x06040047,
            AbortCode::AccessFailedDueToAnHardwareError => 0x06060000,
            AbortCode::DataTypeDoesNotMatchLengthOfServiceParameterDoesNotMatch => 0x06070010,
            AbortCode::DataTypeDoesNotMatchLengthOfServiceParameterTooHigh => 0x06070012,
            AbortCode::DataTypeDoesNotMatchLengthOfServiceParameterTooLow => 0x06070013,
            AbortCode::SubIndexDoesNotExist => 0x06090011,
            AbortCode::InvalidValueForParameterDownloadOnly => 0x06090030,
            AbortCode::ValueOfParameterWrittenTooHighDownloadOnly => 0x06090031,
            AbortCode::ValueOfParameterWrittenTooLowDownloadOnly => 0x06090032,
            AbortCode::MaximumValueIsLessThanMinimumValue => 0x06090036,
            AbortCode::ResourceNotAvailableSdoConnection => 0x060A0023,
            AbortCode::GeneralError => 0x08000000,
            AbortCode::DataCannotBeTransferredOrStoredToTheApplication => 0x08000020,
            AbortCode::DataCannotBeTransferredOrStoredToTheApplicationBecauseOfLocalControl => 0x08000021,
            AbortCode::DataCannotBeTransferredOrStoredToTheApplicationBecauseOfThePresentDeviceState => 0x08000022,
            AbortCode::ObjectDictionaryDynamicGenerationFailsOrNoObjectDictionaryIsPresent => 0x08000023,
            AbortCode::NoDataAvailable => 0x08000024,
        }
    }

    /// The abort code a 32-bit wire value denotes; unknown values fall back
    /// to `GeneralError`.
    pub fn from_code(value: u32) -> (r: AbortCode)
        ensures
            r == spec_abort_of(value),
    {
        match value {
            0x05030000 => AbortCode::ToggleBitNotAlternated,
            0x05040000 => AbortCode::SDOProtocolTimedOut,
            0x05040001 => AbortCode::ClientServerCommandSpecifierNotValidOrUnknown,
            0x05040002 => AbortCode::InvalidBlockSize,
            0x05040003 => AbortCode::InvalidSequenceNumber,
            0x05040004 => AbortCode::CrcError,
            0x05040005 => AbortCode::OutOfMemory,
            0x06010000 => AbortCode::UnsupportedAccessToAnObject,
            0x06010001 => AbortCode::AttemptToReadAWriteOnlyObject,
            0x06010002 => AbortCode::AttemptToWriteAReadOnlyObject,
            0x06020000 => AbortCode::ObjectDoesNotExistInTheObjectDictionary,
            0x06040041 => AbortCode::ObjectCannotBeMappedToThePDO,
            0x06040042 => AbortCode::TheNumberAndLengthOfTheObjectsToBeMappedWouldExceedPdoLength,
            0x06040043 => AbortCode::GeneralParameterIncompatibilityReason,
            0x06040047 => AbortCode::GeneralInternalIncompatibilityInTheDevice,
            0x06060000 => AbortCode::AccessFailedDueToAnHardwareError,
            0x06070010 => AbortCode::DataTypeDoesNotMatchLengthOfServiceParameterDoesNotMatch,
            0x06070012 => AbortCode::DataTypeDoesNotMatchLengthOfServiceParameterTooHigh,
            0x06070013 => AbortCode::DataTypeDoesNotMatchLengthOfServiceParameterTooLow,
            0x06090011 => AbortCode::SubIndexDoesNotExist,
            0x06090030 => AbortCode::InvalidValueForParameterDownloadOnly,
            0x06090031 => AbortCode::ValueOfParameterWrittenTooHighDownloadOnly,
            0x06090032 => AbortCode::ValueOfParameterWrittenTooLowDownloadOnly,
            0x06090036 => AbortCode::MaximumValueIsLessThanMinimumValue,
            0x060A0023 => AbortCode::ResourceNotAvailableSdoConnection,
            0x08000000 => AbortCode::GeneralError,
            0x08000020 => AbortCode::DataCannotBeTransferredOrStoredToTheApplication,
            0x08000021 => AbortCode::DataCannotBeTransferredOrStoredToTheApplicationBecauseOfLocalControl,
            0x08000022 => AbortCode::DataCannotBeTransferredOrStoredToTheApplicationBecauseOfThePresentDeviceState,
            0x08000023 => AbortCode::ObjectDictionaryDynamicGenerationFailsOrNoObjectDictionaryIsPresent,
            0x08000024 => AbortCode::NoDataAvailable,
            _ => AbortCode::GeneralError,
        }
    }
}

} // verus!
