use vstd::prelude::*;

verus! {

/// Errors reported by the confidential-computing platform, and the two
/// failures that carry no platform status code.
///
/// Status codes `0` (success) and `0x12` (already active) are no errors and
/// never reach this type.
#[derive(Debug, Clone, Copy, PartialEq, Eq, Structural)]
pub enum SevError {
    /// The platform state is invalid for this command
    InvalidPlatformState,
    /// The guest state is invalid for this command
    InvalidGuestState,
    /// The platform configuration is invalid
    InvalidConfig,
    /// A memory buffer is too small
    InvalidLength,
    /// The platform is already owned
    AlreadyOwned,
    /// The certificate is invalid
    InvalidCertificate,
    /// Request is not allowed by guest policy
    PolicyFailure,
    /// The guest is inactive
    Inactive,
    /// The address provided is inactive
    InvalidAddress,
    /// The provided signature is invalid
    BadSignature,
    /// The provided measurement is invalid
    BadMeasurement,
    /// The ASID is already owned
    AsidOwned,
    /// The ASID is invalid
    InvalidAsid,
    /// WBINVD instruction required
    WBINVDRequired,
    /// DF_FLUSH invocation required
    DfFlushRequired,
    /// The guest handle is invalid
    InvalidGuest,
    /// The command issued is invalid
    InvalidCommand,
    /// A hardware condition has occurred affecting the platform. It is safe to re-allocate parameter buffers
    HwerrorPlatform,
    /// A hardware condition has occurred affecting the platform. Re-allocating parameter buffers is not safe
    HwerrorUnsafe,
    /// Feature is unsupported
    Unsupported,
    /// A parameter is invalid
    InvalidParam,
    /// The firmware has run out of a resource necessary to complete the command
    ResourceLimit,
    /// The part-specific data failed integrity checks
    SecureDataInvalid,
    /// A mailbox mode command was sent while the firmware was in Ring Buffer mode
    RbModeExited,
    /// The RMP page size is incorrect
    InvalidPageSize,
    /// The RMP page state is incorrect
    InvalidPageState,
    /// The metadata entry is invalid
    InvalidMDataEntry,
    /// The page ownership is incorrect
    InvalidPageOwner,
    /// The AEAD algorithm would have overflowed
    AeadOverflow,
    /// The RMP must be reinitialized
    RmpInitRequired,
    /// SVN of provided image is lower than the committed SVN
    BadSvn,
    /// Firmware version anti-rollback
    BadVersion,
    /// An invocation of SNP_SHUTDOWN is required to complete this action
    ShutdownRequired,
    /// Update of the firmware internal state or a guest context page has failed
    UpdateFailed,
    /// Installation of the committed firmware image required
    RestoreRequired,
    /// The RMP initialization failed
    RmpInitFailed,
    /// The key requested is invalid, not present, or not allowed
    InvalidKey,
    /// The error code returned by the device is not valid
    InvalidErrorCode,
    /// The system call failed without a platform status code
    Errno(i32),
}

/// Errors of the image loaders.
#[derive(Debug, Clone, Copy, PartialEq, Eq, Structural)]
pub enum Error {
    /// Error loading the firmware image
    FirmwareLoad,
}

/// Result of an operation that may fail with a platform error.
pub type SevResult<T> = Result<T, SevError>;

/// The platform's published status-code table.
pub open spec fn sev_error_of(code: u32) -> SevError {
    match code {
        0x01 => SevError::InvalidPlatformState,
        0x02 => SevError::InvalidGuestState,
        0x03 => SevError::InvalidConfig,
        0x04 => SevError::InvalidLength,
        0x05 => SevError::AlreadyOwned,
        0x06 => SevError::InvalidCertificate,
        0x07 => SevError::PolicyFailure,
        0x08 => SevError::Inactive,
        0x09 => SevError::InvalidAddress,
        0x0a => SevError::BadSignature,
        0x0b => SevError::BadMeasurement,
        0x0c => SevError::AsidOwned,
        0x0d => SevError::InvalidAsid,
        0x0e => SevError::WBINVDRequired,
        0x0f => SevError::DfFlushRequired,
        0x10 => SevError::InvalidGuest,
        0x11 => SevError::InvalidCommand,
        0x13 => SevError::HwerrorPlatform,
        0x14 => SevError::HwerrorUnsafe,
        0x15 => SevError::Unsupported,
        0x16 => SevError::InvalidParam,
        0x17 => SevError::ResourceLimit,
        0x18 => SevError::SecureDataInvalid,
        0x19 => SevError::InvalidPageSize,
        0x1a => SevError::InvalidPageState,
        0x1b => SevError::InvalidMDataEntry,
        0x1c => SevError::InvalidPageOwner,
        0x1d => SevError::AeadOverflow,
        0x1f => SevError::RbModeExited,
        0x20 => SevError::RmpInitRequired,
        0x21 => SevError::BadSvn,
        0x22 => SevError::BadVersion,
        0x23 => SevError::ShutdownRequired,
        0x24 => SevError::UpdateFailed,
        0x25 => SevError::RestoreRequired,
        0x26 => SevError::RmpInitFailed,
        0x27 => SevError::InvalidKey,
        _ => SevError::InvalidErrorCode,
    }
}

impl From<u32> for SevError {
    /// Translates a platform status code; a code outside the table gives
    /// `InvalidErrorCode`.
    fn from(code: u32) -> (r: SevError)
        ensures
            r == sev_error_of(code),
    {
        match code {
            0x01 => SevError::InvalidPlatformState,
            0x02 => SevError::InvalidGuestState,
            0x03 => SevError::InvalidConfig,
            0x04 => SevError::InvalidLength,
            0x05 => SevError::AlreadyOwned,
            0x06 => SevError::InvalidCertificate,
            0x07 => SevError::PolicyFailure,
            0x08 => SevError::Inactive,
            0x09 => SevError::InvalidAddress,
            0x0a => SevError::BadSignature,
            0x0b => SevError::BadMeasurement,
            0x0c => SevError::AsidOwned,
            0x0d => SevError::InvalidAsid,
            0x0e => SevError::WBINVDRequired,
            0x0f => SevError::DfFlushRequired,
            0x10 => SevError::InvalidGuest,
            0x11 => SevError::InvalidCommand,
            0x13 => SevError::HwerrorPlatform,
            0x14 => SevError::HwerrorUnsafe,
            0x15 => SevError::Unsupported,
            0x16 => SevError::InvalidParam,
            0x17 => SevError::ResourceLimit,
            0x18 => SevError::SecureDataInvalid,
            0x19 => SevError::InvalidPageSize,
            0x1a => SevError::InvalidPageState,
            0x1b => SevError::InvalidMDataEntry,
            0x1c => SevError::InvalidPageOwner,
            0x1d => SevError::AeadOverflow,
            0x1f => SevError::RbModeExited,
            0x20 => SevError::RmpInitRequired,
            0x21 => SevError::BadSvn,
            0x22 => SevError::BadVersion,
            0x23 => SevError::ShutdownRequired,
            0x24 => SevError::UpdateFailed,
            0x25 => SevError::RestoreRequired,
            0x26 => SevError::RmpInitFailed,
            0x27 => SevError::InvalidKey,
            _ => SevError::InvalidErrorCode,
        }
    }
}

impl vstd::std_specs::convert::FromSpecImpl<u32> for SevError {
    open spec fn obeys_from_spec() -> bool {
        true
    }

    open spec fn from_spec(code: u32) -> SevError {
        sev_error_of(code)
    }
}

/// How a submitted command failed: the system error number, and the status
/// code that the platform wrote into the command envelope (`0` when it wrote
/// none).
#[derive(Debug, Clone, Copy, PartialEq, Eq, Structural)]
pub struct DispatchFailure {
    pub errno: i32,
    pub status: u32,
}

/// The error that a failed submission stands for.
pub open spec fn dispatch_error_of(f: DispatchFailure) -> SevError {
    if f.status > 0 {
        sev_error_of(f.status)
    } else {
        SevError::Errno(f.errno)
    }
}

/// Turns a failed command submission into a typed error: the platform's status
/// code where it reported one, the raw system error number otherwise.
pub fn dispatch_error(failure: DispatchFailure) -> (r: SevError)
    ensures
        r == dispatch_error_of(failure),
{
    if failure.status > 0 {
        SevError::from(failure.status)
    } else {
        SevError::Errno(failure.errno)
    }
}

} // verus!
