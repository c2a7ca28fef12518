//! EFI status codes as raw integers, and the `patina` error type they map to.
use patina::error::EfiError;
use vstd::prelude::*;

verus! {

#[verifier::external_type_specification]
#[verifier::external_body]
pub struct ExEfiError(EfiError);

/// The raw code of `efi::Status::SUCCESS`, which the UEFI specification fixes at 0.
pub const EFI_SUCCESS: usize = 0;

/// The top bit of a `usize`, which marks a raw EFI status code as an error.
pub open spec fn efi_error_bit() -> int {
    if usize::BITS == 64 {
        0x8000_0000_0000_0000
    } else {
        0x8000_0000
    }
}

/// The raw code of the EFI error with number `n`.
pub open spec fn efi_error_code(n: usize) -> int {
    efi_error_bit() + n
}

/// What `patina`'s `EfiError::from(efi::Status)` gives for the raw status code `status`.
pub uninterp spec fn efi_error_of(status: usize) -> EfiError;

/// Calls `EfiError::from(efi::Status::from_usize(status))`. That conversion unwraps the error
/// of `EfiError::status_to_result`, which is `Ok` for SUCCESS, so SUCCESS is excluded.
#[verifier::external_body]
fn error_from_status(status: usize) -> (e: EfiError)
    requires
        status != EFI_SUCCESS,
    ensures
        e == efi_error_of(status),
{
    EfiError::from(r_efi::efi::Status::from_usize(status))
}

/// Reads the raw code of `r_efi`'s `efi::Status::INVALID_PARAMETER` (error number 2).
#[verifier::external_body]
pub(crate) fn invalid_parameter_code() -> (s: usize)
    ensures
        s == efi_error_code(2),
{
    r_efi::efi::Status::INVALID_PARAMETER.as_usize()
}

/// Reads the raw code of `r_efi`'s `efi::Status::DEVICE_ERROR` (error number 7).
#[verifier::external_body]
pub(crate) fn device_error_code() -> (s: usize)
    ensures
        s == efi_error_code(7),
{
    r_efi::efi::Status::DEVICE_ERROR.as_usize()
}

/// Reads the raw code of `r_efi`'s `efi::Status::WRITE_PROTECTED` (error number 8).
#[verifier::external_body]
pub(crate) fn write_protected_code() -> (s: usize)
    ensures
        s == efi_error_code(8),
{
    r_efi::efi::Status::WRITE_PROTECTED.as_usize()
}

/// Reads the raw code of `r_efi`'s `efi::Status::NO_MEDIA` (error number 12).
#[verifier::external_body]
pub(crate) fn no_media_code() -> (s: usize)
    ensures
        s == efi_error_code(12),
{
    r_efi::efi::Status::NO_MEDIA.as_usize()
}

/// The error for a failed firmware call that returned `status`.
pub fn status_error(status: usize) -> (e: EfiError)
    requires
        status != EFI_SUCCESS,
    ensures
        e == efi_error_of(status),
{
    error_from_status(status)
}

/// `Ok` when a firmware call returned SUCCESS, else the error for its status.
pub fn check_status(status: usize) -> (r: Result<(), EfiError>)
    ensures
        status == EFI_SUCCESS ==> r == Ok::<(), EfiError>(()),
        status != EFI_SUCCESS ==> r == Err::<(), EfiError>(efi_error_of(status)),
{
    if status == EFI_SUCCESS {
        Ok(())
    } else {
        Err(error_from_status(status))
    }
}

/// The error `patina` reports for `efi::Status::DEVICE_ERROR`.
pub fn device_error() -> (e: EfiError)
    ensures
        e == efi_error_of(efi_error_code(7) as usize),
{
    error_from_status(device_error_code())
}

/// The error `patina` reports for `efi::Status::INVALID_PARAMETER`.
pub fn invalid_parameter() -> (e: EfiError)
    ensures
        e == efi_error_of(efi_error_code(2) as usize),
{
    error_from_status(invalid_parameter_code())
}

/// One step of a firmware operation: either the next firmware call to perform, together
/// with the operation's state while it waits for the answer, or the operation's result.
pub enum Next<M, A, T> {
    /// Perform the call `A`, then hand its answer to the state `M`.
    Perform(M, A),
    /// The operation is over.
    Finished(Result<T, EfiError>),
}

} // verus!
