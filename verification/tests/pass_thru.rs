use patina::error::EfiError;
use patina_components::pass_thru::{admin_outcome, Command, Completion};
use patina_components::status::{check_status, device_error, invalid_parameter, status_error};
use r_efi::efi;

#[test]
fn command_zero_is_all_zero() {
    let c = Command::zero();
    assert_eq!(
        (c.cdw0, c.flags, c.nsid, c.cdw2, c.cdw3, c.cdw10, c.cdw11, c.cdw12, c.cdw13, c.cdw14, c.cdw15),
        (0, 0, 0, 0, 0, 0, 0, 0, 0, 0, 0)
    );
}

#[test]
fn completion_zero_is_all_zero() {
    let c = Completion::zero();
    assert_eq!((c.dw0, c.dw1, c.dw2, c.dw3), (0, 0, 0, 0));
}

#[test]
fn status_field_is_dw3_bits_31_to_17() {
    let mut c = Completion::zero();
    c.dw3 = 0x1_FFFF;
    assert_eq!(c.status_field(), 0);
    c.dw3 = 0x2 << 17 | 0x1234;
    assert_eq!(c.status_field(), 2);
    c.dw3 = u32::MAX;
    assert_eq!(c.status_field(), 0x7FFF);
}

#[test]
fn admin_outcome_checks_status_then_status_field() {
    let mut c = Completion::zero();
    assert_eq!(admin_outcome(0, &c), Ok(()));
    c.dw3 = 1 << 17;
    assert_eq!(admin_outcome(0, &c), Err(EfiError::DeviceError));
    assert_eq!(admin_outcome(efi::Status::ABORTED.as_usize(), &c), Err(EfiError::Aborted));
}

#[test]
fn status_codes_map_to_patina_errors() {
    assert_eq!(check_status(efi::Status::SUCCESS.as_usize()), Ok(()));
    assert_eq!(check_status(efi::Status::NO_MEDIA.as_usize()), Err(EfiError::NoMedia));
    assert_eq!(status_error(efi::Status::WRITE_PROTECTED.as_usize()), EfiError::WriteProtected);
    assert_eq!(device_error(), EfiError::DeviceError);
    assert_eq!(invalid_parameter(), EfiError::InvalidParameter);
    // A warning is not SUCCESS, so it is reported as an error too.
    let warning = efi::Status::WARN_UNKNOWN_GLYPH;
    assert_eq!(check_status(warning.as_usize()), Err(EfiError::Unknown(warning)));
}
