use qpdf::error::{check_c_string, error_or_ok, translate_error};
use qpdf::{QPdfError, QPdfErrorCode};

#[test]
fn success_status_is_ok() {
    assert!(error_or_ok(0).is_ok());
}

#[test]
fn each_status_maps_to_its_kind() {
    let expected = [
        (1, QPdfErrorCode::InternalError),
        (2, QPdfErrorCode::SystemError),
        (3, QPdfErrorCode::Unsupported),
        (4, QPdfErrorCode::InvalidPassword),
        (5, QPdfErrorCode::DamagedPdf),
        (6, QPdfErrorCode::PagesError),
        (7, QPdfErrorCode::ObjectError),
    ];
    for (code, kind) in expected {
        let e = error_or_ok(code).unwrap_err();
        assert_eq!(e.error_code(), kind);
        assert_eq!(e.description(), None);
        assert_eq!(e.position(), None);
    }
}

#[test]
fn unmapped_status_degrades_to_unknown() {
    assert_eq!(error_or_ok(8).unwrap_err().error_code(), QPdfErrorCode::Unknown);
    assert_eq!(error_or_ok(u32::MAX).unwrap_err().error_code(), QPdfErrorCode::Unknown);
}

#[test]
fn no_pending_error_is_ok() {
    assert!(translate_error(false, 5, Some("ignored".to_string()), 12).is_ok());
}

#[test]
fn pending_success_status_is_ok() {
    assert!(translate_error(true, 0, None, 0).is_ok());
}

#[test]
fn pending_error_carries_detail_and_position() {
    let e = translate_error(true, 5, Some("unexpected token".to_string()), 1234).unwrap_err();
    assert_eq!(e.error_code(), QPdfErrorCode::DamagedPdf);
    assert_eq!(e.description(), Some("unexpected token"));
    assert_eq!(e.position(), Some(1234));
}

#[test]
fn wrong_password_record_is_invalid_password() {
    let e = translate_error(true, 4, None, 0).unwrap_err();
    assert_eq!(e.error_code(), QPdfErrorCode::InvalidPassword);
    assert_eq!(e.description(), None);
    assert_eq!(e.position(), Some(0));
}

#[test]
fn nul_in_string_argument_is_invalid_parameter() {
    let e = check_c_string("1.\0").unwrap_err();
    assert_eq!(e.error_code(), QPdfErrorCode::InvalidParameter);
    assert_eq!(e.description(), Some("Unexpected null code in the string parameter"));
    assert_eq!(e.position(), None);
}

#[test]
fn plain_string_arguments_pass() {
    assert!(check_c_string("1.7").is_ok());
    assert!(check_c_string("").is_ok());
    assert!(check_c_string("привет").is_ok());
}

#[test]
fn error_message_names_kind_and_description() {
    let e = translate_error(true, 4, Some("invalid password".to_string()), 0).unwrap_err();
    assert_eq!(e.to_string(), "InvalidPassword: invalid password");
    assert_eq!(QPdfError::default().to_string(), "Unknown: ");
    assert_eq!(QPdfError::nul_in_parameter().to_string(), "InvalidParameter: Unexpected null code in the string parameter");
}

#[test]
fn default_error_is_unknown_without_details() {
    let e = QPdfError::default();
    assert_eq!(e.error_code(), QPdfErrorCode::Unknown);
    assert_eq!(e.description(), None);
    assert_eq!(e.position(), None);
    assert_eq!(QPdfErrorCode::default(), QPdfErrorCode::Unknown);
}
