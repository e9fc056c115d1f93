use qpdf::writer::{QPdfWriter, WriterSetting};
use qpdf::{
    EncryptionParams, EncryptionParamsR2, EncryptionParamsR3, EncryptionParamsR4, EncryptionParamsR6,
    ForeignDocuments, ObjectStreamMode, PrintPermission, QPdfErrorCode, StreamDataMode,
};

#[test]
fn document_never_keeps_itself() {
    let mut kept: ForeignDocuments<&str> = ForeignDocuments::new(1);
    assert!(!kept.keep(1, "self"));
    assert_eq!(kept.len(), 0);
    assert!(!kept.contains(1));
    assert_eq!(kept.owner_id(), 1);
}

#[test]
fn foreign_document_is_kept_once() {
    let mut kept: ForeignDocuments<&str> = ForeignDocuments::new(1);
    assert!(kept.keep(2, "a"));
    assert!(!kept.keep(2, "a again"));
    assert!(kept.keep(3, "b"));
    assert_eq!(kept.len(), 2);
    assert!(kept.contains(2));
    assert!(kept.contains(3));
    assert!(!kept.contains(4));
}

#[test]
fn kept_document_stays_after_later_copies() {
    let mut kept: ForeignDocuments<String> = ForeignDocuments::new(10);
    kept.keep(20, "source".to_string());
    for other in 30..40 {
        kept.keep(other, format!("doc {other}"));
    }
    assert!(kept.contains(20));
    assert_eq!(kept.len(), 11);
}

#[test]
fn fresh_writer_applies_nothing() {
    let w = QPdfWriter::new(());
    assert!(w.settings().is_empty());
}

#[test]
fn forced_version_and_linearization_are_applied() {
    let mut w = QPdfWriter::new(());
    w.force_pdf_version("1.7").linearize(true);
    let settings = w.settings();
    assert_eq!(settings.len(), 2);
    assert!(matches!(settings[0], WriterSetting::Linearization(true)));
    assert!(matches!(&settings[1], WriterSetting::ForcePdfVersion(v) if v == "1.7"));
}

#[test]
fn settings_follow_the_commit_order() {
    let mut w = QPdfWriter::new("doc");
    w.encryption_params(EncryptionParams::R2(EncryptionParamsR2::default()))
        .force_pdf_version("1.7")
        .minimum_pdf_version("1.4")
        .stream_data_mode(StreamDataMode::Compress)
        .object_stream_mode(ObjectStreamMode::Disable)
        .compress_streams(true)
        .normalize_content(false)
        .preserve_unreferenced_objects(true)
        .static_id(true);
    let settings = w.settings();
    assert_eq!(settings.len(), 9);
    assert!(matches!(settings[0], WriterSetting::CompressStreams(true)));
    assert!(matches!(settings[1], WriterSetting::PreserveUnreferencedObjects(true)));
    assert!(matches!(settings[2], WriterSetting::ContentNormalization(false)));
    assert!(matches!(settings[3], WriterSetting::StaticId(true)));
    assert!(matches!(settings[4], WriterSetting::ObjectStreamMode(ObjectStreamMode::Disable)));
    assert!(matches!(settings[5], WriterSetting::StreamDataMode(StreamDataMode::Compress)));
    assert!(matches!(&settings[6], WriterSetting::MinimumPdfVersion(v) if v == "1.4"));
    assert!(matches!(&settings[7], WriterSetting::ForcePdfVersion(v) if v == "1.7"));
    assert!(matches!(&settings[8], WriterSetting::Encryption(a) if a.revision == 2));
    assert_eq!(w.owner, "doc");
}

#[test]
fn restaging_an_option_keeps_the_last_value() {
    let mut w = QPdfWriter::new(());
    w.linearize(true).linearize(false).deterministic_id(true).preserve_encryption(false);
    let settings = w.settings();
    assert_eq!(settings.len(), 3);
    assert!(matches!(settings[0], WriterSetting::PreserveEncryption(false)));
    assert!(matches!(settings[1], WriterSetting::Linearization(false)));
    assert!(matches!(settings[2], WriterSetting::DeterministicId(true)));
}

#[test]
fn r2_arguments() {
    let p = EncryptionParams::R2(EncryptionParamsR2 {
        user_password: "u".to_string(),
        owner_password: "o".to_string(),
        allow_print: true,
        allow_modify: false,
        allow_extract: true,
        allow_annotate: false,
    });
    let a = p.engine_arguments();
    assert_eq!(a.revision, 2);
    assert_eq!(a.user_password, "u");
    assert_eq!(a.owner_password, "o");
    assert_eq!(a.permissions, vec![true, false, true, false]);
    assert_eq!(a.print, None);
    assert_eq!(a.encrypt_metadata, None);
    assert_eq!(a.use_aes, None);
}

#[test]
fn r3_arguments() {
    let p = EncryptionParams::R3(EncryptionParamsR3 {
        user_password: "user".to_string(),
        owner_password: "owner".to_string(),
        allow_accessibility: true,
        allow_extract: false,
        allow_assemble: true,
        allow_annotate_and_form: false,
        allow_form_filling: true,
        allow_modify_other: false,
        allow_print: PrintPermission::Low,
    });
    let a = p.engine_arguments();
    assert_eq!(a.revision, 3);
    assert_eq!(a.permissions, vec![true, false, true, false, true, false]);
    assert_eq!(a.print, Some(1));
    assert_eq!(a.encrypt_metadata, None);
    assert_eq!(a.use_aes, None);
}

#[test]
fn r4_arguments() {
    let p = EncryptionParams::R4(EncryptionParamsR4 {
        allow_print: PrintPermission::NoPrint,
        encrypt_metadata: true,
        use_aes: true,
        allow_extract: true,
        ..Default::default()
    });
    let a = p.engine_arguments();
    assert_eq!(a.revision, 4);
    assert_eq!(a.permissions, vec![false, true, false, false, false, false]);
    assert_eq!(a.print, Some(2));
    assert_eq!(a.encrypt_metadata, Some(true));
    assert_eq!(a.use_aes, Some(true));
}

#[test]
fn r6_arguments() {
    let p = EncryptionParams::R6(EncryptionParamsR6 {
        user_password: "test".to_string(),
        encrypt_metadata: false,
        allow_modify_other: true,
        ..Default::default()
    });
    let a = p.engine_arguments();
    assert_eq!(a.revision, 6);
    assert_eq!(a.user_password, "test");
    assert_eq!(a.owner_password, "");
    assert_eq!(a.permissions, vec![false, false, false, false, false, true]);
    assert_eq!(a.print, Some(0));
    assert_eq!(a.encrypt_metadata, Some(false));
    assert_eq!(a.use_aes, None);
}

#[test]
fn print_permission_codes() {
    assert_eq!(PrintPermission::Full.as_qpdf_enum(), 0);
    assert_eq!(PrintPermission::Low.as_qpdf_enum(), 1);
    assert_eq!(PrintPermission::NoPrint.as_qpdf_enum(), 2);
    assert_eq!(PrintPermission::default(), PrintPermission::Full);
}

#[test]
fn nul_in_version_or_password_is_refused() {
    let mut w = QPdfWriter::new(());
    w.minimum_pdf_version("1.\u{0}4");
    let settings = w.settings();
    assert_eq!(settings[0].check_strings().unwrap_err().error_code(), QPdfErrorCode::InvalidParameter);

    let mut w = QPdfWriter::new(());
    w.encryption_params(EncryptionParams::R6(EncryptionParamsR6 {
        owner_password: "a\0b".to_string(),
        ..Default::default()
    }));
    let settings = w.settings();
    assert_eq!(settings[0].check_strings().unwrap_err().error_code(), QPdfErrorCode::InvalidParameter);
}

#[test]
fn plain_settings_pass_the_string_check() {
    let mut w = QPdfWriter::new(());
    w.force_pdf_version("1.7").compress_streams(false);
    for s in w.settings() {
        assert!(s.check_strings().is_ok());
    }
}
