use signalbot::license::{license_first_step, license_verdict, normalize_key, offline_key_valid, LicenseStep};

#[test]
fn key_is_trimmed_and_upper_cased() {
    assert_eq!(normalize_key("  sb-abcd-efgh-1234-mnop \n"), "SB-ABCD-EFGH-1234-MNOP");
    assert_eq!(normalize_key("   "), "");
}

#[test]
fn offline_format() {
    assert!(offline_key_valid("SB-ABCD-EFGH-1234-MNOP"));
    assert!(!offline_key_valid("SB-ABCD-EFGH-1234-MNO"));
    assert!(!offline_key_valid("SX-ABCD-EFGH-1234-MNOP"));
    assert!(!offline_key_valid("SB-ABCD-EFGH-12_4-MNOP"));
    assert!(!offline_key_valid("SB-ABCDE-FGH-1234-MNOP"));
    assert!(!offline_key_valid("SB-ABCD-EFGH-1234-MNOPQ"));
    assert!(!offline_key_valid(""));
}

#[test]
fn verdicts() {
    assert_eq!(license_first_step(""), LicenseStep::Decided { valid: false });
    assert_eq!(license_first_step("SB-X"), LicenseStep::AskServer);
    assert!(license_verdict("anything", Some(Some(true))));
    assert!(!license_verdict("SB-ABCD-EFGH-1234-MNOP", Some(Some(false))));
    assert!(!license_verdict("SB-ABCD-EFGH-1234-MNOP", Some(None)));
    assert!(license_verdict("SB-ABCD-EFGH-1234-MNOP", None));
    assert!(!license_verdict("SB-ABCD", None));
}
