use redskull::license_family::guess_license_family;

#[test]
fn test_mit() {
    assert_eq!(guess_license_family("MIT"), "MIT");
}

#[test]
fn test_apache() {
    assert_eq!(guess_license_family("Apache-2.0"), "APACHE");
}

#[test]
fn test_gpl2() {
    assert_eq!(guess_license_family("GPL-2.0"), "GPL2");
}

#[test]
fn test_gpl3() {
    assert_eq!(guess_license_family("GPL-3.0"), "GPL3");
}

#[test]
fn test_gpl3_or_later() {
    assert_eq!(guess_license_family("GPL-3.0-or-later"), "GPL3");
}

#[test]
fn test_bsd() {
    assert_eq!(guess_license_family("BSD-3-Clause"), "BSD");
}

#[test]
fn test_lgpl() {
    assert_eq!(guess_license_family("LGPL-3.0"), "LGPL");
}

#[test]
fn test_agpl() {
    assert_eq!(guess_license_family("AGPL-3.0"), "AGPL");
}

#[test]
fn test_cc() {
    assert_eq!(guess_license_family("CC0-1.0"), "CC");
}

#[test]
fn test_unknown() {
    assert_eq!(guess_license_family("WeirdLicense"), "OTHER");
}

#[test]
fn test_dual_mit_apache() {
    let result = guess_license_family("MIT OR Apache-2.0");
    assert!(
        result == "MIT" || result == "APACHE",
        "Expected MIT or APACHE for dual license, got: {result}"
    );
}

#[test]
fn test_long_form_lgpl() {
    let result = guess_license_family("LGPL-2.1-only");
    assert_eq!(result, "LGPL");
}
