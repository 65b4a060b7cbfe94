use ns_error::{
    NSError, UserInfo, COCOA_ERROR_DOMAIN, LOCALIZED_DESCRIPTION_KEY, MACH_ERROR_DOMAIN,
    OS_STATUS_ERROR_DOMAIN, POSIX_ERROR_DOMAIN,
};

fn classification(err: &NSError) -> [bool; 4] {
    [
        err.is_cocoa_error(),
        err.is_posix_error(),
        err.is_os_status_error(),
        err.is_mach_error(),
    ]
}

#[test]
fn round_trip_keeps_all_three_fields() {
    let cases: [(&str, isize, &str); 5] = [
        ("", 0, ""),
        ("com.example.net", -7, "connection reset"),
        ("NSCocoaErrorDomain", isize::MAX, "largest code"),
        ("Domäne", isize::MIN, "smallest code, non-ASCII domain"),
        ("x", 1, "line one\nline two"),
    ];
    for (domain, code, desc) in cases {
        let err = NSError::new(domain, code, desc);
        assert_eq!(err.domain(), domain);
        assert_eq!(err.code(), code);
        assert_eq!(err.localized_description(), desc);
    }
}

#[test]
fn each_system_domain_matches_exactly_one_predicate() {
    let domains = [
        COCOA_ERROR_DOMAIN,
        POSIX_ERROR_DOMAIN,
        OS_STATUS_ERROR_DOMAIN,
        MACH_ERROR_DOMAIN,
    ];
    for (i, domain) in domains.iter().enumerate() {
        let err = NSError::new(domain, 1, "d");
        let got = classification(&err);
        for j in 0..4 {
            assert_eq!(got[j], i == j, "domain {} predicate {}", domain, j);
        }
    }
}

#[test]
fn other_domains_match_no_predicate() {
    for domain in [
        "MyDomain",
        "",
        "nscocoaerrordomain",
        "NSCocoaErrorDomain ",
        "NSPOSIXErrorDomai",
        "NSMachErrorDomainX",
    ] {
        let err = NSError::new(domain, 42, "description");
        assert_eq!(classification(&err), [false; 4], "domain {:?}", domain);
    }
}

#[test]
fn domain_comparison_is_by_text() {
    let owned = String::from("NSPOSIX") + "ErrorDomain";
    let err = NSError::new(&owned, 2, "no such file");
    assert!(err.is_posix_error());
    assert!(!err.is_cocoa_error());
}

#[test]
fn repeated_reads_agree() {
    let err = NSError::new("MyDomain", 42, "this is the description");
    for _ in 0..3 {
        assert_eq!(err.domain(), "MyDomain");
        assert_eq!(err.code(), 42);
        assert_eq!(err.localized_description(), "this is the description");
    }
    assert_eq!(err.domain(), err.domain());
    assert_eq!(err.localized_description(), err.localized_description());
}

#[test]
fn domain_constants_have_system_text() {
    assert_eq!(COCOA_ERROR_DOMAIN, "NSCocoaErrorDomain");
    assert_eq!(POSIX_ERROR_DOMAIN, "NSPOSIXErrorDomain");
    assert_eq!(OS_STATUS_ERROR_DOMAIN, "NSOSStatusErrorDomain");
    assert_eq!(MACH_ERROR_DOMAIN, "NSMachErrorDomain");
    assert_eq!(LOCALIZED_DESCRIPTION_KEY, "NSLocalizedDescription");
}

#[test]
fn user_info_starts_empty() {
    let info = UserInfo::new();
    assert_eq!(info.get(LOCALIZED_DESCRIPTION_KEY), None);
    assert_eq!(info.get(""), None);
}

#[test]
fn user_info_insert_then_get() {
    let mut info = UserInfo::new();
    info.insert(String::from("a"), String::from("1"));
    info.insert(String::from("b"), String::from("2"));
    assert_eq!(info.get("a"), Some("1"));
    assert_eq!(info.get("b"), Some("2"));
    assert_eq!(info.get("c"), None);
}

#[test]
fn user_info_insert_replaces_equal_key() {
    let mut info = UserInfo::new();
    info.insert(String::from("k"), String::from("old"));
    info.insert(String::from("other"), String::from("x"));
    info.insert(String::from("k"), String::from("new"));
    assert_eq!(info.get("k"), Some("new"));
    assert_eq!(info.get("other"), Some("x"));
}
