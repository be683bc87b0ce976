use orgfiles::api::{parse_identifier, response_status, ApiError};
use orgfiles::config::{Settings, SettingsError};
use orgfiles::ids::Id;
use orgfiles::models::{NewOrganization, Organization};

#[test]
fn identifier_text_round_trips() {
    let id = Id { bits: 0x0123_4567_89ab_cdef_0011_2233_4455_6677 };
    let text = id.to_text();
    assert_eq!(text, "01234567-89ab-cdef-0011-223344556677");
    assert_eq!(Id::parse(&text), Some(id));
    assert_eq!(Id::parse("0123456789abcdef0011223344556677"), Some(id));
}

#[test]
fn malformed_identifiers_are_client_errors() {
    for raw in ["", "org1", "not-a-uuid", "01234567-89ab-cdef-0011-22334455667", "zz234567-89ab-cdef-0011-223344556677"] {
        let r = parse_identifier(raw);
        assert_eq!(r, Err(ApiError::MalformedId));
        assert_eq!(response_status(&r), 400);
    }
}

#[test]
fn statuses_of_outcomes() {
    assert_eq!(response_status::<u8>(&Ok(1)), 200);
    assert_eq!(ApiError::NotFound.status(), 404);
    assert_eq!(ApiError::Unavailable.status(), 500);
    assert_eq!(ApiError::Inconsistent.status(), 500);
}

#[test]
fn created_organization_keeps_name() {
    let a = Organization::create(NewOrganization { name: "Acme".to_string() });
    let b = Organization::create(NewOrganization { name: "Acme".to_string() });
    assert_eq!(a.name, "Acme");
    assert_ne!(a.id, b.id);
    assert_eq!(parse_identifier(&a.id.to_text()), Ok(a.id));
}

fn some(s: &str) -> Option<String> {
    Some(s.to_string())
}

#[test]
fn settings_accepted() {
    let s = Settings::from_values(some("postgres://db"), some("/srv"), some("example.com"), some("3")).unwrap();
    assert_eq!(s.max_file_upload_count, 3);
    let m = s.file_manager();
    assert_eq!(m.storage_root, "/srv");
    assert_eq!(m.public_domain, "example.com");
    assert_eq!(m.max_file_count, 3);
}

#[test]
fn settings_errors() {
    let e = |a, b, c, d| Settings::from_values(a, b, c, d).unwrap_err();
    assert_eq!(e(None, some("/srv"), some("d"), some("3")), SettingsError::MissingDatabaseUrl);
    assert_eq!(e(some("db"), None, some("d"), some("3")), SettingsError::MissingStorageRoot);
    assert_eq!(e(some("db"), some("/srv"), None, some("3")), SettingsError::MissingPublicDomain);
    assert_eq!(e(some("db"), some("/srv"), some("d"), None), SettingsError::MissingMaxFileUploadCount);
    assert_eq!(e(some("db"), some("/srv"), some("d"), some("three")), SettingsError::InvalidMaxFileUploadCount);
    assert_eq!(e(some("db"), some("/srv"), some("d"), some("0")), SettingsError::InvalidMaxFileUploadCount);
    assert_eq!(e(some("db"), some("/srv"), some("d"), some("-2")), SettingsError::InvalidMaxFileUploadCount);
}
