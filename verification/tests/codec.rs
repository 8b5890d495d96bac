use service_registry::error::ServiceError;
use service_registry::kind::Services;

const ALL_KINDS: [Services; 4] = [
    Services::Dig,
    Services::Dug,
    Services::Catalog,
    Services::AlbumSaveTracks,
];

#[test]
fn round_trip_kind_to_string_to_kind() {
    for k in ALL_KINDS {
        assert_eq!(Services::parse(&k.to_string()), Ok(k));
    }
}

#[test]
fn round_trip_string_to_kind_to_string() {
    for s in ["dig", "dug", "catalog", "albumSaveTracks"] {
        let k = Services::parse(s).unwrap();
        assert_eq!(k.to_string(), s);
    }
}

#[test]
fn canonical_forms_are_stable() {
    assert_eq!(Services::Dig.to_string(), "dig");
    assert_eq!(Services::Dug.to_string(), "dug");
    assert_eq!(Services::Catalog.to_string(), "catalog");
    assert_eq!(Services::AlbumSaveTracks.to_string(), "albumSaveTracks");
}

#[test]
fn to_string_is_injective() {
    for a in ALL_KINDS {
        for b in ALL_KINDS {
            if a != b {
                assert_ne!(a.to_string(), b.to_string());
            }
        }
    }
}

#[test]
fn parse_rejects_unknown_tags() {
    for s in ["", "Dig", "DUG", "albumsavetracks", "album", "catalogx", "dig "] {
        assert_eq!(Services::parse(s), Err(ServiceError::UnknownServiceKind));
    }
}

#[test]
fn error_descriptions() {
    assert_eq!(ServiceError::UnknownServiceKind.describe(), "unknown service kind");
    assert_eq!(ServiceError::ServiceNotConfigured.describe(), "service not configured");
    assert_eq!(ServiceError::ServiceTypeMismatch.describe(), "service type mismatch");
    assert_eq!(ServiceError::InvariantViolation.describe(), "invariant violation");
}
