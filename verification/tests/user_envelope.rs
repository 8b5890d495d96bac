use service_registry::descriptor::{Catalog, Dig, ServiceDescriptor};
use service_registry::envelope::RedisMessage;
use service_registry::error::ServiceError;
use service_registry::kind::Services;
use service_registry::registry::ServiceRegistry;
use service_registry::user::{RedisUser, User};

fn bare_user() -> User {
    User {
        id: "u1".to_owned(),
        user_id: None,
        display_name: None,
        username: None,
        photo: None,
        access_token: None,
        refresh_token: None,
        services: None,
    }
}

fn dig_descriptor() -> Dig {
    Dig {
        playlist_id: "p1".to_owned(),
        last_run: 1_700_000_000_000,
        running: false,
        days_to_keep: 30,
        min_songs: 5,
        album_sort: true,
    }
}

#[test]
fn credential_subset_defaults_absent_fields_to_empty() {
    let subset = bare_user().derive_credential_subset();
    assert_eq!(
        subset,
        RedisUser {
            id: "u1".to_owned(),
            user_id: "".to_owned(),
            access_token: "".to_owned(),
            refresh_token: "".to_owned(),
        }
    );
}

#[test]
fn credential_subset_keeps_present_fields() {
    let mut user = bare_user();
    user.user_id = Some("ext".to_owned());
    user.access_token = Some("tok".to_owned());
    user.refresh_token = Some("ref".to_owned());
    user.display_name = Some("name that must not travel".to_owned());
    let subset = user.derive_credential_subset();
    assert_eq!(
        subset,
        RedisUser {
            id: "u1".to_owned(),
            user_id: "ext".to_owned(),
            access_token: "tok".to_owned(),
            refresh_token: "ref".to_owned(),
        }
    );
}

#[test]
fn get_service_without_registry_fails_with_not_configured() {
    let user = bare_user();
    assert_eq!(
        user.get_service::<Dig>(Services::Dig),
        Err(ServiceError::ServiceNotConfigured)
    );
}

#[test]
fn envelopes_from_same_inputs_are_identical() {
    let mut user = bare_user();
    user.access_token = Some("tok".to_owned());
    let e1 = RedisMessage::build("e1".to_owned(), 42, &user, Services::Dug);
    let e2 = RedisMessage::build("e1".to_owned(), 42, &user, Services::Dug);
    assert_eq!(e1, e2);
}

#[test]
fn new_keeps_fields_verbatim() {
    let subset = RedisUser {
        id: "u1".to_owned(),
        user_id: "ext".to_owned(),
        access_token: "tok".to_owned(),
        refresh_token: "ref".to_owned(),
    };
    let m = RedisMessage::new("ev".to_owned(), 1234, subset.clone(), Services::Catalog);
    assert_eq!(m.id, "ev");
    assert_eq!(m.timestamp, 1234);
    assert_eq!(m.user, subset);
    assert_eq!(m.service, Services::Catalog);
}

#[test]
fn dig_user_scenario() {
    let t0: i64 = 1_600_000_000_000;
    let t1: i64 = 1_600_000_111_000;
    let expected = Dig {
        playlist_id: "p1".to_owned(),
        last_run: t0,
        running: false,
        days_to_keep: 30,
        min_songs: 5,
        album_sort: true,
    };
    let mut rg = ServiceRegistry::new();
    rg.put(
        Services::Dig,
        ServiceDescriptor::Dig(Dig { last_run: t0, ..dig_descriptor() }),
    )
    .unwrap();
    let mut user = bare_user();
    user.access_token = Some("tok".to_owned());
    user.services = Some(rg);

    assert_eq!(user.get_service::<Dig>(Services::Dig), Ok(expected));
    assert_eq!(
        user.get_service::<Catalog>(Services::Catalog),
        Err(ServiceError::ServiceNotConfigured)
    );

    let envelope = RedisMessage::build("e1".to_owned(), t1, &user, Services::Dig);
    assert_eq!(envelope.id, "e1");
    assert_eq!(envelope.timestamp, t1);
    assert_eq!(envelope.user.access_token, "tok");
    assert_eq!(envelope.user.refresh_token, "");
    assert_eq!(envelope.service, Services::Dig);
    assert_eq!(envelope.service.to_string(), "dig");
}

#[test]
fn mismatched_registry_entry_never_yields_wrong_shape() {
    let entries = vec![(
        Services::Dig,
        ServiceDescriptor::Catalog(Catalog {
            catalog_playlist_id: "cat".to_owned(),
            discover_weekly_playlist_id: "dw".to_owned(),
            last_run: 0,
        }),
    )];
    let mut user = bare_user();
    user.services = Some(ServiceRegistry::from_entries(&entries));
    assert_eq!(
        user.get_service::<Dig>(Services::Dig),
        Err(ServiceError::ServiceTypeMismatch)
    );
}
