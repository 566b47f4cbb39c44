use rfserve::config::Envs;
use rfserve::domain::YtHistory;
use rfserve::register::{RegisterError, RegisterService};
use rfserve::time::Timestamp;

fn envs(days: u64) -> Envs {
    Envs::new(8080, "postgres://db".to_string(), "/videos".to_string(), days, "example.com".to_string())
}

fn record(id: i32, external: &str) -> YtHistory {
    YtHistory { id, title: "a title".to_string(), app_external_id: external.to_string() }
}

fn service() -> RegisterService<(), ()> {
    RegisterService::new((), ())
}

#[test]
fn missing_record_is_refused() {
    assert_eq!(service().data_check(&None, 12), Err(RegisterError::RecordNotFound { yt_history_id: 12 }));
}

#[test]
fn blank_external_id_is_refused() {
    let s = service();
    assert_eq!(s.data_check(&Some(record(3, "")), 3), Err(RegisterError::EmptyExternalId { yt_history_id: 3 }));
    assert_eq!(s.data_check(&Some(record(3, " \t ")), 4), Err(RegisterError::EmptyExternalId { yt_history_id: 4 }));
}

#[test]
fn good_record_passes() {
    assert_eq!(service().data_check(&Some(record(3, " abc ")), 3), Ok(()));
}

#[test]
fn url_has_host_port_and_hyphenated_id() {
    let url = service().create_url(0x550e8400e29b41d4a716446655440000, &envs(7));
    assert_eq!(url, "http://example.com:8080/rfserve/download/550e8400-e29b-41d4-a716-446655440000");
}

#[test]
fn url_matches_uuid_display() {
    let id = 0x0123456789abcdef0fedcba987654321u128;
    let url = service().create_url(id, &envs(1));
    assert_eq!(url, format!("http://example.com:8080/rfserve/download/{}", uuid::Uuid::from_u128(id)));
}

#[test]
fn built_link_expires_whole_days_later() {
    let now = Timestamp { secs: 1_700_000_000, nanos: 123, offset: 9 * 3600 };
    let links = service().create_download_links_entity(Some(record(5, "vid-5")), now, 42, &envs(7)).unwrap();
    assert_eq!(links.id, 42);
    assert_eq!(links.yt_history_id, 5);
    assert_eq!(links.object_path, "vid-5");
    assert_eq!(links.created_at, now);
    assert_eq!(links.expires_at, Timestamp { secs: 1_700_000_000 + 7 * 86400, nanos: 123, offset: 9 * 3600 });
    assert_eq!(links.url, "http://example.com:8080/rfserve/download/00000000-0000-0000-0000-00000000002a");
}

#[test]
fn built_link_with_zero_days() {
    let now = Timestamp { secs: 0, nanos: 0, offset: 0 };
    let links = service().create_download_links_entity(Some(record(1, "x")), now, 1, &envs(0)).unwrap();
    assert_eq!(links.expires_at, now);
}

#[test]
fn expiry_out_of_range_is_an_error() {
    let now = Timestamp { secs: 1_700_000_000, nanos: 0, offset: 0 };
    let res = service().create_download_links_entity(Some(record(1, "x")), now, 1, &envs(u64::MAX));
    assert_eq!(res.unwrap_err(), RegisterError::ExpiryOutOfRange);
    let res = service().create_download_links_entity(Some(record(1, "x")), now, 1, &envs(200_000_000));
    assert_eq!(res.unwrap_err(), RegisterError::ExpiryOutOfRange);
}

#[test]
fn missing_record_builds_an_empty_link() {
    let now = Timestamp { secs: 10, nanos: 0, offset: 0 };
    let links = service().create_download_links_entity(None, now, 7, &envs(1)).unwrap();
    assert_eq!(links.yt_history_id, 0);
    assert_eq!(links.object_path, "");
}

#[test]
fn entity_with_a_random_id_has_the_configured_window() {
    let s = service();
    let now = Timestamp { secs: 1_650_000_000, nanos: 0, offset: 0 };
    let id = uuid::Uuid::new_v4().as_u128();
    let a = s.create_download_links_entity(Some(record(9, "clip")), now, id, &envs(3)).unwrap();
    assert_eq!(a.id, id);
    assert_eq!(a.expires_at.secs - a.created_at.secs, 3 * 86400);
    assert!(a.url.ends_with(&uuid::Uuid::from_u128(id).to_string()));
    assert_eq!(a.object_path, "clip");
}

#[test]
fn service_keeps_its_stores() {
    let s = RegisterService::new(1u8, "links");
    assert_eq!(*s.yt_mapper(), 1u8);
    assert_eq!(*s.download_links_mapper(), "links");
}

#[test]
fn ordinary_times_always_register() {
    for (secs, offset, days) in [(0i64, 0i32, 0u64), (1_700_000_000, -18_000, 365), (-62_000_000_000, 86_399, 36_500), (7_000_000_000_000, -86_399, 1_000)] {
        let now = Timestamp { secs, nanos: 999_999_999, offset };
        let links = service().create_download_links_entity(Some(record(1, "x")), now, 1, &envs(days)).unwrap();
        assert_eq!(links.expires_at.secs, secs + 86400 * days as i64);
    }
}
