use rfserve::config::Envs;
use rfserve::domain::DownloadLinks;
use rfserve::download::{accepts_event, DownloadAction, DownloadError, DownloadEvent, DownloadService, DownloadState};
use rfserve::time::Timestamp;

fn envs() -> Envs {
    Envs::new(8080, "postgres://db".to_string(), "/videos".to_string(), 7, "example.com".to_string())
}

fn ts(secs: i64) -> Timestamp {
    Timestamp { secs, nanos: 0, offset: 0 }
}

fn link(created: i64, expires: i64) -> DownloadLinks {
    DownloadLinks {
        id: 0x550e8400e29b41d4a716446655440000,
        yt_history_id: 1,
        url: "http://example.com:8080/rfserve/download/550e8400-e29b-41d4-a716-446655440000".to_string(),
        object_path: "abc".to_string(),
        expires_at: ts(expires),
        created_at: ts(created),
    }
}

#[test]
fn parse_file_id_reads_every_uuid_form() {
    let s = DownloadService::new(());
    let v = 0x550e8400e29b41d4a716446655440000u128;
    assert_eq!(s.parse_file_id("550e8400-e29b-41d4-a716-446655440000"), Some(v));
    assert_eq!(s.parse_file_id("550E8400-E29B-41D4-A716-446655440000"), Some(v));
    assert_eq!(s.parse_file_id("550e8400e29b41d4a716446655440000"), Some(v));
    assert_eq!(s.parse_file_id("{550e8400-e29b-41d4-a716-446655440000}"), Some(v));
    assert_eq!(s.parse_file_id("URN:uuid:550e8400-e29b-41d4-a716-446655440000"), Some(v));
}

#[test]
fn parse_file_id_refuses_other_text() {
    let s = DownloadService::new(());
    assert_eq!(s.parse_file_id(""), None);
    assert_eq!(s.parse_file_id("not-a-uuid"), None);
    assert_eq!(s.parse_file_id("550e8400-e29b-41d4-a716-44665544000g"), None);
    assert_eq!(s.parse_file_id("550e8400e-29b-41d4-a716-446655440000"), None);
    assert_eq!(s.parse_file_id("{550e8400-e29b-41d4-a716-446655440000"), None);
    assert_eq!(s.parse_file_id("urn:uuix:550e8400-e29b-41d4-a716-446655440000"), None);
}

#[test]
fn availability_window_is_inclusive() {
    let l = link(100, 200);
    assert!(!l.is_available_at(&ts(99)));
    assert!(l.is_available_at(&ts(100)));
    assert!(l.is_available_at(&ts(150)));
    assert!(l.is_available_at(&ts(200)));
    assert!(!l.is_available_at(&Timestamp { secs: 200, nanos: 1, offset: 0 }));
    assert!(l.is_available_at(&Timestamp { secs: 150, nanos: 0, offset: -3600 }));
}

#[test]
fn check_record_expired_judges_the_given_time() {
    let s = DownloadService::new(());
    assert!(s.check_record_expired(&link(0, i64::MAX), &ts(5)));
    assert!(!s.check_record_expired(&link(0, 1), &ts(5)));
    assert!(!s.check_record_expired(&link(10, 20), &ts(5)));
}

#[test]
fn request_with_bad_id_fails() {
    let s = DownloadService::new(());
    let (state, action) = s.step(DownloadState::Start, DownloadEvent::Requested { file_id: "xyz".to_string() }, ts(0), &envs());
    assert!(matches!(state, DownloadState::Finished));
    assert!(matches!(action, DownloadAction::Fail { error: DownloadError::InvalidId { ref file_id } } if file_id == "xyz"));
}

#[test]
fn request_with_good_id_loads_the_record() {
    let s = DownloadService::new(());
    let (state, action) = s.step(
        DownloadState::Start,
        DownloadEvent::Requested { file_id: "550e8400-e29b-41d4-a716-446655440000".to_string() },
        ts(0),
        &envs(),
    );
    assert!(matches!(state, DownloadState::AwaitingRecord { .. }));
    assert!(matches!(action, DownloadAction::LoadRecord { id: 0x550e8400e29b41d4a716446655440000 }));
}

#[test]
fn missing_record_fails() {
    let s = DownloadService::new(());
    let (state, action) = s.step(
        DownloadState::AwaitingRecord { file_id: "f".to_string() },
        DownloadEvent::RecordLoaded { record: None },
        ts(0),
        &envs(),
    );
    assert!(matches!(state, DownloadState::Finished));
    assert!(matches!(action, DownloadAction::Fail { error: DownloadError::RecordNotFound { .. } }));
}

#[test]
fn expired_record_fails() {
    let s = DownloadService::new(());
    let (_, action) = s.step(
        DownloadState::AwaitingRecord { file_id: "f".to_string() },
        DownloadEvent::RecordLoaded { record: Some(link(100, 200)) },
        ts(201),
        &envs(),
    );
    assert!(matches!(action, DownloadAction::Fail { error: DownloadError::Expired { .. } }));
}

#[test]
fn live_record_scans_the_video_root() {
    let s = DownloadService::new(());
    let (state, action) = s.step(
        DownloadState::AwaitingRecord { file_id: "f".to_string() },
        DownloadEvent::RecordLoaded { record: Some(link(100, 200)) },
        ts(150),
        &envs(),
    );
    assert!(matches!(state, DownloadState::Searching { ref root, .. } if root == "/videos"));
    assert!(matches!(action, DownloadAction::ScanDir { ref root } if root == "/videos"));
}

fn searching() -> DownloadState {
    DownloadState::Searching { root: "/videos".to_string(), record: link(0, 10) }
}

#[test]
fn search_passes_over_other_files() {
    let s = DownloadService::new(());
    let (state, action) = s.step(searching(), DownloadEvent::DirEntry { name: Some("other.mp4".to_string()) }, ts(0), &envs());
    assert!(matches!(state, DownloadState::Searching { .. }));
    assert!(matches!(action, DownloadAction::NextEntry));
}

#[test]
fn search_opens_the_matching_file() {
    let s = DownloadService::new(());
    let (state, action) = s.step(searching(), DownloadEvent::DirEntry { name: Some("xx-abc-yy.mp4".to_string()) }, ts(0), &envs());
    assert!(matches!(state, DownloadState::Finished));
    assert!(matches!(action, DownloadAction::OpenFile { ref root, ref name } if root == "/videos" && name == "xx-abc-yy.mp4"));
}

#[test]
fn search_stops_at_a_name_that_is_not_unicode() {
    let s = DownloadService::new(());
    let (_, action) = s.step(searching(), DownloadEvent::DirEntry { name: None }, ts(0), &envs());
    assert!(matches!(action, DownloadAction::Fail { error: DownloadError::FileNameNotUtf8 }));
}

#[test]
fn search_without_match_fails() {
    let s = DownloadService::new(());
    let (_, action) = s.step(searching(), DownloadEvent::DirEnd, ts(0), &envs());
    assert!(matches!(action, DownloadAction::Fail { error: DownloadError::FileNotFound { .. } }));
}

#[test]
fn whole_download_in_order() {
    let s = DownloadService::new(());
    let e = envs();
    let names = [Some("a.mp4"), Some("b.mp4"), Some("b-abc.mp4"), Some("c-abc.mp4")];
    let now = ts(1_700_000_000);
    let (mut state, mut action) = s.step(DownloadState::Start, DownloadEvent::Requested { file_id: "550e8400e29b41d4a716446655440000".to_string() }, now, &e);
    let mut next = 0;
    loop {
        let event = match action {
            DownloadAction::LoadRecord { id } => {
                assert_eq!(id, 0x550e8400e29b41d4a716446655440000);
                DownloadEvent::RecordLoaded { record: Some(link(0, i64::MAX)) }
            },
            DownloadAction::ScanDir { .. } | DownloadAction::NextEntry => {
                let ev = match names.get(next) {
                    Some(n) => DownloadEvent::DirEntry { name: n.map(|x| x.to_string()) },
                    None => DownloadEvent::DirEnd,
                };
                next += 1;
                ev
            },
            DownloadAction::OpenFile { name, .. } => {
                assert_eq!(name, "b-abc.mp4");
                break;
            },
            DownloadAction::Fail { error } => panic!("unexpected failure {:?}", error),
        };
        let r = s.step(state, event, now, &e);
        state = r.0;
        action = r.1;
    }
}

#[test]
fn service_keeps_its_store() {
    let s = DownloadService::new(5u32);
    assert_eq!(*s.download_links_mapper(), 5);
}

#[test]
fn entry_matches_on_the_object_path() {
    let s = DownloadService::new(());
    assert!(s.entry_matches("abc", &link(0, 1)));
    assert!(!s.entry_matches("ab", &link(0, 1)));
}

#[test]
fn accepts_only_awaited_events() {
    assert!(accepts_event(&DownloadState::Start, &DownloadEvent::Requested { file_id: String::new() }));
    assert!(!accepts_event(&DownloadState::Start, &DownloadEvent::DirEnd));
    assert!(accepts_event(&searching(), &DownloadEvent::DirEnd));
    assert!(!accepts_event(&DownloadState::Finished, &DownloadEvent::DirEnd));
}
