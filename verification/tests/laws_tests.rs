use rfserve::config::Envs;
use rfserve::domain::YtHistory;
use rfserve::download::{DownloadAction, DownloadEvent, DownloadService, DownloadState};
use rfserve::register::RegisterService;
use rfserve::time::Timestamp;

fn envs() -> Envs {
    Envs::new(3000, "postgres://db".to_string(), "/srv/videos".to_string(), 2, "files.local".to_string())
}

#[test]
fn registered_link_resolves_by_its_url() {
    let e = envs();
    let reg = RegisterService::new((), ());
    let record = YtHistory { id: 4, title: "t".to_string(), app_external_id: "ext-4".to_string() };
    let now = Timestamp { secs: 1_700_000_000, nanos: 5, offset: 0 };
    let links = reg.create_download_links_entity(Some(record), now, 0xdeadbeef_0000_4000_8000_0123456789ab, &e).unwrap();
    let file_id = links.url.rsplit('/').next().unwrap().to_string();
    let dl = DownloadService::new(());
    let (state, action) = dl.step(DownloadState::Start, DownloadEvent::Requested { file_id }, now, &e);
    assert!(matches!(action, DownloadAction::LoadRecord { id } if id == links.id));
    let (_, action) = dl.step(state, DownloadEvent::RecordLoaded { record: Some(links.clone()) }, links.created_at, &e);
    assert!(matches!(action, DownloadAction::ScanDir { ref root } if root == "/srv/videos"));
}

#[test]
fn registered_link_is_usable_until_it_expires() {
    let e = envs();
    let reg = RegisterService::new((), ());
    let record = YtHistory { id: 4, title: "t".to_string(), app_external_id: "ext-4".to_string() };
    let now = Timestamp { secs: 1_000, nanos: 0, offset: 3600 };
    let links = reg.create_download_links_entity(Some(record), now, 1, &e).unwrap();
    assert!(links.is_available_at(&now));
    assert!(links.is_available_at(&Timestamp { secs: 1_000 + 2 * 86400, nanos: 0, offset: 0 }));
    assert!(!links.is_available_at(&Timestamp { secs: 1_001 + 2 * 86400, nanos: 0, offset: 0 }));
    assert!(!links.is_available_at(&Timestamp { secs: 999, nanos: 999_999_999, offset: 0 }));
}

#[test]
fn upper_cased_request_loads_the_same_link() {
    let e = envs();
    let dl = DownloadService::new(());
    let now = Timestamp { secs: 0, nanos: 0, offset: 0 };
    for id in ["550e8400-e29b-41d4-a716-446655440000", "urn:uuid:abcdefab-cdef-4abc-8def-0123456789ab", "{0123abcd-0000-4000-8000-00000000beef}", "00000000000000000000000000ffffff"] {
        let (_, a) = dl.step(DownloadState::Start, DownloadEvent::Requested { file_id: id.to_string() }, now, &e);
        let (_, b) = dl.step(DownloadState::Start, DownloadEvent::Requested { file_id: id.to_uppercase() }, now, &e);
        match (a, b) {
            (DownloadAction::LoadRecord { id: x }, DownloadAction::LoadRecord { id: y }) => assert_eq!(x, y),
            _ => panic!("both should load a record"),
        }
    }
    let (_, b) = dl.step(DownloadState::Start, DownloadEvent::Requested { file_id: "not-an-id".to_uppercase() }, now, &e);
    assert!(matches!(b, DownloadAction::Fail { .. }));
}

fn run_download(file_id: &str, names: &[Option<&str>]) -> Result<String, String> {
    let e = envs();
    let dl = DownloadService::new(());
    let now = Timestamp { secs: 1_700_000_000, nanos: 0, offset: 0 };
    let reg = RegisterService::new((), ());
    let record = YtHistory { id: 4, title: "t".to_string(), app_external_id: "ext-4".to_string() };
    let link = reg.create_download_links_entity(Some(record), now, 0xabcdef00_0000_4000_8000_00000000cafe, &e).unwrap();
    let (mut state, mut action) = dl.step(DownloadState::Start, DownloadEvent::Requested { file_id: file_id.to_string() }, now, &e);
    let mut next = 0;
    loop {
        let event = match action {
            DownloadAction::LoadRecord { id } => DownloadEvent::RecordLoaded { record: if id == link.id { Some(link.clone()) } else { None } },
            DownloadAction::ScanDir { .. } | DownloadAction::NextEntry => {
                let ev = match names.get(next) {
                    Some(n) => DownloadEvent::DirEntry { name: n.map(|x| x.to_string()) },
                    None => DownloadEvent::DirEnd,
                };
                next += 1;
                ev
            },
            DownloadAction::OpenFile { name, .. } => return Ok(name),
            DownloadAction::Fail { error } => return Err(format!("{:?}", error).split(' ').next().unwrap().to_string()),
        };
        let r = dl.step(state, event, now, &e);
        state = r.0;
        action = r.1;
    }
}

#[test]
fn upper_cased_download_ends_alike() {
    let id = "abcdef00-0000-4000-8000-00000000cafe";
    let names = [Some("a.mp4"), Some("my-ext-4.mp4")];
    assert_eq!(run_download(id, &names), Ok("my-ext-4.mp4".to_string()));
    assert_eq!(run_download(&id.to_uppercase(), &names), run_download(id, &names));
    let other = [Some("a.mp4"), None, Some("my-ext-4.mp4")];
    assert_eq!(run_download(&id.to_uppercase(), &other), run_download(id, &other));
    assert_eq!(run_download("zz", &names), run_download("ZZ", &names));
}

#[test]
fn url_ends_with_slash_and_id() {
    let e = envs();
    let reg = RegisterService::new((), ());
    let now = Timestamp { secs: 0, nanos: 0, offset: 0 };
    let link = reg.create_download_links_entity(None, now, 0x1234, &e).unwrap();
    let last = link.url.rsplit('/').next().unwrap();
    assert_eq!(last.len(), 36);
    assert_eq!(&link.url[link.url.len() - 37..link.url.len() - 36], "/");
    assert_eq!(uuid::Uuid::parse_str(last).unwrap().as_u128(), 0x1234);
}
