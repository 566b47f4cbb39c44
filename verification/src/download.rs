//! Download: resolving a link identifier to the stored file it stands for.
//!
//! Looking up the link, reading the clock and reading the video directory
//! are done by the caller; every decision between them is made by `DownloadService::step`,
//! which takes the current state and what the caller observed, and answers
//! with the next state and what to do next.
use vstd::prelude::*;

use crate::config::Envs;
use crate::domain::DownloadLinks;
use crate::link_id::{parse_uuid, spec_parse_uuid};
use crate::text::{contains_str, contains_text};
use crate::time::Timestamp;

verus! {

/// Why a download was refused.
#[derive(Clone, Debug)]
pub enum DownloadError {
    /// The requested identifier is not a UUID.
    InvalidId { file_id: String },
    /// No link has the requested identifier.
    RecordNotFound { file_id: String },
    /// The link exists but may not be used now.
    Expired { record: DownloadLinks },
    /// A directory entry's name is not valid Unicode.
    FileNameNotUtf8,
    /// No file in the video directory matches the link.
    FileNotFound { record: DownloadLinks },
}

/// Where a download stands.
#[derive(Clone, Debug)]
pub enum DownloadState {
    /// Nothing has happened yet.
    Start,
    /// The link is being looked up.
    AwaitingRecord { file_id: String },
    /// The video directory `root` is being searched for the link's file.
    Searching { root: String, record: DownloadLinks },
    /// The download has been decided: a file to open, or an error.
    Finished,
}

/// What the caller observed.
#[derive(Clone, Debug)]
pub enum DownloadEvent {
    /// A download of `file_id` was requested.
    Requested { file_id: String },
    /// The link store answered the lookup.
    RecordLoaded { record: Option<DownloadLinks> },
    /// The next entry of the directory; `None` when its name is not valid
    /// Unicode.
    DirEntry { name: Option<String> },
    /// The directory has no more entries.
    DirEnd,
}

/// What the caller is to do next.
#[derive(Clone, Debug)]
pub enum DownloadAction {
    /// Look up the link with this identifier.
    LoadRecord { id: u128 },
    /// Start reading the directory `root`.
    ScanDir { root: String },
    /// Read the next directory entry.
    NextEntry,
    /// Open the file `name` in the directory `root` and serve it under `name`.
    OpenFile { root: String, name: String },
    /// Refuse the download.
    Fail { error: DownloadError },
}

/// The download service, holding the link store it reads from.
pub struct DownloadService<T> {
    download_links_mapper: T,
}

/// The event is one the state waits for.
pub open spec fn accepts(state: DownloadState, event: DownloadEvent) -> bool {
    match (state, event) {
        (DownloadState::Start, DownloadEvent::Requested { .. }) => true,
        (DownloadState::AwaitingRecord { .. }, DownloadEvent::RecordLoaded { .. }) => true,
        (DownloadState::Searching { .. }, DownloadEvent::DirEntry { .. }) => true,
        (DownloadState::Searching { .. }, DownloadEvent::DirEnd) => true,
        _ => false,
    }
}

/// The decision for `event` in `state`, the clock reading `now` and the
/// video directory `root`:
/// - a request: an identifier that reads as a UUID is looked up, any other
///   is refused;
/// - the lookup's answer: no link is refused; a link that may not be used at
///   `now` is refused; any other link has the video directory searched;
/// - a directory entry: a name that is not valid Unicode is refused; a name
///   containing the link's object path is opened; any other is passed over;
/// - the end of the directory: refused, the file was not found.
pub open spec fn step_spec(
    state: DownloadState,
    event: DownloadEvent,
    now: Timestamp,
    root: Seq<char>,
    next: DownloadState,
    action: DownloadAction,
) -> bool {
    match (state, event) {
        (DownloadState::Start, DownloadEvent::Requested { file_id }) => match spec_parse_uuid(
            file_id@,
        ) {
            Some(id) => {
                &&& next matches DownloadState::AwaitingRecord { file_id: f }
                &&& f@ == file_id@
                &&& action == DownloadAction::LoadRecord { id }
            },
            None => {
                &&& next is Finished
                &&& action matches DownloadAction::Fail {
                    error: DownloadError::InvalidId { file_id: f },
                }
                &&& f@ == file_id@
            },
        },
        (DownloadState::AwaitingRecord { file_id }, DownloadEvent::RecordLoaded { record }) => match record {
            None => {
                &&& next is Finished
                &&& action matches DownloadAction::Fail {
                    error: DownloadError::RecordNotFound { file_id: f },
                }
                &&& f@ == file_id@
            },
            Some(r) => if r.available_at(now) {
                &&& next matches DownloadState::Searching { root: d, record: r2 }
                &&& d@ == root && r2 == r
                &&& action matches DownloadAction::ScanDir { root: d2 }
                &&& d2@ == root
            } else {
                next is Finished && action == DownloadAction::Fail {
                    error: DownloadError::Expired { record: r },
                }
            },
        },
        (DownloadState::Searching { root: d, record }, DownloadEvent::DirEntry { name }) => match name {
            None => next is Finished && action == DownloadAction::Fail {
                error: DownloadError::FileNameNotUtf8,
            },
            Some(n) => if contains_text(n@, record.object_path@) {
                &&& next is Finished
                &&& action matches DownloadAction::OpenFile { root: d2, name: n2 }
                &&& d2@ == d@
                &&& n2@ == n@
            } else {
                next == (DownloadState::Searching { root: d, record }) && action
                    == DownloadAction::NextEntry
            },
        },
        (DownloadState::Searching { record, .. }, DownloadEvent::DirEnd) => next is Finished
            && action == DownloadAction::Fail { error: DownloadError::FileNotFound { record } },
        _ => false,
    }
}

/// Whether `event` is one `state` waits for.
pub fn accepts_event(state: &DownloadState, event: &DownloadEvent) -> (res: bool)
    ensures
        res == accepts(*state, *event),
{
    match (state, event) {
        (DownloadState::Start, DownloadEvent::Requested { .. }) => true,
        (DownloadState::AwaitingRecord { .. }, DownloadEvent::RecordLoaded { .. }) => true,
        (DownloadState::Searching { .. }, DownloadEvent::DirEntry { .. }) => true,
        (DownloadState::Searching { .. }, DownloadEvent::DirEnd) => true,
        _ => false,
    }
}

impl<T> DownloadService<T> {
    /// The link store.
    pub closed spec fn download_links_mapper_value(&self) -> T {
        self.download_links_mapper
    }

    /// A service over the link store.
    pub fn new(download_links_mapper: T) -> (res: Self)
        ensures
            res.download_links_mapper_value() == download_links_mapper,
    {
        DownloadService { download_links_mapper }
    }

    /// The link store.
    pub fn download_links_mapper(&self) -> (res: &T)
        ensures
            *res == self.download_links_mapper_value(),
    {
        &self.download_links_mapper
    }

    /// Reads a requested identifier; `None` when it is not a UUID.
    pub fn parse_file_id(&self, file_id: &str) -> (res: Option<u128>)
        ensures
            res == spec_parse_uuid(file_id@),
    {
        parse_uuid(file_id)
    }

    /// Whether the link may be used at `now`, the clock reading the caller
    /// took.
    pub fn check_record_expired(&self, record: &DownloadLinks, now: &Timestamp) -> (res: bool)
        ensures
            res == record.available_at(*now),
    {
        record.is_available_at(now)
    }

    /// Whether the directory entry `name` is the link's file: its name
    /// contains the link's object path.
    pub fn entry_matches(&self, name: &str, record: &DownloadLinks) -> (res: bool)
        ensures
            res == contains_text(name@, record.object_path@),
    {
        contains_str(name, record.object_path.as_str())
    }

    /// The decision for `event` in `state`, with `now` the clock reading the
    /// caller took (only the answer to a lookup depends on it).
    pub fn step(&self, state: DownloadState, event: DownloadEvent, now: Timestamp, envs: &Envs) -> (res: (DownloadState, DownloadAction))
        requires
            accepts(state, event),
        ensures
            step_spec(state, event, now, envs.video_root(), res.0, res.1),
    {
        match (state, event) {
            (DownloadState::Start, DownloadEvent::Requested { file_id }) => {
                match self.parse_file_id(file_id.as_str()) {
                    Some(id) => (DownloadState::AwaitingRecord { file_id }, DownloadAction::LoadRecord { id }),
                    None => (
                        DownloadState::Finished,
                        DownloadAction::Fail { error: DownloadError::InvalidId { file_id } },
                    ),
                }
            },
            (DownloadState::AwaitingRecord { file_id }, DownloadEvent::RecordLoaded { record }) => {
                match record {
                    None => (
                        DownloadState::Finished,
                        DownloadAction::Fail { error: DownloadError::RecordNotFound { file_id } },
                    ),
                    Some(r) => {
                        if self.check_record_expired(&r, &now) {
                            let root = envs.get_video_root().to_owned();
                            let root2 = envs.get_video_root().to_owned();
                            (
                                DownloadState::Searching { root, record: r },
                                DownloadAction::ScanDir { root: root2 },
                            )
                        } else {
                            (
                                DownloadState::Finished,
                                DownloadAction::Fail { error: DownloadError::Expired { record: r } },
                            )
                        }
                    },
                }
            },
            (DownloadState::Searching { root, record }, DownloadEvent::DirEntry { name }) => {
                match name {
                    None => (
                        DownloadState::Finished,
                        DownloadAction::Fail { error: DownloadError::FileNameNotUtf8 },
                    ),
                    Some(n) => {
                        if self.entry_matches(n.as_str(), &record) {
                            (DownloadState::Finished, DownloadAction::OpenFile { root, name: n })
                        } else {
                            (DownloadState::Searching { root, record }, DownloadAction::NextEntry)
                        }
                    },
                }
            },
            (DownloadState::Searching { root, record }, DownloadEvent::DirEnd) => {
                (
                    DownloadState::Finished,
                    DownloadAction::Fail { error: DownloadError::FileNotFound { record } },
                )
            },
            (s, e) => {
                proof {
                    assert(!accepts(s, e));
                }
                (DownloadState::Finished, DownloadAction::NextEntry)
            },
        }
    }
}

} // verus!
