//! The records the service reads and writes.
use vstd::prelude::*;

use crate::time::Timestamp;

verus! {

/// A downloaded video as the history table records it.
#[derive(Clone, Debug)]
pub struct YtHistory {
    pub id: i32,
    pub title: String,
    pub app_external_id: String,
}

impl Default for YtHistory {
    fn default() -> (res: YtHistory)
        ensures
            res.id == 0,
            res.title@ == Seq::<char>::empty(),
            res.app_external_id@ == Seq::<char>::empty(),
    {
        YtHistory { id: 0, title: String::new(), app_external_id: String::new() }
    }
}

/// A download link: the identifier the link is served under, the history
/// record it belongs to, the URL handed out, the name fragment of the stored
/// file, and the window in which the link may be used.
#[derive(Clone, Debug)]
pub struct DownloadLinks {
    pub id: u128,
    pub yt_history_id: i32,
    pub url: String,
    pub object_path: String,
    pub expires_at: Timestamp,
    pub created_at: Timestamp,
}

impl DownloadLinks {
    /// The link may be used at `now`: not before it was created and not
    /// after it expires, both ends included.
    pub open spec fn available_at(self, now: Timestamp) -> bool {
        self.created_at.not_after(now) && now.not_after(self.expires_at)
    }

    /// Whether the link may be used at `now`.
    pub fn is_available_at(&self, now: &Timestamp) -> (res: bool)
        ensures
            res == self.available_at(*now),
    {
        self.created_at.le(now) && now.le(&self.expires_at)
    }
}

} // verus!
