//! Registration: turning a history record into a time-limited download link.
use vstd::prelude::*;

use crate::config::Envs;
use crate::domain::{DownloadLinks, YtHistory};
use crate::link_id::{hyphenated, uuid_text};
use crate::text::{decimal, is_blank, is_blank_str, to_decimal};
use crate::time::{checked_add_days, day_addition_in_range, spec_checked_add_days, Timestamp};

verus! {

/// Why a record could not be registered.
#[derive(Clone, Copy, Debug, PartialEq, Eq, Structural)]
pub enum RegisterError {
    /// No history record has the requested id.
    RecordNotFound { yt_history_id: i64 },
    /// The record's external id is empty or white space only.
    EmptyExternalId { yt_history_id: i64 },
    /// The expiry date cannot be represented.
    ExpiryOutOfRange,
}

/// What a successful registration hands back: the URL of the new link.
#[derive(Clone, Debug)]
pub struct RegisterServiceOutput {
    pub url: String,
}

/// The registration service, holding the stores it reads from and writes to.
pub struct RegisterService<T, S> {
    yt_mapper: T,
    download_links_mapper: S,
}

/// The checks a record passes before a link is made for it: it exists, and
/// its external id is not blank.
pub open spec fn spec_data_check(record: Option<YtHistory>, yt_history_id: i64) -> Result<(), RegisterError> {
    match record {
        None => Err(RegisterError::RecordNotFound { yt_history_id }),
        Some(r) => if is_blank(r.app_external_id@) {
            Err(RegisterError::EmptyExternalId { yt_history_id })
        } else {
            Ok(())
        },
    }
}

/// The URL under which the link `id` is served.
pub open spec fn link_url(host: Seq<char>, port: u16, id: u128) -> Seq<char> {
    seq!['h', 't', 't', 'p', ':', '/', '/'] + host + seq![':'] + decimal(port as nat) + seq![
        '/',
        'r',
        'f',
        's',
        'e',
        'r',
        'v',
        'e',
        '/',
        'd',
        'o',
        'w',
        'n',
        'l',
        'o',
        'a',
        'd',
        '/',
    ] + hyphenated(id)
}

/// The history id a link takes from the record (zero when there is none).
pub open spec fn source_id(record: Option<YtHistory>) -> i32 {
    match record {
        Some(r) => r.id,
        None => 0,
    }
}

/// The object path a link takes from the record (empty when there is none).
pub open spec fn source_object(record: Option<YtHistory>) -> Seq<char> {
    match record {
        Some(r) => r.app_external_id@,
        None => Seq::<char>::empty(),
    }
}

/// `l` is the link made from `record` at `now` under the identifier `id`:
/// it is created at `now`, expires the configured number of whole days later
/// (as chrono adds days), and its URL carries `id`.
pub open spec fn links_built(l: DownloadLinks, record: Option<YtHistory>, now: Timestamp, id: u128, envs: Envs) -> bool {
    &&& l.id == id
    &&& l.yt_history_id == source_id(record)
    &&& l.url@ == link_url(envs.host_name(), envs.port(), id)
    &&& l.object_path@ == source_object(record)
    &&& l.created_at == now
    &&& spec_checked_add_days(now, envs.store_days()) == Some(l.expires_at)
    &&& l.expires_at.secs == now.secs + 86400 * envs.store_days()
    &&& l.expires_at.nanos == now.nanos
    &&& l.expires_at.offset == now.offset
}

/// The outcome of making a link from `record` at `now` under `id`: an error
/// exactly when the expiry date cannot be represented, else the link.
pub open spec fn build_outcome(res: Result<DownloadLinks, RegisterError>, record: Option<YtHistory>, now: Timestamp, id: u128, envs: Envs) -> bool {
    match spec_checked_add_days(now, envs.store_days()) {
        None => res == Err::<DownloadLinks, RegisterError>(RegisterError::ExpiryOutOfRange),
        Some(_) => res matches Ok(l) && links_built(l, record, now, id, envs),
    }
}

impl<T, S> RegisterService<T, S> {
    /// The history store.
    pub closed spec fn yt_mapper_value(&self) -> T {
        self.yt_mapper
    }

    /// The link store.
    pub closed spec fn download_links_mapper_value(&self) -> S {
        self.download_links_mapper
    }

    /// A service over the two stores.
    pub fn new(yt_mapper: T, download_links_mapper: S) -> (res: Self)
        ensures
            res.yt_mapper_value() == yt_mapper,
            res.download_links_mapper_value() == download_links_mapper,
    {
        RegisterService { yt_mapper, download_links_mapper }
    }

    /// The history store.
    pub fn yt_mapper(&self) -> (res: &T)
        ensures
            *res == self.yt_mapper_value(),
    {
        &self.yt_mapper
    }

    /// The link store.
    pub fn download_links_mapper(&self) -> (res: &S)
        ensures
            *res == self.download_links_mapper_value(),
    {
        &self.download_links_mapper
    }

    /// Checks the record found for `yt_history_id` before a link is made.
    pub fn data_check(&self, record: &Option<YtHistory>, yt_history_id: i64) -> (res: Result<(), RegisterError>)
        ensures
            res == spec_data_check(*record, yt_history_id),
    {
        match record {
            None => Err(RegisterError::RecordNotFound { yt_history_id }),
            Some(r) => {
                if is_blank_str(r.app_external_id.as_str()) {
                    Err(RegisterError::EmptyExternalId { yt_history_id })
                } else {
                    Ok(())
                }
            },
        }
    }

    /// The URL of the link `uuid`, for the configured host and port.
    pub fn create_url(&self, uuid: u128, envs: &Envs) -> (res: String)
        ensures
            res@ == link_url(envs.host_name(), envs.port(), uuid),
    {
        let mut url = String::new();
        url.append("http://");
        url.append(envs.get_hostname());
        url.append(":");
        let port = to_decimal(envs.get_port() as u64);
        url.append(port.as_str());
        url.append("/rfserve/download/");
        let id = uuid_text(uuid);
        url.append(id.as_str());
        proof {
            reveal_strlit("http://");
            reveal_strlit(":");
            reveal_strlit("/rfserve/download/");
        }
        assert(url@ =~= link_url(envs.host_name(), envs.port(), uuid));
        url
    }

    /// Makes the link for `record`, created at `now` (the clock reading the
    /// caller took) under the identifier `id` (the UUID the caller drew):
    /// the record's id and object path, the URL of `id`, and an expiry the
    /// configured number of days after `now`.
    pub fn create_download_links_entity(&self, record: Option<YtHistory>, now: Timestamp, id: u128, envs: &Envs) -> (res: Result<DownloadLinks, RegisterError>)
        ensures
            build_outcome(res, record, now, id, *envs),
            day_addition_in_range(now, envs.store_days()) ==> res is Ok,
    {
        let expired = match checked_add_days(now, envs.get_expred_store_days()) {
            Some(e) => e,
            None => return Err(RegisterError::ExpiryOutOfRange),
        };
        let source = match record {
            Some(r) => r,
            None => YtHistory::default(),
        };
        let url = self.create_url(id, envs);
        Ok(
            DownloadLinks {
                id,
                yt_history_id: source.id,
                url,
                object_path: source.app_external_id,
                expires_at: expired,
                created_at: now,
            },
        )
    }
}

} // verus!
