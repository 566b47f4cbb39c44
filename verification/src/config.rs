//! The service's settings, built from the values of its environment.
use vstd::prelude::*;

use crate::text::{parse_u64, spec_parse_u64};

verus! {

/// Why the settings could not be built.
#[derive(Clone, Copy, Debug, PartialEq, Eq, Structural)]
pub enum EnvsError {
    /// The number of days a link stays valid is not a decimal `u64`.
    InvalidStoreDays,
}

/// The settings: the port the service listens on, the database URL, the
/// directory that holds the videos, how many days a link stays valid, and
/// the host name put into links.
#[derive(Clone, Debug)]
pub struct Envs {
    port: u16,
    db_url: String,
    video_root: String,
    expired_store_days: u64,
    host_name: String,
}

impl Envs {
    /// The port the service listens on.
    pub closed spec fn port(&self) -> u16 {
        self.port
    }

    /// The database URL.
    pub closed spec fn db_url(&self) -> Seq<char> {
        self.db_url@
    }

    /// The directory that holds the videos.
    pub closed spec fn video_root(&self) -> Seq<char> {
        self.video_root@
    }

    /// How many days a new link stays valid.
    pub closed spec fn store_days(&self) -> u64 {
        self.expired_store_days
    }

    /// The host name put into links.
    pub closed spec fn host_name(&self) -> Seq<char> {
        self.host_name@
    }

    /// Reads the number of days a link stays valid, as `str::parse::<u64>`
    /// reads it; anything else is an error.
    pub fn parse_store_days(text: &str) -> (res: Result<u64, EnvsError>)
        ensures
            spec_parse_u64(text@) matches Some(days) ==> res == Ok::<u64, EnvsError>(days),
            spec_parse_u64(text@) is None ==> res == Err::<u64, EnvsError>(EnvsError::InvalidStoreDays),
    {
        match parse_u64(text) {
            Some(days) => Ok(days),
            None => Err(EnvsError::InvalidStoreDays),
        }
    }

    /// The settings from the port of the listening address and the other
    /// values.
    pub fn new(port: u16, db_url: String, video_root: String, expired_store_days: u64, host_name: String) -> (res: Envs)
        ensures
            res.port() == port,
            res.db_url() == db_url@,
            res.video_root() == video_root@,
            res.store_days() == expired_store_days,
            res.host_name() == host_name@,
    {
        Envs { port, db_url, video_root, expired_store_days, host_name }
    }

    /// The port the service listens on.
    pub fn get_port(&self) -> (res: u16)
        ensures
            res == self.port(),
    {
        self.port
    }

    /// The database URL.
    pub fn get_db_url(&self) -> (res: &str)
        ensures
            res@ == self.db_url(),
    {
        self.db_url.as_str()
    }

    /// How many days a new link stays valid.
    pub fn get_expred_store_days(&self) -> (res: u64)
        ensures
            res == self.store_days(),
    {
        self.expired_store_days
    }

    /// The directory that holds the videos.
    pub fn get_video_root(&self) -> (res: &str)
        ensures
            res@ == self.video_root(),
    {
        self.video_root.as_str()
    }

    /// The host name put into links.
    pub fn get_hostname(&self) -> (res: &str)
        ensures
            res@ == self.host_name(),
    {
        self.host_name.as_str()
    }
}

} // verus!
