use vstd::prelude::*;

use std::time::Duration;

verus! {

/// The duration of `ms` milliseconds.
pub uninterp spec fn millis_duration(ms: u64) -> Duration;

/// Relies on `Duration::from_millis`: the duration is a function of the count of
/// milliseconds alone.
#[verifier::external_body]
fn duration_from_millis(ms: u64) -> (r: Duration)
    ensures
        r == millis_duration(ms),
{
    Duration::from_millis(ms)
}

pub const DEFAULT_BIND_ADDRESS: &'static str = "0.0.0.0:9150";

pub const DEFAULT_DISCOVER_MAJOR_INTERVAL_MS: u64 = 300000;

pub const DEFAULT_DISCOVER_MINOR_INTERVAL_MS: u64 = 200;

pub const DEFAULT_REFRESH_INTERVAL_MS: u64 = 7500;

pub const DEFAULT_REFRESH_TIMEOUT_MS: u64 = 250;

/// The settings of the exporter; each one that is left out takes its default.
pub struct Configuration {
    bind_address: Option<String>,
    hosts: Option<Vec<String>>,
    discover_major_interval: Option<u64>,
    discover_minor_interval: Option<u64>,
    refresh_interval: Option<u64>,
    refresh_timeout: Option<u64>,
}

pub open spec fn or_default(v: Option<u64>, d: u64) -> u64 {
    match v {
        Some(x) => x,
        None => d,
    }
}

impl Configuration {
    pub closed spec fn spec_bind_address(&self) -> Option<Seq<char>> {
        match self.bind_address {
            Some(s) => Some(s@),
            None => None,
        }
    }

    pub closed spec fn spec_hosts(&self) -> Option<Seq<Seq<char>>> {
        match self.hosts {
            Some(v) => Some(v.deep_view()),
            None => None,
        }
    }

    pub closed spec fn spec_discover_major_interval(&self) -> Option<u64> {
        self.discover_major_interval
    }

    pub closed spec fn spec_discover_minor_interval(&self) -> Option<u64> {
        self.discover_minor_interval
    }

    pub closed spec fn spec_refresh_interval(&self) -> Option<u64> {
        self.refresh_interval
    }

    pub closed spec fn spec_refresh_timeout(&self) -> Option<u64> {
        self.refresh_timeout
    }

    /// Settings with the given values; intervals and the timeout are in milliseconds.
    pub fn new(
        bind_address: Option<String>,
        hosts: Option<Vec<String>>,
        discover_major_interval: Option<u64>,
        discover_minor_interval: Option<u64>,
        refresh_interval: Option<u64>,
        refresh_timeout: Option<u64>,
    ) -> (r: Configuration)
        ensures
            r.spec_bind_address() == (match bind_address {
                Some(s) => Some(s@),
                None => None::<Seq<char>>,
            }),
            r.spec_hosts() == (match hosts {
                Some(v) => Some(v.deep_view()),
                None => None::<Seq<Seq<char>>>,
            }),
            r.spec_discover_major_interval() == discover_major_interval,
            r.spec_discover_minor_interval() == discover_minor_interval,
            r.spec_refresh_interval() == refresh_interval,
            r.spec_refresh_timeout() == refresh_timeout,
    {
        Configuration {
            bind_address,
            hosts,
            discover_major_interval,
            discover_minor_interval,
            refresh_interval,
            refresh_timeout,
        }
    }

    /// The address the metrics server listens on; `0.0.0.0:9150` by default.
    pub fn bind_address(&self) -> (r: String)
        ensures
            r@ == (match self.spec_bind_address() {
                Some(s) => s,
                None => DEFAULT_BIND_ADDRESS@,
            }),
    {
        match &self.bind_address {
            Some(s) => s.clone(),
            None => DEFAULT_BIND_ADDRESS.to_owned(),
        }
    }

    /// The time between discovery rounds; five minutes by default.
    pub fn discover_major_interval(&self) -> (r: Duration)
        ensures
            r == millis_duration(
                or_default(self.spec_discover_major_interval(), DEFAULT_DISCOVER_MAJOR_INTERVAL_MS),
            ),
    {
        let ms = match self.discover_major_interval {
            Some(v) => v,
            None => DEFAULT_DISCOVER_MAJOR_INTERVAL_MS,
        };
        duration_from_millis(ms)
    }

    /// The time between the two probes of a discovery round; 200 milliseconds by default.
    pub fn discover_minor_interval(&self) -> (r: Duration)
        ensures
            r == millis_duration(
                or_default(self.spec_discover_minor_interval(), DEFAULT_DISCOVER_MINOR_INTERVAL_MS),
            ),
    {
        let ms = match self.discover_minor_interval {
            Some(v) => v,
            None => DEFAULT_DISCOVER_MINOR_INTERVAL_MS,
        };
        duration_from_millis(ms)
    }

    /// The time between two poll passes of a device; 7.5 seconds by default.
    pub fn refresh_interval(&self) -> (r: Duration)
        ensures
            r == millis_duration(
                or_default(self.spec_refresh_interval(), DEFAULT_REFRESH_INTERVAL_MS),
            ),
    {
        let ms = match self.refresh_interval {
            Some(v) => v,
            None => DEFAULT_REFRESH_INTERVAL_MS,
        };
        duration_from_millis(ms)
    }

    /// How long a device may take to answer; 250 milliseconds by default.
    pub fn refresh_timeout(&self) -> (r: Duration)
        ensures
            r == millis_duration(
                or_default(self.spec_refresh_timeout(), DEFAULT_REFRESH_TIMEOUT_MS),
            ),
    {
        let ms = match self.refresh_timeout {
            Some(v) => v,
            None => DEFAULT_REFRESH_TIMEOUT_MS,
        };
        duration_from_millis(ms)
    }

    /// The hosts configured by hand, if any.
    pub fn hosts(&self) -> (r: Option<Vec<String>>)
        ensures
            (match r {
                Some(v) => Some(v.deep_view()),
                None => None::<Seq<Seq<char>>>,
            }) == self.spec_hosts(),
    {
        match &self.hosts {
            Some(v) => {
                let c = v.clone();
                proof {
                    broadcast use vstd::std_specs::vec::vec_clone_deep_view_proof;
                }
                Some(c)
            },
            None => None,
        }
    }
}

impl Default for Configuration {
    fn default() -> (r: Configuration)
        ensures
            r.spec_bind_address() is None,
            r.spec_hosts() is None,
            r.spec_discover_major_interval() is None,
            r.spec_discover_minor_interval() is None,
            r.spec_refresh_interval() is None,
            r.spec_refresh_timeout() is None,
    {
        Configuration {
            bind_address: None,
            hosts: None,
            discover_major_interval: None,
            discover_minor_interval: None,
            refresh_interval: None,
            refresh_timeout: None,
        }
    }
}

} // verus!
