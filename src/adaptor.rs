use vstd::prelude::*;

use std::time::Duration;

use crate::decode::append_str;
use crate::info::{body_map, parse_pairs};
use crate::snapshot::{
    after_basic_info, after_control_info, after_monitor_data, after_sensor_info,
    after_week_power, empty_view, exported, exported_decimal, DecimalGauge, Gauge,
    TelemetrySnapshot, TelemetryView,
};

verus! {

/// The HTTP endpoints of a device, in the order one poll pass fetches them.
#[derive(Debug, Clone, Copy, PartialEq, Eq, Structural)]
pub enum Endpoint {
    BasicInfo,
    ControlInfo,
    SensorInfo,
    WeekPower,
    MonitorData,
}

pub open spec fn endpoint_path(e: Endpoint) -> Seq<char> {
    match e {
        Endpoint::BasicInfo => "common/basic_info"@,
        Endpoint::ControlInfo => "aircon/get_control_info"@,
        Endpoint::SensorInfo => "aircon/get_sensor_info"@,
        Endpoint::WeekPower => "aircon/get_week_power"@,
        Endpoint::MonitorData => "aircon/get_monitordata"@,
    }
}

/// The endpoint fetched after `e` in a pass that goes on.
pub open spec fn following(e: Endpoint) -> Option<Endpoint> {
    match e {
        Endpoint::BasicInfo => Some(Endpoint::ControlInfo),
        Endpoint::ControlInfo => Some(Endpoint::SensorInfo),
        Endpoint::SensorInfo => Some(Endpoint::WeekPower),
        Endpoint::WeekPower => Some(Endpoint::MonitorData),
        Endpoint::MonitorData => None,
    }
}

impl Endpoint {
    /// The path of the endpoint under `http://<host>/`.
    pub fn path(&self) -> (r: &'static str)
        ensures
            r@ == endpoint_path(*self),
    {
        match self {
            Endpoint::BasicInfo => "common/basic_info",
            Endpoint::ControlInfo => "aircon/get_control_info",
            Endpoint::SensorInfo => "aircon/get_sensor_info",
            Endpoint::WeekPower => "aircon/get_week_power",
            Endpoint::MonitorData => "aircon/get_monitordata",
        }
    }
}

/// The fields a response body holds: `None` when the request failed or the body is no list
/// of pairs.
pub open spec fn response_fields(body: Option<Seq<char>>) -> Option<Map<Seq<char>, Seq<char>>> {
    match body {
        Some(t) => body_map(t),
        None => None,
    }
}

/// The snapshot after the response of `e`.
pub open spec fn after_response(
    s: TelemetryView,
    e: Endpoint,
    fields: Option<Map<Seq<char>, Seq<char>>>,
) -> TelemetryView {
    match fields {
        None => s,
        Some(m) => match e {
            Endpoint::BasicInfo => after_basic_info(s, m),
            Endpoint::ControlInfo => after_control_info(s, m),
            Endpoint::SensorInfo => after_sensor_info(s, m),
            Endpoint::WeekPower => after_week_power(s, m),
            Endpoint::MonitorData => after_monitor_data(s, m),
        },
    }
}

/// What a pass fetches after the response of `e`: a failed `common/basic_info` ends it, and
/// so does one that leaves the device without a name.
pub open spec fn next_fetch(
    s: TelemetryView,
    e: Endpoint,
    fields: Option<Map<Seq<char>, Seq<char>>>,
) -> Option<Endpoint> {
    if e == Endpoint::BasicInfo && (fields is None || after_response(s, e, fields).device_name is None) {
        None
    } else {
        following(e)
    }
}

/// The snapshot after a run of responses, each an endpoint and its body (`None` when the
/// request failed).
pub open spec fn after_responses(s: TelemetryView, rs: Seq<(Endpoint, Option<Seq<char>>)>) -> TelemetryView
    decreases rs.len(),
{
    if rs.len() == 0 {
        s
    } else {
        after_response(after_responses(s, rs.drop_last()), rs.last().0, response_fields(rs.last().1))
    }
}

/// When the `common/basic_info` response of a pass fails, in transport or in its body, the
/// pass fetches no other endpoint and the snapshot stays as it was.
pub proof fn basic_info_failure_ends_pass(s: TelemetryView, body: Option<Seq<char>>)
    requires
        response_fields(body) is None,
    ensures
        after_response(s, Endpoint::BasicInfo, response_fields(body)) == s,
        next_fetch(s, Endpoint::BasicInfo, response_fields(body)) is None,
{
}

/// A pass goes on past `common/basic_info` only once the device has a name.
pub proof fn pass_needs_a_name(s: TelemetryView, body: Option<Seq<char>>)
    ensures
        next_fetch(s, Endpoint::BasicInfo, response_fields(body)) is Some ==> after_response(
            s,
            Endpoint::BasicInfo,
            response_fields(body),
        ).device_name is Some,
{
}

/// A device that never answers never gets a name, and nothing is exported for it.
pub proof fn silent_device_exports_nothing(rs: Seq<(Endpoint, Option<Seq<char>>)>)
    requires
        forall|i: int| 0 <= i < rs.len() ==> (#[trigger] rs[i]).1 is None,
    ensures
        after_responses(empty_view(), rs) == empty_view(),
        forall|g: Gauge| exported(after_responses(empty_view(), rs), g) is None,
        forall|g: DecimalGauge| exported_decimal(after_responses(empty_view(), rs), g) is None,
    decreases rs.len(),
{
    if rs.len() > 0 {
        assert(rs.last().1 is None);
        silent_device_exports_nothing(rs.drop_last());
    }
}

pub open spec fn body_view(body: Option<&str>) -> Option<Seq<char>> {
    match body {
        Some(t) => Some(t@),
        None => None,
    }
}

/// One device: its host, how often it is polled, and what is known of it.
pub struct DaikinAdaptor {
    pub host: String,
    interval: Duration,
    snapshot: TelemetrySnapshot,
}

impl DaikinAdaptor {
    pub closed spec fn spec_host(&self) -> Seq<char> {
        self.host@
    }

    pub closed spec fn spec_interval(&self) -> Duration {
        self.interval
    }

    pub closed spec fn spec_snapshot(&self) -> TelemetryView {
        self.snapshot@
    }

    /// An adaptor for `host` that knows nothing of the device yet.
    pub fn new(host: String, interval: Duration) -> (r: DaikinAdaptor)
        ensures
            r.spec_host() == host@,
            r.spec_interval() == interval,
            r.spec_snapshot() == empty_view(),
    {
        DaikinAdaptor { host, interval, snapshot: TelemetrySnapshot::new() }
    }

    /// How often the device is polled.
    pub fn interval(&self) -> (r: Duration)
        ensures
            r == self.spec_interval(),
    {
        self.interval
    }

    /// What is known of the device.
    pub fn snapshot(&self) -> (r: &TelemetrySnapshot)
        ensures
            r@ == self.spec_snapshot(),
    {
        &self.snapshot
    }

    /// The address of `endpoint` on this device: `http://<host>/<path>`.
    pub fn request_url(&self, endpoint: Endpoint) -> (r: String)
        ensures
            r@ == "http://"@ + self.spec_host() + "/"@ + endpoint_path(endpoint),
    {
        let mut url = "http://".to_owned();
        append_str(&mut url, self.host.as_str());
        append_str(&mut url, "/");
        append_str(&mut url, endpoint.path());
        url
    }

    /// The endpoint every poll pass starts with.
    pub fn first_fetch(&self) -> (r: Endpoint)
        ensures
            r == Endpoint::BasicInfo,
    {
        Endpoint::BasicInfo
    }

    /// Takes the response of `endpoint` (`None` when the request failed) and says which
    /// endpoint the pass fetches next, if any.
    pub fn on_response(&mut self, endpoint: Endpoint, body: Option<&str>) -> (next: Option<Endpoint>)
        ensures
            final(self).spec_host() == old(self).spec_host(),
            final(self).spec_interval() == old(self).spec_interval(),
            final(self).spec_snapshot() == after_response(
                old(self).spec_snapshot(),
                endpoint,
                response_fields(body_view(body)),
            ),
            next == next_fetch(old(self).spec_snapshot(), endpoint, response_fields(body_view(body))),
    {
        let info = match body {
            Some(text) => match parse_pairs(text) {
                Ok(info) => info,
                Err(_) => {
                    return if endpoint == Endpoint::BasicInfo {
                        None
                    } else {
                        Self::following_endpoint(endpoint)
                    };
                },
            },
            None => {
                return if endpoint == Endpoint::BasicInfo {
                    None
                } else {
                    Self::following_endpoint(endpoint)
                };
            },
        };
        match endpoint {
            Endpoint::BasicInfo => {
                self.snapshot.apply_basic_info(&info);
                if self.snapshot.device_name.is_none() {
                    return None;
                }
            },
            Endpoint::ControlInfo => self.snapshot.apply_control_info(&info),
            Endpoint::SensorInfo => self.snapshot.apply_sensor_info(&info),
            Endpoint::WeekPower => self.snapshot.apply_week_power(&info),
            Endpoint::MonitorData => self.snapshot.apply_monitor_data(&info),
        }
        Self::following_endpoint(endpoint)
    }

    fn following_endpoint(e: Endpoint) -> (r: Option<Endpoint>)
        ensures
            r == following(e),
    {
        match e {
            Endpoint::BasicInfo => Some(Endpoint::ControlInfo),
            Endpoint::ControlInfo => Some(Endpoint::SensorInfo),
            Endpoint::SensorInfo => Some(Endpoint::WeekPower),
            Endpoint::WeekPower => Some(Endpoint::MonitorData),
            Endpoint::MonitorData => None,
        }
    }
}

} // verus!
