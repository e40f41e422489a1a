use std::time::Duration;

use daikin_exporter::adaptor::{DaikinAdaptor, Endpoint};
use daikin_exporter::snapshot::{fan_rate_value, tenths_to_units, DecimalGauge, Gauge};

const BASIC_INFO: &str = "ret=OK,type=aircon,pow=1,name=%4c%69%76%69%6e%67";
const CONTROL_INFO: &str = "ret=OK,stemp=25,shum=50,mode=3,f_rate=A,f_dir=1";
const SENSOR_INFO: &str = "ret=OK,htemp=22.5,otemp=14.0,cmpfreq=34";
const WEEK_POWER: &str = "ret=OK,today_runtime=95,datas=0/0/0";
const MONITOR_DATA: &str =
    "ret=OK,fan=3435,rawrtmp=323135,trtmp=2D3135,fangl=37,hetmp=333030,ResetCount=2,RouterDisconCnt=5,PollingErrCnt=0";

fn adaptor() -> DaikinAdaptor {
    DaikinAdaptor::new("192.168.1.20".to_string(), Duration::from_millis(7500))
}

fn full_pass(a: &mut DaikinAdaptor) -> Vec<Endpoint> {
    let mut fetched = Vec::new();
    let mut next = Some(a.first_fetch());
    while let Some(e) = next {
        fetched.push(e);
        let body = match e {
            Endpoint::BasicInfo => BASIC_INFO,
            Endpoint::ControlInfo => CONTROL_INFO,
            Endpoint::SensorInfo => SENSOR_INFO,
            Endpoint::WeekPower => WEEK_POWER,
            Endpoint::MonitorData => MONITOR_DATA,
        };
        next = a.on_response(e, Some(body));
    }
    fetched
}

#[test]
fn new_adaptor_knows_nothing() {
    let a = adaptor();
    assert_eq!(a.host, "192.168.1.20");
    assert_eq!(a.interval(), Duration::from_millis(7500));
    assert!(a.snapshot().device_name.is_none());
    assert_eq!(a.snapshot().gauge_value(Gauge::PowerOn), None);
}

#[test]
fn endpoint_paths() {
    assert_eq!(Endpoint::BasicInfo.path(), "common/basic_info");
    assert_eq!(Endpoint::ControlInfo.path(), "aircon/get_control_info");
    assert_eq!(Endpoint::SensorInfo.path(), "aircon/get_sensor_info");
    assert_eq!(Endpoint::WeekPower.path(), "aircon/get_week_power");
    assert_eq!(Endpoint::MonitorData.path(), "aircon/get_monitordata");
}

#[test]
fn request_url_names_host_and_path() {
    let a = adaptor();
    assert_eq!(a.request_url(Endpoint::BasicInfo), "http://192.168.1.20/common/basic_info");
    assert_eq!(
        a.request_url(Endpoint::MonitorData),
        "http://192.168.1.20/aircon/get_monitordata"
    );
}

#[test]
fn full_pass_fetches_every_endpoint_in_order() {
    let mut a = adaptor();
    let fetched = full_pass(&mut a);
    assert_eq!(
        fetched,
        vec![
            Endpoint::BasicInfo,
            Endpoint::ControlInfo,
            Endpoint::SensorInfo,
            Endpoint::WeekPower,
            Endpoint::MonitorData
        ]
    );
    let s = a.snapshot();
    assert_eq!(s.device_name.as_deref(), Some("Living"));
    assert_eq!(s.gauge_value(Gauge::PowerOn), Some(1));
    assert_eq!(s.gauge_value(Gauge::CompressorDemand), Some(34));
    assert_eq!(s.gauge_value(Gauge::DailyRuntime), Some(95));
    assert_eq!(s.gauge_value(Gauge::MonitorFanSpeed), Some(45));
    assert_eq!(s.gauge_value(Gauge::MonitorRoomTemperature), Some(21));
    assert_eq!(s.room_temperature_tenths, Some(215));
    assert_eq!(s.gauge_value(Gauge::MonitorTrTemperature), Some(-1));
    assert_eq!(s.gauge_value(Gauge::MonitorFanAngle), Some(7));
    assert_eq!(s.gauge_value(Gauge::MonitorHeatExchangerTemperature), Some(30));
    assert_eq!(s.gauge_value(Gauge::MonitorResetCount), Some(2));
    assert_eq!(s.gauge_value(Gauge::MonitorRouterDisconnectCount), Some(5));
    assert_eq!(s.gauge_value(Gauge::MonitorPollingErrorCount), Some(0));
    assert_eq!(s.decimal_text(DecimalGauge::UnitTemperature).unwrap(), "22.5");
    assert_eq!(s.decimal_text(DecimalGauge::OutdoorTemperature).unwrap(), "14.0");
}

#[test]
fn control_info_fan_rate_letter_and_set_temperature() {
    let mut a = adaptor();
    assert_eq!(a.on_response(Endpoint::BasicInfo, Some(BASIC_INFO)), Some(Endpoint::ControlInfo));
    let next = a.on_response(
        Endpoint::ControlInfo,
        Some("stemp=25,shum=50,mode=3,f_rate=A,f_dir=1"),
    );
    assert_eq!(next, Some(Endpoint::SensorInfo));
    let s = a.snapshot();
    assert_eq!(s.gauge_value(Gauge::FanRate), Some(1));
    assert_eq!(s.decimal_text(DecimalGauge::SetTemperature).unwrap(), "25");
    assert_eq!(s.gauge_value(Gauge::SetHumidity), Some(50));
    assert_eq!(s.gauge_value(Gauge::Mode), Some(3));
    assert_eq!(s.gauge_value(Gauge::FanDirection), Some(1));
}

#[test]
fn fan_rate_letters_and_numbers() {
    assert_eq!(fan_rate_value("A"), Some(1));
    assert_eq!(fan_rate_value("B"), Some(2));
    assert_eq!(fan_rate_value("5"), Some(5));
    assert_eq!(fan_rate_value("C"), None);
    assert_eq!(fan_rate_value("AB"), None);
}

#[test]
fn tenths_round_toward_zero() {
    assert_eq!(tenths_to_units(215), 21);
    assert_eq!(tenths_to_units(-15), -1);
    assert_eq!(tenths_to_units(9), 0);
    assert_eq!(tenths_to_units(i64::MIN), i64::MIN / 10);
    assert_eq!(tenths_to_units(i64::MAX), i64::MAX / 10);
}

#[test]
fn failed_basic_info_ends_pass_and_keeps_snapshot() {
    let mut a = adaptor();
    full_pass(&mut a);
    assert_eq!(a.on_response(Endpoint::BasicInfo, None), None);
    assert_eq!(a.snapshot().device_name.as_deref(), Some("Living"));
    assert_eq!(a.snapshot().gauge_value(Gauge::FanRate), Some(1));
    assert_eq!(a.snapshot().gauge_value(Gauge::PowerOn), Some(1));
}

#[test]
fn malformed_basic_info_ends_pass() {
    let mut a = adaptor();
    full_pass(&mut a);
    assert_eq!(a.on_response(Endpoint::BasicInfo, Some("garbage")), None);
    assert_eq!(a.snapshot().gauge_value(Gauge::PowerOn), Some(1));
}

#[test]
fn no_name_stops_pass_before_control_info() {
    let mut a = adaptor();
    assert_eq!(a.on_response(Endpoint::BasicInfo, Some("ret=OK,pow=1")), None);
    assert!(a.snapshot().device_name.is_none());
    assert_eq!(a.snapshot().gauge_value(Gauge::PowerOn), None);
    assert_eq!(a.snapshot().power_on, Some(1));
}

#[test]
fn bad_name_encoding_leaves_name_unresolved() {
    let mut a = adaptor();
    assert_eq!(a.on_response(Endpoint::BasicInfo, Some("pow=0,name=%4")), None);
    assert!(a.snapshot().device_name.is_none());
}

#[test]
fn later_endpoint_failure_goes_on() {
    let mut a = adaptor();
    a.on_response(Endpoint::BasicInfo, Some(BASIC_INFO));
    assert_eq!(a.on_response(Endpoint::ControlInfo, None), Some(Endpoint::SensorInfo));
    assert_eq!(a.on_response(Endpoint::SensorInfo, Some("x")), Some(Endpoint::WeekPower));
    assert_eq!(a.on_response(Endpoint::MonitorData, None), None);
}

#[test]
fn malformed_field_is_skipped_alone() {
    let mut a = adaptor();
    full_pass(&mut a);
    a.on_response(Endpoint::ControlInfo, Some("stemp=26,shum=abc,mode=4,f_rate=Q,f_dir=2"));
    let s = a.snapshot();
    assert_eq!(s.decimal_text(DecimalGauge::SetTemperature).unwrap(), "26");
    assert_eq!(s.gauge_value(Gauge::SetHumidity), Some(50));
    assert_eq!(s.gauge_value(Gauge::Mode), Some(4));
    assert_eq!(s.gauge_value(Gauge::FanRate), Some(1));
    assert_eq!(s.gauge_value(Gauge::FanDirection), Some(2));
}

#[test]
fn missing_field_keeps_old_value() {
    let mut a = adaptor();
    full_pass(&mut a);
    a.on_response(Endpoint::MonitorData, Some("fan=3130,rawrtmp=ZZ"));
    let s = a.snapshot();
    assert_eq!(s.gauge_value(Gauge::MonitorFanSpeed), Some(10));
    assert_eq!(s.gauge_value(Gauge::MonitorRoomTemperature), Some(21));
    assert_eq!(s.gauge_value(Gauge::MonitorResetCount), Some(2));
}

#[test]
fn silent_host_never_gets_a_name() {
    let mut a = adaptor();
    let mut other = DaikinAdaptor::new("192.168.1.21".to_string(), Duration::from_millis(7500));
    for _ in 0..5 {
        assert_eq!(a.on_response(Endpoint::BasicInfo, None), None);
        full_pass(&mut other);
    }
    assert!(a.snapshot().device_name.is_none());
    assert_eq!(a.snapshot().gauge_value(Gauge::PowerOn), None);
    assert!(a.snapshot().decimal_text(DecimalGauge::SetTemperature).is_none());
    assert_eq!(other.snapshot().gauge_value(Gauge::FanRate), Some(1));
}
