use vstd::prelude::*;

use crate::decode::{decode, decoded_view, hex_bytes, percent_bytes, percent_decode, text_of_bytes};
use crate::info::Info;
use crate::number::{i64_value, parse_i64};

verus! {

/// The latest known values of one device. A field keeps its value until a later response
/// holds a valid one.
pub struct TelemetrySnapshot {
    pub device_name: Option<String>,
    pub power_on: Option<i64>,
    pub set_temperature: Option<String>,
    pub set_humidity: Option<i64>,
    pub mode: Option<i64>,
    pub fan_rate: Option<i64>,
    pub fan_direction: Option<i64>,
    pub unit_temperature: Option<String>,
    pub outdoor_temperature: Option<String>,
    pub compressor_demand: Option<i64>,
    pub daily_runtime: Option<i64>,
    pub fan_speed: Option<i64>,
    pub room_temperature_tenths: Option<i64>,
    pub tr_temperature_tenths: Option<i64>,
    pub fan_angle: Option<i64>,
    pub heat_exchanger_temperature_tenths: Option<i64>,
    pub reset_count: Option<i64>,
    pub router_disconnect_count: Option<i64>,
    pub polling_error_count: Option<i64>,
}

/// A snapshot with its texts as character sequences.
pub ghost struct TelemetryView {
    pub device_name: Option<Seq<char>>,
    pub power_on: Option<i64>,
    pub set_temperature: Option<Seq<char>>,
    pub set_humidity: Option<i64>,
    pub mode: Option<i64>,
    pub fan_rate: Option<i64>,
    pub fan_direction: Option<i64>,
    pub unit_temperature: Option<Seq<char>>,
    pub outdoor_temperature: Option<Seq<char>>,
    pub compressor_demand: Option<i64>,
    pub daily_runtime: Option<i64>,
    pub fan_speed: Option<i64>,
    pub room_temperature_tenths: Option<i64>,
    pub tr_temperature_tenths: Option<i64>,
    pub fan_angle: Option<i64>,
    pub heat_exchanger_temperature_tenths: Option<i64>,
    pub reset_count: Option<i64>,
    pub router_disconnect_count: Option<i64>,
    pub polling_error_count: Option<i64>,
}

pub open spec fn text_view(t: Option<String>) -> Option<Seq<char>> {
    match t {
        Some(s) => Some(s@),
        None => None,
    }
}

impl View for TelemetrySnapshot {
    type V = TelemetryView;

    open spec fn view(&self) -> TelemetryView {
        TelemetryView {
            device_name: text_view(self.device_name),
            power_on: self.power_on,
            set_temperature: text_view(self.set_temperature),
            set_humidity: self.set_humidity,
            mode: self.mode,
            fan_rate: self.fan_rate,
            fan_direction: self.fan_direction,
            unit_temperature: text_view(self.unit_temperature),
            outdoor_temperature: text_view(self.outdoor_temperature),
            compressor_demand: self.compressor_demand,
            daily_runtime: self.daily_runtime,
            fan_speed: self.fan_speed,
            room_temperature_tenths: self.room_temperature_tenths,
            tr_temperature_tenths: self.tr_temperature_tenths,
            fan_angle: self.fan_angle,
            heat_exchanger_temperature_tenths: self.heat_exchanger_temperature_tenths,
            reset_count: self.reset_count,
            router_disconnect_count: self.router_disconnect_count,
            polling_error_count: self.polling_error_count,
        }
    }
}

/// The empty snapshot of a device that has not answered yet.
pub open spec fn empty_view() -> TelemetryView {
    TelemetryView {
        device_name: None,
        power_on: None,
        set_temperature: None,
        set_humidity: None,
        mode: None,
        fan_rate: None,
        fan_direction: None,
        unit_temperature: None,
        outdoor_temperature: None,
        compressor_demand: None,
        daily_runtime: None,
        fan_speed: None,
        room_temperature_tenths: None,
        tr_temperature_tenths: None,
        fan_angle: None,
        heat_exchanger_temperature_tenths: None,
        reset_count: None,
        router_disconnect_count: None,
        polling_error_count: None,
    }
}

/// A new value where one came, else the old one.
pub open spec fn refresh<T>(old: Option<T>, new: Option<T>) -> Option<T> {
    if new is Some {
        new
    } else {
        old
    }
}

/// The raw value of `key`.
pub open spec fn text_field(m: Map<Seq<char>, Seq<char>>, key: Seq<char>) -> Option<Seq<char>> {
    if m.contains_key(key) {
        Some(m[key])
    } else {
        None
    }
}

/// The integer that the value of `key` writes.
pub open spec fn int_field(m: Map<Seq<char>, Seq<char>>, key: Seq<char>) -> Option<i64> {
    match text_field(m, key) {
        Some(t) => i64_value(t),
        None => None,
    }
}

/// The integer written, in hexadecimal digit pairs, by the value of `key`.
pub open spec fn hex_int_field(m: Map<Seq<char>, Seq<char>>, key: Seq<char>) -> Option<i64> {
    match text_field(m, key) {
        Some(t) => match text_of_bytes(hex_bytes(t)) {
            Ok(d) => i64_value(d),
            Err(_) => None,
        },
        None => None,
    }
}

/// The device name: the percent-decoded value of `name`.
pub open spec fn name_field(m: Map<Seq<char>, Seq<char>>) -> Option<Seq<char>> {
    match text_field(m, "name"@) {
        Some(t) => match text_of_bytes(percent_bytes(t)) {
            Ok(d) => Some(d),
            Err(_) => None,
        },
        None => None,
    }
}

/// The fan rate that a raw `f_rate` value stands for: `A` is 1, `B` is 2, else the integer.
pub open spec fn fan_rate_of(t: Seq<char>) -> Option<i64> {
    if t == seq!['A'] {
        Some(1)
    } else if t == seq!['B'] {
        Some(2)
    } else {
        i64_value(t)
    }
}

pub open spec fn fan_rate_field(m: Map<Seq<char>, Seq<char>>) -> Option<i64> {
    match text_field(m, "f_rate"@) {
        Some(t) => fan_rate_of(t),
        None => None,
    }
}

pub open spec fn after_basic_info(s: TelemetryView, m: Map<Seq<char>, Seq<char>>) -> TelemetryView {
    TelemetryView {
        device_name: refresh(s.device_name, name_field(m)),
        power_on: refresh(s.power_on, int_field(m, "pow"@)),
        ..s
    }
}

pub open spec fn after_control_info(s: TelemetryView, m: Map<Seq<char>, Seq<char>>) -> TelemetryView {
    TelemetryView {
        set_temperature: refresh(s.set_temperature, text_field(m, "stemp"@)),
        set_humidity: refresh(s.set_humidity, int_field(m, "shum"@)),
        mode: refresh(s.mode, int_field(m, "mode"@)),
        fan_rate: refresh(s.fan_rate, fan_rate_field(m)),
        fan_direction: refresh(s.fan_direction, int_field(m, "f_dir"@)),
        ..s
    }
}

pub open spec fn after_sensor_info(s: TelemetryView, m: Map<Seq<char>, Seq<char>>) -> TelemetryView {
    TelemetryView {
        unit_temperature: refresh(s.unit_temperature, text_field(m, "htemp"@)),
        outdoor_temperature: refresh(s.outdoor_temperature, text_field(m, "otemp"@)),
        compressor_demand: refresh(s.compressor_demand, int_field(m, "cmpfreq"@)),
        ..s
    }
}

pub open spec fn after_week_power(s: TelemetryView, m: Map<Seq<char>, Seq<char>>) -> TelemetryView {
    TelemetryView { daily_runtime: refresh(s.daily_runtime, int_field(m, "today_runtime"@)), ..s }
}

pub open spec fn after_monitor_data(s: TelemetryView, m: Map<Seq<char>, Seq<char>>) -> TelemetryView {
    TelemetryView {
        fan_speed: refresh(s.fan_speed, hex_int_field(m, "fan"@)),
        room_temperature_tenths: refresh(s.room_temperature_tenths, hex_int_field(m, "rawrtmp"@)),
        tr_temperature_tenths: refresh(s.tr_temperature_tenths, hex_int_field(m, "trtmp"@)),
        fan_angle: refresh(s.fan_angle, hex_int_field(m, "fangl"@)),
        heat_exchanger_temperature_tenths: refresh(
            s.heat_exchanger_temperature_tenths,
            hex_int_field(m, "hetmp"@),
        ),
        reset_count: refresh(s.reset_count, int_field(m, "ResetCount"@)),
        router_disconnect_count: refresh(s.router_disconnect_count, int_field(m, "RouterDisconCnt"@)),
        polling_error_count: refresh(s.polling_error_count, int_field(m, "PollingErrCnt"@)),
        ..s
    }
}

/// The integer gauges exported for a device.
#[derive(Debug, Clone, Copy, PartialEq, Eq, Structural)]
pub enum Gauge {
    PowerOn,
    Mode,
    SetHumidity,
    FanRate,
    FanDirection,
    CompressorDemand,
    DailyRuntime,
    MonitorFanSpeed,
    MonitorRoomTemperature,
    MonitorTrTemperature,
    MonitorFanAngle,
    MonitorHeatExchangerTemperature,
    MonitorResetCount,
    MonitorRouterDisconnectCount,
    MonitorPollingErrorCount,
}

/// The gauges exported as decimal numbers; their raw text is handed out as it came.
#[derive(Debug, Clone, Copy, PartialEq, Eq, Structural)]
pub enum DecimalGauge {
    SetTemperature,
    UnitTemperature,
    OutdoorTemperature,
}

/// A value in tenths brought to whole units, rounding toward zero.
pub open spec fn whole_units(tenths: i64) -> i64 {
    if tenths >= 0 {
        (tenths / 10) as i64
    } else {
        (-((-tenths) / 10)) as i64
    }
}

pub open spec fn scaled(v: Option<i64>) -> Option<i64> {
    match v {
        Some(t) => Some(whole_units(t)),
        None => None,
    }
}

/// What is exported for `g`: nothing until the device has a name.
pub open spec fn exported(s: TelemetryView, g: Gauge) -> Option<i64> {
    if s.device_name is None {
        None
    } else {
        match g {
            Gauge::PowerOn => s.power_on,
            Gauge::Mode => s.mode,
            Gauge::SetHumidity => s.set_humidity,
            Gauge::FanRate => s.fan_rate,
            Gauge::FanDirection => s.fan_direction,
            Gauge::CompressorDemand => s.compressor_demand,
            Gauge::DailyRuntime => s.daily_runtime,
            Gauge::MonitorFanSpeed => s.fan_speed,
            Gauge::MonitorRoomTemperature => scaled(s.room_temperature_tenths),
            Gauge::MonitorTrTemperature => scaled(s.tr_temperature_tenths),
            Gauge::MonitorFanAngle => s.fan_angle,
            Gauge::MonitorHeatExchangerTemperature => scaled(s.heat_exchanger_temperature_tenths),
            Gauge::MonitorResetCount => s.reset_count,
            Gauge::MonitorRouterDisconnectCount => s.router_disconnect_count,
            Gauge::MonitorPollingErrorCount => s.polling_error_count,
        }
    }
}

/// The raw text exported for `g`: nothing until the device has a name.
pub open spec fn exported_decimal(s: TelemetryView, g: DecimalGauge) -> Option<Seq<char>> {
    if s.device_name is None {
        None
    } else {
        match g {
            DecimalGauge::SetTemperature => s.set_temperature,
            DecimalGauge::UnitTemperature => s.unit_temperature,
            DecimalGauge::OutdoorTemperature => s.outdoor_temperature,
        }
    }
}

/// A value in tenths brought to whole units, rounding toward zero.
pub fn tenths_to_units(tenths: i64) -> (r: i64)
    ensures
        r == whole_units(tenths),
{
    if tenths >= 0 {
        tenths / 10
    } else if tenths == i64::MIN {
        -922337203685477580
    } else {
        -((-tenths) / 10)
    }
}

fn scale(v: Option<i64>) -> (r: Option<i64>)
    ensures
        r == scaled(v),
{
    match v {
        Some(t) => Some(tenths_to_units(t)),
        None => None,
    }
}

fn read_text(info: &Info, key: &str) -> (r: Option<String>)
    ensures
        text_view(r) == text_field(info@, key@),
{
    match info.get(key) {
        Some(v) => Some(v.clone()),
        None => None,
    }
}

fn read_int(info: &Info, key: &str) -> (r: Option<i64>)
    ensures
        r == int_field(info@, key@),
{
    match info.get(key) {
        Some(v) => parse_i64(v.as_str()),
        None => None,
    }
}

fn read_hex_int(info: &Info, key: &str) -> (r: Option<i64>)
    ensures
        r == hex_int_field(info@, key@),
{
    match info.get(key) {
        Some(v) => match decode(v.as_str()) {
            Ok(d) => parse_i64(d.as_str()),
            Err(_) => None,
        },
        None => None,
    }
}

/// The fan rate that a raw `f_rate` value stands for.
pub fn fan_rate_value(raw: &str) -> (r: Option<i64>)
    ensures
        r == fan_rate_of(raw@),
{
    let chars = crate::decode::chars_of(raw);
    if chars.len() == 1 && chars[0] == 'A' {
        assert(raw@ == seq!['A']);
        Some(1)
    } else if chars.len() == 1 && chars[0] == 'B' {
        assert(raw@ == seq!['B']);
        Some(2)
    } else {
        parse_i64(raw)
    }
}

fn read_fan_rate(info: &Info) -> (r: Option<i64>)
    ensures
        r == fan_rate_field(info@),
{
    match info.get("f_rate") {
        Some(v) => fan_rate_value(v.as_str()),
        None => None,
    }
}

fn read_name(info: &Info) -> (r: Option<String>)
    ensures
        text_view(r) == name_field(info@),
{
    match info.get("name") {
        Some(v) => match percent_decode(v.as_str()) {
            Ok(d) => Some(d),
            Err(_) => None,
        },
        None => None,
    }
}

fn refresh_int(field: &mut Option<i64>, new: Option<i64>)
    ensures
        *final(field) == refresh(*old(field), new),
{
    if new.is_some() {
        *field = new;
    }
}

fn refresh_text(field: &mut Option<String>, new: Option<String>)
    ensures
        text_view(*final(field)) == refresh(text_view(*old(field)), text_view(new)),
{
    if new.is_some() {
        *field = new;
    }
}

impl TelemetrySnapshot {
    /// A snapshot with no field known.
    pub fn new() -> (r: TelemetrySnapshot)
        ensures
            r@ == empty_view(),
    {
        TelemetrySnapshot {
            device_name: None,
            power_on: None,
            set_temperature: None,
            set_humidity: None,
            mode: None,
            fan_rate: None,
            fan_direction: None,
            unit_temperature: None,
            outdoor_temperature: None,
            compressor_demand: None,
            daily_runtime: None,
            fan_speed: None,
            room_temperature_tenths: None,
            tr_temperature_tenths: None,
            fan_angle: None,
            heat_exchanger_temperature_tenths: None,
            reset_count: None,
            router_disconnect_count: None,
            polling_error_count: None,
        }
    }

    /// The value exported for `g`, or `None` while the device has no name or `g` is unknown.
    pub fn gauge_value(&self, g: Gauge) -> (r: Option<i64>)
        ensures
            r == exported(self@, g),
    {
        if self.device_name.is_none() {
            return None;
        }
        match g {
            Gauge::PowerOn => self.power_on,
            Gauge::Mode => self.mode,
            Gauge::SetHumidity => self.set_humidity,
            Gauge::FanRate => self.fan_rate,
            Gauge::FanDirection => self.fan_direction,
            Gauge::CompressorDemand => self.compressor_demand,
            Gauge::DailyRuntime => self.daily_runtime,
            Gauge::MonitorFanSpeed => self.fan_speed,
            Gauge::MonitorRoomTemperature => scale(self.room_temperature_tenths),
            Gauge::MonitorTrTemperature => scale(self.tr_temperature_tenths),
            Gauge::MonitorFanAngle => self.fan_angle,
            Gauge::MonitorHeatExchangerTemperature => scale(self.heat_exchanger_temperature_tenths),
            Gauge::MonitorResetCount => self.reset_count,
            Gauge::MonitorRouterDisconnectCount => self.router_disconnect_count,
            Gauge::MonitorPollingErrorCount => self.polling_error_count,
        }
    }

    /// The raw text exported for `g`, or `None` while the device has no name or `g` is unknown.
    pub fn decimal_text(&self, g: DecimalGauge) -> (r: Option<&String>)
        ensures
            r matches Some(t) ==> exported_decimal(self@, g) == Some(t@),
            r is None <==> exported_decimal(self@, g) is None,
    {
        if self.device_name.is_none() {
            return None;
        }
        match g {
            DecimalGauge::SetTemperature => self.set_temperature.as_ref(),
            DecimalGauge::UnitTemperature => self.unit_temperature.as_ref(),
            DecimalGauge::OutdoorTemperature => self.outdoor_temperature.as_ref(),
        }
    }

    /// Takes the fields of a `common/basic_info` response.
    pub fn apply_basic_info(&mut self, info: &Info)
        ensures
            final(self)@ == after_basic_info(old(self)@, info@),
    {
        refresh_text(&mut self.device_name, read_name(info));
        refresh_int(&mut self.power_on, read_int(info, "pow"));
    }

    /// Takes the fields of an `aircon/get_control_info` response.
    pub fn apply_control_info(&mut self, info: &Info)
        ensures
            final(self)@ == after_control_info(old(self)@, info@),
    {
        refresh_text(&mut self.set_temperature, read_text(info, "stemp"));
        refresh_int(&mut self.set_humidity, read_int(info, "shum"));
        refresh_int(&mut self.mode, read_int(info, "mode"));
        refresh_int(&mut self.fan_rate, read_fan_rate(info));
        refresh_int(&mut self.fan_direction, read_int(info, "f_dir"));
    }

    /// Takes the fields of an `aircon/get_sensor_info` response.
    pub fn apply_sensor_info(&mut self, info: &Info)
        ensures
            final(self)@ == after_sensor_info(old(self)@, info@),
    {
        refresh_text(&mut self.unit_temperature, read_text(info, "htemp"));
        refresh_text(&mut self.outdoor_temperature, read_text(info, "otemp"));
        refresh_int(&mut self.compressor_demand, read_int(info, "cmpfreq"));
    }

    /// Takes the fields of an `aircon/get_week_power` response.
    pub fn apply_week_power(&mut self, info: &Info)
        ensures
            final(self)@ == after_week_power(old(self)@, info@),
    {
        refresh_int(&mut self.daily_runtime, read_int(info, "today_runtime"));
    }

    /// Takes the fields of an `aircon/get_monitordata` response.
    pub fn apply_monitor_data(&mut self, info: &Info)
        ensures
            final(self)@ == after_monitor_data(old(self)@, info@),
    {
        refresh_int(&mut self.fan_speed, read_hex_int(info, "fan"));
        refresh_int(&mut self.room_temperature_tenths, read_hex_int(info, "rawrtmp"));
        refresh_int(&mut self.tr_temperature_tenths, read_hex_int(info, "trtmp"));
        refresh_int(&mut self.fan_angle, read_hex_int(info, "fangl"));
        refresh_int(&mut self.heat_exchanger_temperature_tenths, read_hex_int(info, "hetmp"));
        refresh_int(&mut self.reset_count, read_int(info, "ResetCount"));
        refresh_int(&mut self.router_disconnect_count, read_int(info, "RouterDisconCnt"));
        refresh_int(&mut self.polling_error_count, read_int(info, "PollingErrCnt"));
    }
}

} // verus!
