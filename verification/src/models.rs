//! Data model: points, their qualities, and the connection configuration.

use vstd::prelude::*;
use crate::clock::now_millis;

verus! {

/// Kind of a data point.
#[derive(Debug, Clone, Copy, PartialEq, Eq, Structural)]
pub enum DataPointType {
    BinaryInput,
    BinaryOutput,
    AnalogInput,
    AnalogOutput,
    Counter,
}

/// Quality attached to a point's current value.
#[derive(Debug, Clone, Copy, PartialEq, Eq, Structural)]
pub enum DataQuality {
    Online,
    Offline,
    CommLost,
    LocalForced,
    RemoteForced,
}

/// Bit pattern of the binary64 number zero.
pub const VALUE_ZERO: u64 = 0;

/// Bit pattern of the binary64 number one.
pub const VALUE_ONE: u64 = 0x3FF0_0000_0000_0000;

/// One configured data point.
///
/// `value` holds the IEEE 754 binary64 bit pattern of the point's reading and
/// `timestamp` the time of its last change in milliseconds since the Unix epoch.
#[derive(Debug)]
pub struct DataPoint {
    pub point_type: DataPointType,
    pub index: u16,
    pub name: String,
    pub value: u64,
    pub quality: DataQuality,
    pub timestamp: i64,
}

/// Mathematical model of a [`DataPoint`].
pub struct DataPointView {
    pub point_type: DataPointType,
    pub index: u16,
    pub name: Seq<char>,
    pub value: u64,
    pub quality: DataQuality,
    pub timestamp: i64,
}

impl View for DataPoint {
    type V = DataPointView;

    open spec fn view(&self) -> DataPointView {
        DataPointView {
            point_type: self.point_type,
            index: self.index,
            name: self.name@,
            value: self.value,
            quality: self.quality,
            timestamp: self.timestamp,
        }
    }
}

impl DeepView for DataPoint {
    type V = DataPointView;

    open spec fn deep_view(&self) -> DataPointView {
        self@
    }
}

impl Clone for DataPoint {
    fn clone(&self) -> (copy: Self)
        ensures
            copy@ == self@,
    {
        DataPoint {
            point_type: self.point_type,
            index: self.index,
            name: self.name.clone(),
            value: self.value,
            quality: self.quality,
            timestamp: self.timestamp,
        }
    }
}

impl DataPointView {
    /// The point that configuration or an explicit add creates at time `now`.
    pub open spec fn fresh(
        point_type: DataPointType,
        index: u16,
        name: Seq<char>,
        quality: DataQuality,
        now: i64,
    ) -> DataPointView {
        DataPointView { point_type, index, name, value: VALUE_ZERO, quality, timestamp: now }
    }

    /// This point after its value and quality were replaced at time `now`.
    pub open spec fn updated(self, value: u64, quality: DataQuality, now: i64) -> DataPointView {
        DataPointView { value, quality, timestamp: now, ..self }
    }

    /// This point after a reconnect cleared it: value zero, quality offline,
    /// timestamp untouched.
    pub open spec fn cleared(self) -> DataPointView {
        DataPointView { value: VALUE_ZERO, quality: DataQuality::Offline, ..self }
    }

    /// Whether this point is the one addressed by `(point_type, index)`.
    pub open spec fn has_key(self, point_type: DataPointType, index: u16) -> bool {
        self.point_type == point_type && self.index == index
    }
}

impl DataPoint {
    /// A fresh point as it stands at time `now`: value zero, quality online.
    pub fn new_at(point_type: DataPointType, index: u16, name: String, now: i64) -> (point: Self)
        ensures
            point@ == DataPointView::fresh(point_type, index, name@, DataQuality::Online, now),
    {
        DataPoint {
            point_type,
            index,
            name,
            value: VALUE_ZERO,
            quality: DataQuality::Online,
            timestamp: now,
        }
    }

    /// A fresh point stamped with the current time.
    pub fn new(point_type: DataPointType, index: u16, name: String) -> (point: Self)
        ensures
            point@ == DataPointView::fresh(
                point_type,
                index,
                name@,
                DataQuality::Online,
                point.timestamp,
            ),
    {
        let now = now_millis();
        Self::new_at(point_type, index, name, now)
    }

    /// Replaces value and quality and stamps the point with `now`.
    pub fn update_value_at(&mut self, value: u64, quality: DataQuality, now: i64)
        ensures
            final(self)@ == old(self)@.updated(value, quality, now),
    {
        self.value = value;
        self.quality = quality;
        self.timestamp = now;
    }

    /// Replaces value and quality and stamps the point with the current time.
    pub fn update_value(&mut self, value: u64, quality: DataQuality)
        ensures
            final(self)@ == old(self)@.updated(value, quality, final(self).timestamp),
    {
        let now = now_millis();
        self.update_value_at(value, quality, now);
    }
}

/// Role a session plays on the link.
#[derive(Debug, Clone, Copy, PartialEq, Eq, Structural)]
pub enum DeviceRole {
    Master,
    Outstation,
}

/// Transport requested for a connection.
#[derive(Debug, Clone, Copy, PartialEq, Eq, Structural)]
pub enum ConnectionType {
    TcpClient,
    TcpServer,
    Udp,
    Tls,
    Serial,
}

/// One point of a device configuration. `scale` holds a binary64 bit pattern.
#[derive(Debug)]
pub struct PointConfig {
    pub index: u16,
    pub name: String,
    pub description: Option<String>,
    pub unit: Option<String>,
    pub scale: Option<u64>,
}

/// Point lists of a device, one per point kind; an absent list counts as empty.
#[derive(Debug)]
pub struct DeviceConfiguration {
    pub name: Option<String>,
    pub binary_inputs: Option<Vec<PointConfig>>,
    pub binary_outputs: Option<Vec<PointConfig>>,
    pub analog_inputs: Option<Vec<PointConfig>>,
    pub analog_outputs: Option<Vec<PointConfig>>,
    pub counters: Option<Vec<PointConfig>>,
}

impl Default for DeviceConfiguration {
    fn default() -> (config: Self)
        ensures
            config.name is None,
            config.binary_inputs is None,
            config.binary_outputs is None,
            config.analog_inputs is None,
            config.analog_outputs is None,
            config.counters is None,
    {
        DeviceConfiguration {
            name: None,
            binary_inputs: None,
            binary_outputs: None,
            analog_inputs: None,
            analog_outputs: None,
            counters: None,
        }
    }
}

/// Connection parameters of one session.
///
/// `stop_bits` holds the IEEE 754 binary32 bit pattern of the requested number
/// of stop bits.
#[derive(Debug)]
pub struct Configuration {
    pub role: DeviceRole,
    pub connection_type: ConnectionType,
    pub ip_address: String,
    pub port: u16,
    pub local_address: u16,
    pub remote_address: u16,
    pub device_config: Option<DeviceConfiguration>,
    pub serial_port: Option<String>,
    pub baud_rate: Option<u32>,
    pub data_bits: Option<u8>,
    pub parity: Option<String>,
    pub stop_bits: Option<u32>,
}

impl Default for Configuration {
    fn default() -> (config: Self)
        ensures
            config.role == DeviceRole::Outstation,
            config.connection_type == ConnectionType::TcpClient,
            config.ip_address@ == "127.0.0.1"@,
            config.port == 20000,
            config.local_address == 10,
            config.remote_address == 1,
            config.device_config is None,
            config.serial_port is None,
            config.baud_rate == Some(9600u32),
            config.data_bits is None,
            config.parity is None,
            config.stop_bits is None,
    {
        Configuration {
            role: DeviceRole::Outstation,
            connection_type: ConnectionType::TcpClient,
            ip_address: "127.0.0.1".to_owned(),
            port: 20000,
            local_address: 10,
            remote_address: 1,
            device_config: None,
            serial_port: None,
            baud_rate: Some(9600),
            data_bits: None,
            parity: None,
            stop_bits: None,
        }
    }
}

} // verus!
