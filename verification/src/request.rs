//! Reading the words of an operator's request: roles, transports, point
//! kinds, session identifiers and addresses as they arrive as text.

use vstd::prelude::*;
use crate::error::{kind_label, kind_name};
use crate::models::{ConnectionType, DataPointType, DataQuality, DeviceRole};
use crate::text::{char_is_whitespace, chars_equal, chars_of, is_whitespace, str_equal};

verus! {

/// Identifier of the session of a request that names none.
pub const DEFAULT_SESSION: &'static str = "default";

/// The role that a mode word asks for: master for `master`, outstation for
/// anything else.
pub open spec fn role_of(mode: Seq<char>) -> DeviceRole {
    if mode == "master"@ {
        DeviceRole::Master
    } else {
        DeviceRole::Outstation
    }
}

/// Computes [`role_of`].
pub fn parse_role(mode: &str) -> (role: DeviceRole)
    ensures
        role == role_of(mode@),
{
    if str_equal(mode, "master") {
        DeviceRole::Master
    } else {
        DeviceRole::Outstation
    }
}

/// The transport that a word asks for; a TCP client for no word and for any
/// word that names no transport.
pub open spec fn connection_type_of(word: Option<Seq<char>>) -> ConnectionType {
    match word {
        Some(w) => if w == "serial"@ {
            ConnectionType::Serial
        } else if w == "tcp_server"@ {
            ConnectionType::TcpServer
        } else if w == "udp"@ {
            ConnectionType::Udp
        } else if w == "tls"@ {
            ConnectionType::Tls
        } else {
            ConnectionType::TcpClient
        },
        None => ConnectionType::TcpClient,
    }
}

/// Computes [`connection_type_of`].
pub fn parse_connection_type(word: Option<&str>) -> (connection_type: ConnectionType)
    ensures
        connection_type == connection_type_of(
            match word {
                Some(w) => Some(w@),
                None => None,
            },
        ),
{
    match word {
        Some(w) => {
            let chars = chars_of(w);
            if chars_equal(&chars, &chars_of("serial")) {
                ConnectionType::Serial
            } else if chars_equal(&chars, &chars_of("tcp_server")) {
                ConnectionType::TcpServer
            } else if chars_equal(&chars, &chars_of("udp")) {
                ConnectionType::Udp
            } else if chars_equal(&chars, &chars_of("tls")) {
                ConnectionType::Tls
            } else {
                ConnectionType::TcpClient
            }
        },
        None => ConnectionType::TcpClient,
    }
}

/// The point kind that a word names, if it names one.
pub open spec fn point_type_of(word: Seq<char>) -> Option<DataPointType> {
    if word == kind_name(DataPointType::BinaryInput) {
        Some(DataPointType::BinaryInput)
    } else if word == kind_name(DataPointType::BinaryOutput) {
        Some(DataPointType::BinaryOutput)
    } else if word == kind_name(DataPointType::AnalogInput) {
        Some(DataPointType::AnalogInput)
    } else if word == kind_name(DataPointType::AnalogOutput) {
        Some(DataPointType::AnalogOutput)
    } else if word == kind_name(DataPointType::Counter) {
        Some(DataPointType::Counter)
    } else {
        None
    }
}

/// Computes [`point_type_of`].
pub fn parse_point_type(word: &str) -> (point_type: Option<DataPointType>)
    ensures
        point_type == point_type_of(word@),
{
    let chars = chars_of(word);
    if chars_equal(&chars, &chars_of(kind_label(DataPointType::BinaryInput))) {
        Some(DataPointType::BinaryInput)
    } else if chars_equal(&chars, &chars_of(kind_label(DataPointType::BinaryOutput))) {
        Some(DataPointType::BinaryOutput)
    } else if chars_equal(&chars, &chars_of(kind_label(DataPointType::AnalogInput))) {
        Some(DataPointType::AnalogInput)
    } else if chars_equal(&chars, &chars_of(kind_label(DataPointType::AnalogOutput))) {
        Some(DataPointType::AnalogOutput)
    } else if chars_equal(&chars, &chars_of(kind_label(DataPointType::Counter))) {
        Some(DataPointType::Counter)
    } else {
        None
    }
}

/// The point kind of a control request: an output kind if the word names
/// one, nothing for any other word.
pub open spec fn control_point_type_of(word: Seq<char>) -> Option<DataPointType> {
    if word == kind_name(DataPointType::BinaryOutput) {
        Some(DataPointType::BinaryOutput)
    } else if word == kind_name(DataPointType::AnalogOutput) {
        Some(DataPointType::AnalogOutput)
    } else {
        None
    }
}

/// Computes [`control_point_type_of`].
pub fn parse_control_point_type(word: &str) -> (point_type: Option<DataPointType>)
    ensures
        point_type == control_point_type_of(word@),
{
    let chars = chars_of(word);
    if chars_equal(&chars, &chars_of(kind_label(DataPointType::BinaryOutput))) {
        Some(DataPointType::BinaryOutput)
    } else if chars_equal(&chars, &chars_of(kind_label(DataPointType::AnalogOutput))) {
        Some(DataPointType::AnalogOutput)
    } else {
        None
    }
}

/// Name of a quality, as it is shown to the operator.
pub open spec fn quality_name(quality: DataQuality) -> Seq<char> {
    match quality {
        DataQuality::Online => "Online"@,
        DataQuality::Offline => "Offline"@,
        DataQuality::CommLost => "CommLost"@,
        DataQuality::LocalForced => "LocalForced"@,
        DataQuality::RemoteForced => "RemoteForced"@,
    }
}

/// Computes [`quality_name`].
pub fn quality_label(quality: DataQuality) -> (name: &'static str)
    ensures
        name@ == quality_name(quality),
{
    match quality {
        DataQuality::Online => "Online",
        DataQuality::Offline => "Offline",
        DataQuality::CommLost => "CommLost",
        DataQuality::LocalForced => "LocalForced",
        DataQuality::RemoteForced => "RemoteForced",
    }
}

/// Whether a text is empty but for whitespace.
pub open spec fn is_blank(s: Seq<char>) -> bool {
    forall|i: int| 0 <= i < s.len() ==> is_whitespace(#[trigger] s[i])
}

/// Decides [`is_blank`].
pub fn text_is_blank(s: &str) -> (yes: bool)
    ensures
        yes == is_blank(s@),
{
    let chars = chars_of(s);
    let n = chars.len();
    let mut i: usize = 0;
    while i < n
        invariant
            i <= n,
            n == chars.len(),
            chars@ == s@,
            forall|k: int| 0 <= k < i ==> is_whitespace(#[trigger] chars@[k]),
        decreases n - i,
    {
        if !char_is_whitespace(chars[i]) {
            assert(!is_whitespace(s@[i as int]));
            return false;
        }
        i += 1;
    }
    true
}

/// The address that a request means: its own where it gives one, else every
/// interface for an outstation and the local host for a master.
pub open spec fn address_of(ip: Seq<char>, role: DeviceRole) -> Seq<char> {
    if is_blank(ip) {
        match role {
            DeviceRole::Outstation => "0.0.0.0"@,
            DeviceRole::Master => "127.0.0.1"@,
        }
    } else {
        ip
    }
}

/// Computes [`address_of`].
pub fn normalize_address(ip: &str, role: DeviceRole) -> (address: String)
    ensures
        address@ == address_of(ip@, role),
{
    if text_is_blank(ip) {
        match role {
            DeviceRole::Outstation => "0.0.0.0".to_owned(),
            DeviceRole::Master => "127.0.0.1".to_owned(),
        }
    } else {
        ip.to_owned()
    }
}

/// The identifier of the session that a request belongs to: the one it
/// names, or the default.
pub fn session_id_or_default(named: Option<&str>) -> (id: String)
    ensures
        id@ == (match named {
            Some(name) => name@,
            None => DEFAULT_SESSION@,
        }),
{
    match named {
        Some(name) => name.to_owned(),
        None => DEFAULT_SESSION.to_owned(),
    }
}

/// Sizes of the event buffers of an outstation, one for each kind of event.
#[derive(Debug, Clone, Copy, PartialEq, Eq, Structural)]
pub struct EventBufferSizes {
    pub binary: u16,
    pub double_bit_binary: u16,
    pub binary_output_status: u16,
    pub counter: u16,
    pub frozen_counter: u16,
    pub analog: u16,
    pub analog_output_status: u16,
    pub octet_string: u16,
}

/// The event buffers with which every outstation starts.
pub fn event_buffer_config() -> (sizes: EventBufferSizes)
    ensures
        sizes == (EventBufferSizes {
            binary: 100,
            double_bit_binary: 10,
            binary_output_status: 100,
            counter: 50,
            frozen_counter: 10,
            analog: 100,
            analog_output_status: 100,
            octet_string: 10,
        }),
{
    EventBufferSizes {
        binary: 100,
        double_bit_binary: 10,
        binary_output_status: 100,
        counter: 50,
        frozen_counter: 10,
        analog: 100,
        analog_output_status: 100,
        octet_string: 10,
    }
}

} // verus!
