//! What the device library tells about an open handle.

use crate::text::{
    decimal, decimal_text, is_plain, lemma_decimal_plain, lemma_plain_joined,
};
use vstd::prelude::*;
use vstd::std_specs::convert::FromSpecImpl;

verus! {

/// The kind of device behind a handle.
#[derive(Clone, Copy, Debug, PartialEq, Eq, Structural)]
pub enum DeviceType {
    T4,
    T7,
    T8,
    TSERIES,
    DIGIT,
    ANY,
    /// An emulated device; carries the code that the library gave, -999 to -1.
    EMULATED(i32),
    /// A code that names no known device.
    UNKNOWN(i32),
}

/// How a device is connected.
#[derive(Clone, Copy, Debug, PartialEq, Eq, Structural)]
pub enum ConnectionType {
    USB,
    ETHERNET,
    WIFI,
    ANY,
    /// A code that names no known connection.
    UNKNOWN(i32),
}

/// The device type that a numeric code stands for.
pub open spec fn device_type_of(value: i32) -> DeviceType {
    if value == 4 {
        DeviceType::T4
    } else if value == 7 {
        DeviceType::T7
    } else if value == 8 {
        DeviceType::T8
    } else if value == 200 {
        DeviceType::DIGIT
    } else if -999 <= value <= -1 {
        DeviceType::EMULATED(value)
    } else {
        DeviceType::UNKNOWN(value)
    }
}

/// The connection type that a numeric code stands for.
pub open spec fn connection_type_of(value: i32) -> ConnectionType {
    if value == 1 {
        ConnectionType::USB
    } else if value == 3 {
        ConnectionType::ETHERNET
    } else if value == 4 {
        ConnectionType::WIFI
    } else {
        ConnectionType::UNKNOWN(value)
    }
}

impl From<i32> for DeviceType {
    fn from(value: i32) -> (device_type: DeviceType) {
        if value == 4 {
            DeviceType::T4
        } else if value == 7 {
            DeviceType::T7
        } else if value == 8 {
            DeviceType::T8
        } else if value == 200 {
            DeviceType::DIGIT
        } else if -999 <= value && value <= -1 {
            DeviceType::EMULATED(value)
        } else {
            DeviceType::UNKNOWN(value)
        }
    }
}

impl FromSpecImpl<i32> for DeviceType {
    open spec fn obeys_from_spec() -> bool {
        true
    }

    open spec fn from_spec(value: i32) -> DeviceType {
        device_type_of(value)
    }
}

impl From<i32> for ConnectionType {
    fn from(value: i32) -> (connection_type: ConnectionType) {
        if value == 1 {
            ConnectionType::USB
        } else if value == 3 {
            ConnectionType::ETHERNET
        } else if value == 4 {
            ConnectionType::WIFI
        } else {
            ConnectionType::UNKNOWN(value)
        }
    }
}

impl FromSpecImpl<i32> for ConnectionType {
    open spec fn obeys_from_spec() -> bool {
        true
    }

    open spec fn from_spec(value: i32) -> ConnectionType {
        connection_type_of(value)
    }
}

impl DeviceType {
    /// The name under which the device library knows this device type.
    pub open spec fn name(self) -> Seq<char> {
        match self {
            DeviceType::T4 => "T4"@,
            DeviceType::T7 => "T7"@,
            DeviceType::T8 => "T8"@,
            DeviceType::TSERIES => "TSERIES"@,
            DeviceType::DIGIT => "DIGIT"@,
            DeviceType::ANY => "ANY"@,
            DeviceType::EMULATED(value) => "EMULATED::["@ + decimal(value as int) + "]"@,
            DeviceType::UNKNOWN(value) => "ANY::["@ + decimal(value as int) + "]"@,
        }
    }

    /// The name under which the device library knows this device type.
    pub fn to_string(&self) -> (text: String)
        ensures
            text@ == self.name(),
    {
        match self {
            DeviceType::T4 => String::from_str("T4"),
            DeviceType::T7 => String::from_str("T7"),
            DeviceType::T8 => String::from_str("T8"),
            DeviceType::TSERIES => String::from_str("TSERIES"),
            DeviceType::DIGIT => String::from_str("DIGIT"),
            DeviceType::ANY => String::from_str("ANY"),
            DeviceType::EMULATED(value) => String::from_str("EMULATED::[").concat(
                decimal_text(*value as i64).as_str(),
            ).concat("]"),
            DeviceType::UNKNOWN(value) => String::from_str("ANY::[").concat(
                decimal_text(*value as i64).as_str(),
            ).concat("]"),
        }
    }
}

impl ConnectionType {
    /// The name under which the device library knows this connection type. A
    /// connection of unknown kind goes by the name of any.
    pub open spec fn name(self) -> Seq<char> {
        match self {
            ConnectionType::USB => "USB"@,
            ConnectionType::WIFI => "WIFI"@,
            ConnectionType::ETHERNET => "ETHERNET"@,
            ConnectionType::ANY => "ANY"@,
            ConnectionType::UNKNOWN(_) => "ANY"@,
        }
    }

    /// The name under which the device library knows this connection type.
    pub fn to_string(&self) -> (text: String)
        ensures
            text@ == self.name(),
    {
        match self {
            ConnectionType::USB => String::from_str("USB"),
            ConnectionType::WIFI => String::from_str("WIFI"),
            ConnectionType::ETHERNET => String::from_str("ETHERNET"),
            ConnectionType::ANY => String::from_str("ANY"),
            ConnectionType::UNKNOWN(_) => String::from_str("ANY"),
        }
    }
}

/// The name of a device type is plain text.
pub proof fn lemma_device_type_name_plain(device_type: DeviceType)
    ensures
        is_plain(device_type.name()),
{
    reveal_strlit("T4");
    reveal_strlit("T7");
    reveal_strlit("T8");
    reveal_strlit("TSERIES");
    reveal_strlit("DIGIT");
    reveal_strlit("ANY");
    reveal_strlit("EMULATED::[");
    reveal_strlit("ANY::[");
    reveal_strlit("]");
    match device_type {
        DeviceType::EMULATED(value) => {
            lemma_decimal_plain(value as int);
            lemma_plain_joined("EMULATED::["@, decimal(value as int));
            lemma_plain_joined("EMULATED::["@ + decimal(value as int), "]"@);
        },
        DeviceType::UNKNOWN(value) => {
            lemma_decimal_plain(value as int);
            lemma_plain_joined("ANY::["@, decimal(value as int));
            lemma_plain_joined("ANY::["@ + decimal(value as int), "]"@);
        },
        _ => {},
    }
}

/// The name of a connection type is plain text.
pub proof fn lemma_connection_type_name_plain(connection_type: ConnectionType)
    ensures
        is_plain(connection_type.name()),
{
    reveal_strlit("USB");
    reveal_strlit("WIFI");
    reveal_strlit("ETHERNET");
    reveal_strlit("ANY");
}

/// What the device library reports of an open handle.
#[derive(Clone, Copy, Debug, PartialEq, Eq, Structural)]
pub struct DeviceHandleInfo {
    pub device_type: DeviceType,
    pub connection_type: ConnectionType,
    pub ip_address: i32,
    pub max_bytes_per_megabyte: i32,
    pub serial_number: i32,
    pub port: i32,
}

impl DeviceHandleInfo {
    /// Two lines: the device, its connection and packet size; then its
    /// address, port and serial number.
    pub open spec fn summary(self) -> Seq<char> {
        self.device_type.name() + " on "@ + self.connection_type.name() + " @ "@ + decimal(
            self.max_bytes_per_megabyte as int,
        ) + "B/MB\n"@ + decimal(self.ip_address as int) + ":"@ + decimal(self.port as int)
            + " => "@ + decimal(self.serial_number as int)
    }

    /// Two lines: the device, its connection and packet size; then its
    /// address, port and serial number.
    pub fn to_string(&self) -> (text: String)
        ensures
            text@ == self.summary(),
    {
        self.device_type.to_string().concat(" on ").concat(
            self.connection_type.to_string().as_str(),
        ).concat(" @ ").concat(decimal_text(self.max_bytes_per_megabyte as i64).as_str()).concat(
            "B/MB\n",
        ).concat(decimal_text(self.ip_address as i64).as_str()).concat(":").concat(
            decimal_text(self.port as i64).as_str(),
        ).concat(" => ").concat(decimal_text(self.serial_number as i64).as_str())
    }
}

} // verus!
