//! Serial configuration as the host application states it, and its
//! validation into driver settings before any device is opened.

use vstd::prelude::*;
use vstd::string::*;
use serialport::{DataBits, Parity, StopBits};
use crate::error::SerialError;
use crate::text::{lower_of, lowercase, same_text};

verus! {

/// `serialport::DataBits`: the unit variants `Five`, `Six`, `Seven`, `Eight`.
#[verifier::external_type_specification]
pub struct ExDataBits(serialport::DataBits);

/// `serialport::Parity`: the unit variants `None`, `Odd`, `Even`.
#[verifier::external_type_specification]
pub struct ExParity(serialport::Parity);

/// `serialport::StopBits`: the unit variants `One`, `Two`.
#[verifier::external_type_specification]
pub struct ExStopBits(serialport::StopBits);

/// Serial configuration as requested: the three character settings are
/// names, matched without regard to case.
#[derive(Debug)]
pub struct SerialConfig {
    pub baud_rate: u32,
    pub data_bits: String,
    pub parity: String,
    pub stop_bits: String,
    pub read_timeout_ms: u64,
}

/// Validated settings for opening a port with no flow control.
#[derive(Debug)]
pub struct PortSettings {
    pub baud_rate: u32,
    pub data_bits: DataBits,
    pub parity: Parity,
    pub stop_bits: StopBits,
    pub read_timeout_ms: u64,
}

/// The data-bit count a lower-case name stands for.
pub open spec fn data_bits_named(name: Seq<char>) -> Option<DataBits> {
    if name == "5"@ || name == "five"@ {
        Some(DataBits::Five)
    } else if name == "6"@ || name == "six"@ {
        Some(DataBits::Six)
    } else if name == "7"@ || name == "seven"@ {
        Some(DataBits::Seven)
    } else if name == "8"@ || name == "eight"@ {
        Some(DataBits::Eight)
    } else {
        None
    }
}

/// The parity a lower-case name stands for.
pub open spec fn parity_named(name: Seq<char>) -> Option<Parity> {
    if name == "none"@ {
        Some(Parity::None)
    } else if name == "odd"@ {
        Some(Parity::Odd)
    } else if name == "even"@ {
        Some(Parity::Even)
    } else {
        None
    }
}

/// The stop-bit count a lower-case name stands for.
pub open spec fn stop_bits_named(name: Seq<char>) -> Option<StopBits> {
    if name == "1"@ || name == "one"@ {
        Some(StopBits::One)
    } else if name == "2"@ || name == "two"@ {
        Some(StopBits::Two)
    } else {
        None
    }
}

/// The diagnostic for a rejected value of a setting.
pub open spec fn unsupported_text(setting: Seq<char>, value: Seq<char>) -> Seq<char> {
    "unsupported "@ + setting + ": "@ + value
}

/// The diagnostic for a rejected value of a setting.
fn unsupported_message(setting: &str, value: &str) -> (r: String)
    ensures
        r@ == unsupported_text(setting@, value@),
{
    let mut message = String::from_str("unsupported ");
    message.append(setting);
    message.append(": ");
    message.append(value);
    message
}

/// `r` is the `InvalidConfig` error for `value` of `setting`.
pub open spec fn rejected<T>(r: Result<T, SerialError>, setting: Seq<char>, value: Seq<char>) -> bool {
    r matches Err(SerialError::InvalidConfig { message }) && message@ == unsupported_text(
        setting,
        value,
    )
}

/// The outcome of parsing `value` as a setting whose names are read by
/// `named`: the setting, or `InvalidConfig` naming it and the value.
pub open spec fn parsed<T>(
    named: Option<T>,
    setting: Seq<char>,
    value: Seq<char>,
    r: Result<T, SerialError>,
) -> bool {
    match named {
        Some(v) => r == Ok::<T, SerialError>(v),
        None => rejected(r, setting, value),
    }
}

/// The data-bit count named by the lower-case `name`.
pub fn data_bits_from_name(name: &str) -> (r: Option<DataBits>)
    ensures
        r == data_bits_named(name@),
{
    if same_text(name, "5") || same_text(name, "five") {
        Some(DataBits::Five)
    } else if same_text(name, "6") || same_text(name, "six") {
        Some(DataBits::Six)
    } else if same_text(name, "7") || same_text(name, "seven") {
        Some(DataBits::Seven)
    } else if same_text(name, "8") || same_text(name, "eight") {
        Some(DataBits::Eight)
    } else {
        None
    }
}

/// The parity named by the lower-case `name`.
pub fn parity_from_name(name: &str) -> (r: Option<Parity>)
    ensures
        r == parity_named(name@),
{
    if same_text(name, "none") {
        Some(Parity::None)
    } else if same_text(name, "odd") {
        Some(Parity::Odd)
    } else if same_text(name, "even") {
        Some(Parity::Even)
    } else {
        None
    }
}

/// The stop-bit count named by the lower-case `name`.
pub fn stop_bits_from_name(name: &str) -> (r: Option<StopBits>)
    ensures
        r == stop_bits_named(name@),
{
    if same_text(name, "1") || same_text(name, "one") {
        Some(StopBits::One)
    } else if same_text(name, "2") || same_text(name, "two") {
        Some(StopBits::Two)
    } else {
        None
    }
}

/// Parses a data-bit setting ("5".."8" or "five".."eight", any case).
pub fn parse_data_bits(value: &str) -> (r: Result<DataBits, SerialError>)
    ensures
        parsed(data_bits_named(lower_of(value@)), "data_bits"@, value@, r),
{
    let lower = lowercase(value);
    match data_bits_from_name(lower.as_str()) {
        Some(bits) => Ok(bits),
        None => Err(SerialError::InvalidConfig { message: unsupported_message("data_bits", value) }),
    }
}

/// Parses a parity setting ("none", "odd" or "even", any case).
pub fn parse_parity(value: &str) -> (r: Result<Parity, SerialError>)
    ensures
        parsed(parity_named(lower_of(value@)), "parity"@, value@, r),
{
    let lower = lowercase(value);
    match parity_from_name(lower.as_str()) {
        Some(parity) => Ok(parity),
        None => Err(SerialError::InvalidConfig { message: unsupported_message("parity", value) }),
    }
}

/// Parses a stop-bit setting ("1"/"one" or "2"/"two", any case).
pub fn parse_stop_bits(value: &str) -> (r: Result<StopBits, SerialError>)
    ensures
        parsed(stop_bits_named(lower_of(value@)), "stop_bits"@, value@, r),
{
    let lower = lowercase(value);
    match stop_bits_from_name(lower.as_str()) {
        Some(bits) => Ok(bits),
        None => Err(SerialError::InvalidConfig { message: unsupported_message("stop_bits", value) }),
    }
}

/// Validates a configuration: the settings of the port to open, or the
/// error of the first rejected setting, checked in the order data bits,
/// parity, stop bits.
pub fn validate_config(config: &SerialConfig) -> (r: Result<PortSettings, SerialError>)
    ensures
        match (
            data_bits_named(lower_of(config.data_bits@)),
            parity_named(lower_of(config.parity@)),
            stop_bits_named(lower_of(config.stop_bits@)),
        ) {
            (Some(d), Some(p), Some(s)) => r matches Ok(settings) && settings == (PortSettings {
                baud_rate: config.baud_rate,
                data_bits: d,
                parity: p,
                stop_bits: s,
                read_timeout_ms: config.read_timeout_ms,
            }),
            (None, _, _) => rejected(r, "data_bits"@, config.data_bits@),
            (Some(_), None, _) => rejected(r, "parity"@, config.parity@),
            (Some(_), Some(_), None) => rejected(r, "stop_bits"@, config.stop_bits@),
        },
{
    let data_bits = parse_data_bits(config.data_bits.as_str())?;
    let parity = parse_parity(config.parity.as_str())?;
    let stop_bits = parse_stop_bits(config.stop_bits.as_str())?;
    Ok(PortSettings {
        baud_rate: config.baud_rate,
        data_bits,
        parity,
        stop_bits,
        read_timeout_ms: config.read_timeout_ms,
    })
}

} // verus!
