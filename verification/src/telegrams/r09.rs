//! R09 telegrams, the position reports of vehicles, and the forms in which
//! they are received, stored and passed on.

use super::{AuthenticationMeta, GetTelegramType, TelegramMetaInformation, TelegramType};
use crate::identifier::{hyphenated, uuid_to_string};
use crate::text::{decimal, decimal_text, pretty_option, pretty_option_text, str_eq};
use crate::time::Timestamp;
use std::hash::{Hash, Hasher};
use vstd::prelude::*;
use vstd::std_specs::convert::TryFromSpecImpl;
use vstd::string::StringExecFns;

verus! {

/// The standard that an R09 telegram follows.
#[allow(missing_docs)]
#[derive(Debug, Clone, Copy, PartialEq, Eq, Structural, Hash)]
pub enum R09Type {
    R14,
    R16,
    R18,
}

/// An R09 telegram as it was decoded: what all the standards have in common.
#[derive(Debug, Clone, Hash)]
pub struct R09Telegram {
    /// The standard that the telegram follows.
    pub r09_type: R09Type,
    /// Delay of the vehicle, from -7 to +7 minutes.
    pub delay: Option<i32>,
    /// Identifies a place: junction, direction and request status in one.
    pub reporting_point: u32,
    /// Identifies a traffic light.
    pub junction: u32,
    /// The direction in which the vehicle wants to go.
    pub direction: u8,
    /// How far the vehicle is in registering at the junction.
    pub request_status: u8,
    /// Whether the vehicle asks for priority.
    pub priority: Option<u8>,
    /// Direction request.
    pub direction_request: Option<u8>,
    /// Line of the vehicle.
    pub line: Option<u32>,
    /// Run number of the vehicle.
    pub run_number: Option<u32>,
    /// Identifies the last stop of the run.
    pub destination_number: Option<u32>,
    /// Number of carriages.
    pub train_length: Option<i32>,
    /// Identifies the vehicle (from R09.16 on).
    pub vehicle_number: Option<u32>,
    /// Identifies the operator (R09.18 only).
    pub operator: Option<u8>,
}

/// An R09 telegram as it is stored, with the station that received it first
/// and the time at which it did.
#[derive(Debug, Clone)]
pub struct R09SaveTelegram {
    /// Primary key; `None` until the database has assigned one.
    pub id: Option<i64>,
    /// When the telegram was received (UTC).
    pub time: Timestamp,
    /// The station that received it (a UUID, as its 128-bit number).
    pub station: u128,
    /// The standard that the telegram follows.
    pub r09_type: R09Type,
    /// Delay of the vehicle, from -7 to +7 minutes.
    pub delay: Option<i32>,
    /// Identifies a place: junction, direction and request status in one.
    pub reporting_point: i32,
    /// Identifies a traffic light.
    pub junction: i32,
    /// The direction in which the vehicle wants to go.
    pub direction: i16,
    /// How far the vehicle is in registering at the junction.
    pub request_status: i16,
    /// Whether the vehicle asks for priority.
    pub priority: Option<i16>,
    /// Direction request.
    pub direction_request: Option<i16>,
    /// Line of the vehicle.
    pub line: Option<i32>,
    /// Run number of the vehicle.
    pub run_number: Option<i32>,
    /// Identifies the last stop of the run.
    pub destination_number: Option<i32>,
    /// Number of carriages.
    pub train_length: Option<i32>,
    /// Identifies the vehicle (from R09.16 on).
    pub vehicle_number: Option<i32>,
    /// Identifies the operator (R09.18 only).
    pub operator: Option<i16>,
    /// The region in which the telegram was received.
    pub region: i64,
}

/// An R09 telegram as a station submits it.
#[derive(Clone)]
pub struct R09ReceiveTelegram {
    /// Identifies the station.
    pub auth: AuthenticationMeta,
    /// The telegram.
    pub data: R09Telegram,
}

/// An R09 telegram as it is passed on between services.
#[derive(Debug, Clone)]
pub struct R09GrpcTelegram {
    /// Seconds since the Unix epoch at which the telegram was received.
    pub time: u64,
    /// The station that received it, as the text of its UUID.
    pub station: String,
    /// The region in which the telegram was received.
    pub region: i64,
    /// Number of the standard that the telegram follows.
    pub r09_type: i32,
    /// Delay of the vehicle, from -7 to +7 minutes.
    pub delay: Option<i32>,
    /// Identifies a place: junction, direction and request status in one.
    pub reporting_point: i32,
    /// Identifies a traffic light.
    pub junction: i32,
    /// The direction in which the vehicle wants to go.
    pub direction: i32,
    /// How far the vehicle is in registering at the junction.
    pub request_status: i32,
    /// Whether the vehicle asks for priority.
    pub priority: Option<i32>,
    /// Direction request.
    pub direction_request: Option<i32>,
    /// Line of the vehicle.
    pub line: Option<i32>,
    /// Run number of the vehicle.
    pub run_number: Option<i32>,
    /// Identifies the last stop of the run.
    pub destination_number: Option<i32>,
    /// Number of carriages.
    pub train_length: Option<i32>,
    /// Identifies the vehicle (from R09.16 on).
    pub vehicle_number: Option<i32>,
    /// Identifies the operator (R09.18 only).
    pub operator: Option<i32>,
}

/// What [`R09Type::try_from`] answers to a number that stands for no
/// standard.
pub const NO_SUCH_R09_TYPE: &'static str = "No such R09 type!";

/// The number that stands for a standard: 14, 16 or 18.
pub open spec fn r09_type_number(t: R09Type) -> i64 {
    match t {
        R09Type::R14 => 14,
        R09Type::R16 => 16,
        R09Type::R18 => 18,
    }
}

/// The standard that a number stands for, if it stands for one.
pub open spec fn r09_type_of(number: int) -> Option<R09Type> {
    if number == 14 {
        Some(R09Type::R14)
    } else if number == 16 {
        Some(R09Type::R16)
    } else if number == 18 {
        Some(R09Type::R18)
    } else {
        None
    }
}

/// The name of a standard: "R09.14", "R09.16" or "R09.18".
pub open spec fn r09_type_name(t: R09Type) -> Seq<char> {
    match t {
        R09Type::R14 => "R09.14"@,
        R09Type::R16 => "R09.16"@,
        R09Type::R18 => "R09.18"@,
    }
}

/// The standard that a name stands for, if it stands for one.
pub open spec fn r09_type_named(name: Seq<char>) -> Option<R09Type> {
    if name == "R09.14"@ {
        Some(R09Type::R14)
    } else if name == "R09.16"@ {
        Some(R09Type::R16)
    } else if name == "R09.18"@ {
        Some(R09Type::R18)
    } else {
        None
    }
}

/// The 32-bit pattern of `x` read as a signed number.
pub open spec fn reinterpret_i32(x: u32) -> i32 {
    if x <= 0x7fff_ffff {
        x as i32
    } else {
        (x - 0x1_0000_0000) as i32
    }
}

/// `reinterpret_i32`, where there is a number.
pub open spec fn reinterpret_i32_opt(x: Option<u32>) -> Option<i32> {
    match x {
        Some(v) => Some(reinterpret_i32(v)),
        None => None,
    }
}

/// The 64-bit pattern of `x` read as an unsigned number.
pub open spec fn reinterpret_u64(x: i64) -> u64 {
    if x >= 0 {
        x as u64
    } else {
        (x + 0x1_0000_0000_0000_0000) as u64
    }
}

/// A small unsigned number, where there is one, as a 16-bit number.
pub open spec fn widen_i16_opt(x: Option<u8>) -> Option<i16> {
    match x {
        Some(v) => Some(v as i16),
        None => None,
    }
}

/// A small unsigned number, where there is one, as a 32-bit number.
pub open spec fn widen_i32_opt(x: Option<u8>) -> Option<i32> {
    match x {
        Some(v) => Some(v as i32),
        None => None,
    }
}

fn to_i32(x: u32) -> (y: i32)
    ensures
        y == reinterpret_i32(x),
{
    let y = #[verifier::truncate] (x as i32);
    assert(x as i32 == (if x <= 0x7fff_ffffu32 {
        x as i32
    } else {
        (x - 0x1_0000_0000) as i32
    })) by (bit_vector);
    y
}

fn to_i32_opt(x: Option<u32>) -> (y: Option<i32>)
    ensures
        y == reinterpret_i32_opt(x),
{
    match x {
        Some(v) => Some(to_i32(v)),
        None => None,
    }
}

fn to_u64(x: i64) -> (y: u64)
    ensures
        y == reinterpret_u64(x),
{
    let y = #[verifier::truncate] (x as u64);
    assert(x as u64 == (if x >= 0i64 {
        x as u64
    } else {
        (x + 0x1_0000_0000_0000_0000) as u64
    })) by (bit_vector);
    y
}

fn to_i16_opt(x: Option<u8>) -> (y: Option<i16>)
    ensures
        y == widen_i16_opt(x),
{
    match x {
        Some(v) => Some(v as i16),
        None => None,
    }
}

fn to_i32_small_opt(x: Option<u8>) -> (y: Option<i32>)
    ensures
        y == widen_i32_opt(x),
{
    match x {
        Some(v) => Some(v as i32),
        None => None,
    }
}

impl R09Type {
    /// The number that stands for this standard; it is what the standard is
    /// serialized as.
    pub fn number(&self) -> (n: i16)
        ensures
            n == r09_type_number(*self),
    {
        match self {
            R09Type::R14 => 14,
            R09Type::R16 => 16,
            R09Type::R18 => 18,
        }
    }

    /// The name of this standard.
    pub fn to_string(&self) -> (name: String)
        ensures
            name@ == r09_type_name(*self),
    {
        match self {
            R09Type::R14 => "R09.14".to_owned(),
            R09Type::R16 => "R09.16".to_owned(),
            R09Type::R18 => "R09.18".to_owned(),
        }
    }

    /// The standard that is serialized as the text `name`.
    pub fn from_name(name: &str) -> (t: Option<R09Type>)
        ensures
            t == r09_type_named(name@),
    {
        if str_eq(name, "R09.14") {
            Some(R09Type::R14)
        } else if str_eq(name, "R09.16") {
            Some(R09Type::R16)
        } else if str_eq(name, "R09.18") {
            Some(R09Type::R18)
        } else {
            None
        }
    }

    /// The standard that is serialized as the unsigned number `number`.
    pub fn from_u64(number: u64) -> (t: Option<R09Type>)
        ensures
            t == r09_type_of(number as int),
    {
        match number {
            14 => Some(R09Type::R14),
            16 => Some(R09Type::R16),
            18 => Some(R09Type::R18),
            _ => None,
        }
    }
}

impl TryFrom<i64> for R09Type {
    type Error = String;

    fn try_from(value: i64) -> (r: Result<Self, Self::Error>)
        ensures
            match r09_type_of(value as int) {
                Some(t) => r == Ok::<R09Type, String>(t),
                None => r matches Err(e) && e@ == NO_SUCH_R09_TYPE@,
            },
    {
        match value {
            14 => Ok(R09Type::R14),
            16 => Ok(R09Type::R16),
            18 => Ok(R09Type::R18),
            _ => Err(NO_SUCH_R09_TYPE.to_owned()),
        }
    }
}

impl TryFromSpecImpl<i64> for R09Type {
    open spec fn obeys_try_from_spec() -> bool {
        false
    }

    open spec fn try_from_spec(value: i64) -> Result<Self, Self::Error> {
        arbitrary()
    }
}

/// A standard comes back from its number and from its name.
pub proof fn lemma_r09_type_round_trip(t: R09Type)
    ensures
        r09_type_of(r09_type_number(t) as int) == Some(t),
        r09_type_named(r09_type_name(t)) == Some(t),
{
    reveal_strlit("R09.14");
    reveal_strlit("R09.16");
    reveal_strlit("R09.18");
    assert("R09.14"@[5] == '4');
    assert("R09.16"@[5] == '6');
    assert("R09.18"@[5] == '8');
}

/// The name of the variant that stands for a standard.
pub open spec fn r09_variant_name(t: R09Type) -> Seq<char> {
    match t {
        R09Type::R14 => "R14"@,
        R09Type::R16 => "R16"@,
        R09Type::R18 => "R18"@,
    }
}

impl R09Telegram {
    /// The telegram in words: its standard, line, run and destination, and
    /// its request status.
    pub fn to_string(&self) -> (text: String)
        ensures
            text@ == "Type "@ + r09_variant_name(self.r09_type) + " Line "@ + pretty_option_text(
                self.line,
            ) + " Run "@ + pretty_option_text(self.run_number) + " Destination "@
                + pretty_option_text(self.destination_number) + " - "@ + decimal_text(
                self.request_status,
            ),
    {
        let text = "Type ".to_owned();
        let text = match self.r09_type {
            R09Type::R14 => text.concat("R14"),
            R09Type::R16 => text.concat("R16"),
            R09Type::R18 => text.concat("R18"),
        };
        let text = text.concat(" Line ");
        let text = text.concat(pretty_option(self.line).as_str());
        let text = text.concat(" Run ");
        let text = text.concat(pretty_option(self.run_number).as_str());
        let text = text.concat(" Destination ");
        let text = text.concat(pretty_option(self.destination_number).as_str());
        let text = text.concat(" - ");
        text.concat(decimal(self.request_status).as_str())
    }
}

impl GetTelegramType for R09Telegram {
    fn get_type(&self) -> (t: TelegramType)
        ensures
            t == TelegramType::R09,
    {
        TelegramType::R09
    }
}

impl R09SaveTelegram {
    /// The names of the fields of a stored telegram, in their order: the
    /// columns under which it is written out.
    pub const FIELD_NAMES_AS_ARRAY: [&'static str; 18] = [
        "id",
        "time",
        "station",
        "r09_type",
        "delay",
        "reporting_point",
        "junction",
        "direction",
        "request_status",
        "priority",
        "direction_request",
        "line",
        "run_number",
        "destination_number",
        "train_length",
        "vehicle_number",
        "operator",
        "region",
    ];

    /// The record under which `telegram` is stored: it has no key yet, and
    /// takes time, station and region from `meta`. Numbers that the telegram
    /// holds unsigned are stored signed, with the same bit pattern.
    pub fn from(telegram: R09Telegram, meta: TelegramMetaInformation) -> (saved: R09SaveTelegram)
        ensures
            saved.id is None,
            saved.time == meta.time,
            saved.station == meta.station,
            saved.region == meta.region,
            saved.r09_type == telegram.r09_type,
            saved.delay == telegram.delay,
            saved.reporting_point == reinterpret_i32(telegram.reporting_point),
            saved.junction == reinterpret_i32(telegram.junction),
            saved.direction == telegram.direction,
            saved.request_status == telegram.request_status,
            saved.priority == widen_i16_opt(telegram.priority),
            saved.direction_request == widen_i16_opt(telegram.direction_request),
            saved.line == reinterpret_i32_opt(telegram.line),
            saved.run_number == reinterpret_i32_opt(telegram.run_number),
            saved.destination_number == reinterpret_i32_opt(telegram.destination_number),
            saved.train_length == telegram.train_length,
            saved.vehicle_number == reinterpret_i32_opt(telegram.vehicle_number),
            saved.operator == widen_i16_opt(telegram.operator),
    {
        R09SaveTelegram {
            id: None,
            time: meta.time,
            station: meta.station,
            r09_type: telegram.r09_type,
            delay: telegram.delay,
            reporting_point: to_i32(telegram.reporting_point),
            junction: to_i32(telegram.junction),
            direction: telegram.direction as i16,
            request_status: telegram.request_status as i16,
            priority: to_i16_opt(telegram.priority),
            direction_request: to_i16_opt(telegram.direction_request),
            line: to_i32_opt(telegram.line),
            run_number: to_i32_opt(telegram.run_number),
            destination_number: to_i32_opt(telegram.destination_number),
            train_length: telegram.train_length,
            vehicle_number: to_i32_opt(telegram.vehicle_number),
            operator: to_i16_opt(telegram.operator),
            region: meta.region,
        }
    }
}

impl Hash for R09ReceiveTelegram {
    /// Feeds the telegram to the hasher with `R09Telegram`'s derived
    /// `Hash::hash`, and leaves out who submitted it. Trusted; nothing is
    /// claimed of the hasher's state.
    #[verifier::external_body]
    fn hash<H: Hasher>(&self, state: &mut H) {
        self.data.hash(state);
    }
}

impl R09GrpcTelegram {
    /// The form in which `telegram` is passed on: time in whole seconds,
    /// the station as the text of its UUID, the standard as its number.
    /// Numbers that the telegram holds unsigned are passed on signed, with
    /// the same bit pattern.
    pub fn create(telegram: R09Telegram, meta: TelegramMetaInformation) -> (passed: R09GrpcTelegram)
        ensures
            passed.time == reinterpret_u64(meta.time.seconds),
            passed.station@ == hyphenated(meta.station),
            passed.region == meta.region,
            passed.r09_type == r09_type_number(telegram.r09_type),
            passed.delay == telegram.delay,
            passed.reporting_point == reinterpret_i32(telegram.reporting_point),
            passed.junction == reinterpret_i32(telegram.junction),
            passed.direction == telegram.direction,
            passed.request_status == telegram.request_status,
            passed.priority == widen_i32_opt(telegram.priority),
            passed.direction_request == widen_i32_opt(telegram.direction_request),
            passed.line == reinterpret_i32_opt(telegram.line),
            passed.run_number == reinterpret_i32_opt(telegram.run_number),
            passed.destination_number == reinterpret_i32_opt(telegram.destination_number),
            passed.train_length == telegram.train_length,
            passed.vehicle_number == reinterpret_i32_opt(telegram.vehicle_number),
            passed.operator == widen_i32_opt(telegram.operator),
    {
        let number: i16 = telegram.r09_type.number();
        R09GrpcTelegram {
            time: to_u64(meta.time.seconds),
            station: uuid_to_string(meta.station),
            region: meta.region,
            r09_type: number as i32,
            delay: telegram.delay,
            reporting_point: to_i32(telegram.reporting_point),
            junction: to_i32(telegram.junction),
            direction: telegram.direction as i32,
            request_status: telegram.request_status as i32,
            priority: to_i32_small_opt(telegram.priority),
            direction_request: to_i32_small_opt(telegram.direction_request),
            line: to_i32_opt(telegram.line),
            run_number: to_i32_opt(telegram.run_number),
            destination_number: to_i32_opt(telegram.destination_number),
            train_length: telegram.train_length,
            vehicle_number: to_i32_opt(telegram.vehicle_number),
            operator: to_i32_small_opt(telegram.operator),
        }
    }
}

} // verus!
