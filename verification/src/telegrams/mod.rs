//! Telegrams and what accompanies them on their way.

pub mod r09;
pub mod raw;

use crate::time::Timestamp;
use vstd::prelude::*;

verus! {

/// What a station adds to a telegram that it submits: information that the
/// telegram itself does not carry.
#[derive(Debug, Clone, Copy, PartialEq, Eq, Structural)]
pub struct TelegramMetaInformation {
    /// When the telegram was received.
    pub time: Timestamp,
    /// The station that received it (a UUID, as its 128-bit number).
    pub station: u128,
    /// The region of that station.
    pub region: i64,
}

/// What a station proves its identity with when it submits a telegram.
///
/// The type has no debug output, so that the token is never printed.
#[derive(Clone)]
pub struct AuthenticationMeta {
    /// The station that sent the telegram (a UUID, as its 128-bit number).
    pub station: u128,
    /// The secret token of that station.
    pub token: String,
    /// When the telegram was received.
    pub time: Timestamp,
}

/// The flavours of telegram.
#[allow(missing_docs)]
#[derive(Debug, Clone, Copy, PartialEq, Eq, Structural, Hash)]
pub enum TelegramType {
    R00,
    R01,
    R02,
    R03,
    R04,
    R05,
    R06,
    R07,
    R08,
    /// The telegram that carries the position reports of vehicles.
    R09,
    R10,
    R11,
    R12,
    R13,
    R14,
    R15,
    C00,
    C01,
    C02,
    C03,
    C04,
    C05,
    C06,
    C07,
    C08,
    C09,
    C10,
    C11,
    C12,
    C13,
    C14,
    C15,
}

/// The number that stands for a telegram type, in storage and on the wire.
pub open spec fn telegram_type_number(t: TelegramType) -> u8 {
    match t {
        TelegramType::R00 => 0,
        TelegramType::R01 => 1,
        TelegramType::R02 => 2,
        TelegramType::R03 => 3,
        TelegramType::R04 => 4,
        TelegramType::R05 => 5,
        TelegramType::R06 => 6,
        TelegramType::R07 => 7,
        TelegramType::R08 => 8,
        TelegramType::R09 => 9,
        TelegramType::R10 => 10,
        TelegramType::R11 => 11,
        TelegramType::R12 => 12,
        TelegramType::R13 => 13,
        TelegramType::R14 => 14,
        TelegramType::R15 => 15,
        TelegramType::C00 => 16,
        TelegramType::C01 => 17,
        TelegramType::C02 => 18,
        TelegramType::C03 => 19,
        TelegramType::C04 => 20,
        TelegramType::C05 => 21,
        TelegramType::C06 => 22,
        TelegramType::C07 => 23,
        TelegramType::C08 => 24,
        TelegramType::C09 => 25,
        TelegramType::C10 => 26,
        TelegramType::C11 => 27,
        TelegramType::C12 => 28,
        TelegramType::C13 => 29,
        TelegramType::C14 => 30,
        TelegramType::C15 => 31,
    }
}

/// The telegram type that a number stands for, if it stands for one.
pub open spec fn telegram_type_of(number: i64) -> Option<TelegramType> {
    match number {
        0 => Some(TelegramType::R00),
        1 => Some(TelegramType::R01),
        2 => Some(TelegramType::R02),
        3 => Some(TelegramType::R03),
        4 => Some(TelegramType::R04),
        5 => Some(TelegramType::R05),
        6 => Some(TelegramType::R06),
        7 => Some(TelegramType::R07),
        8 => Some(TelegramType::R08),
        9 => Some(TelegramType::R09),
        10 => Some(TelegramType::R10),
        11 => Some(TelegramType::R11),
        12 => Some(TelegramType::R12),
        13 => Some(TelegramType::R13),
        14 => Some(TelegramType::R14),
        15 => Some(TelegramType::R15),
        16 => Some(TelegramType::C00),
        17 => Some(TelegramType::C01),
        18 => Some(TelegramType::C02),
        19 => Some(TelegramType::C03),
        20 => Some(TelegramType::C04),
        21 => Some(TelegramType::C05),
        22 => Some(TelegramType::C06),
        23 => Some(TelegramType::C07),
        24 => Some(TelegramType::C08),
        25 => Some(TelegramType::C09),
        26 => Some(TelegramType::C10),
        27 => Some(TelegramType::C11),
        28 => Some(TelegramType::C12),
        29 => Some(TelegramType::C13),
        30 => Some(TelegramType::C14),
        31 => Some(TelegramType::C15),
        _ => None,
    }
}

/// The name of a telegram type, as it is written in messages.
pub open spec fn telegram_type_name(t: TelegramType) -> Seq<char> {
    match t {
        TelegramType::R00 => "R00"@,
        TelegramType::R01 => "R01"@,
        TelegramType::R02 => "R02"@,
        TelegramType::R03 => "R03"@,
        TelegramType::R04 => "R04"@,
        TelegramType::R05 => "R05"@,
        TelegramType::R06 => "R06"@,
        TelegramType::R07 => "R07"@,
        TelegramType::R08 => "R08"@,
        TelegramType::R09 => "R09"@,
        TelegramType::R10 => "R10"@,
        TelegramType::R11 => "R11"@,
        TelegramType::R12 => "R12"@,
        TelegramType::R13 => "R13"@,
        TelegramType::R14 => "R14"@,
        TelegramType::R15 => "R15"@,
        TelegramType::C00 => "C00"@,
        TelegramType::C01 => "C01"@,
        TelegramType::C02 => "C02"@,
        TelegramType::C03 => "C03"@,
        TelegramType::C04 => "C04"@,
        TelegramType::C05 => "C05"@,
        TelegramType::C06 => "C06"@,
        TelegramType::C07 => "C07"@,
        TelegramType::C08 => "C08"@,
        TelegramType::C09 => "C09"@,
        TelegramType::C10 => "C10"@,
        TelegramType::C11 => "C11"@,
        TelegramType::C12 => "C12"@,
        TelegramType::C13 => "C13"@,
        TelegramType::C14 => "C14"@,
        TelegramType::C15 => "C15"@,
    }
}

impl TelegramType {
    /// The name of this type.
    pub fn name(&self) -> (text: String)
        ensures
            text@ == telegram_type_name(*self),
    {
        match self {
            TelegramType::R00 => "R00".to_owned(),
            TelegramType::R01 => "R01".to_owned(),
            TelegramType::R02 => "R02".to_owned(),
            TelegramType::R03 => "R03".to_owned(),
            TelegramType::R04 => "R04".to_owned(),
            TelegramType::R05 => "R05".to_owned(),
            TelegramType::R06 => "R06".to_owned(),
            TelegramType::R07 => "R07".to_owned(),
            TelegramType::R08 => "R08".to_owned(),
            TelegramType::R09 => "R09".to_owned(),
            TelegramType::R10 => "R10".to_owned(),
            TelegramType::R11 => "R11".to_owned(),
            TelegramType::R12 => "R12".to_owned(),
            TelegramType::R13 => "R13".to_owned(),
            TelegramType::R14 => "R14".to_owned(),
            TelegramType::R15 => "R15".to_owned(),
            TelegramType::C00 => "C00".to_owned(),
            TelegramType::C01 => "C01".to_owned(),
            TelegramType::C02 => "C02".to_owned(),
            TelegramType::C03 => "C03".to_owned(),
            TelegramType::C04 => "C04".to_owned(),
            TelegramType::C05 => "C05".to_owned(),
            TelegramType::C06 => "C06".to_owned(),
            TelegramType::C07 => "C07".to_owned(),
            TelegramType::C08 => "C08".to_owned(),
            TelegramType::C09 => "C09".to_owned(),
            TelegramType::C10 => "C10".to_owned(),
            TelegramType::C11 => "C11".to_owned(),
            TelegramType::C12 => "C12".to_owned(),
            TelegramType::C13 => "C13".to_owned(),
            TelegramType::C14 => "C14".to_owned(),
            TelegramType::C15 => "C15".to_owned(),
        }
    }

    /// The number that stands for this type.
    pub fn number(&self) -> (n: u8)
        ensures
            n == telegram_type_number(*self),
            n < 32,
    {
        match self {
            TelegramType::R00 => 0,
            TelegramType::R01 => 1,
            TelegramType::R02 => 2,
            TelegramType::R03 => 3,
            TelegramType::R04 => 4,
            TelegramType::R05 => 5,
            TelegramType::R06 => 6,
            TelegramType::R07 => 7,
            TelegramType::R08 => 8,
            TelegramType::R09 => 9,
            TelegramType::R10 => 10,
            TelegramType::R11 => 11,
            TelegramType::R12 => 12,
            TelegramType::R13 => 13,
            TelegramType::R14 => 14,
            TelegramType::R15 => 15,
            TelegramType::C00 => 16,
            TelegramType::C01 => 17,
            TelegramType::C02 => 18,
            TelegramType::C03 => 19,
            TelegramType::C04 => 20,
            TelegramType::C05 => 21,
            TelegramType::C06 => 22,
            TelegramType::C07 => 23,
            TelegramType::C08 => 24,
            TelegramType::C09 => 25,
            TelegramType::C10 => 26,
            TelegramType::C11 => 27,
            TelegramType::C12 => 28,
            TelegramType::C13 => 29,
            TelegramType::C14 => 30,
            TelegramType::C15 => 31,
        }
    }

    /// The type that `number` stands for; `None` for a number outside 0..=31.
    pub fn from_i64(number: i64) -> (t: Option<TelegramType>)
        ensures
            t == telegram_type_of(number),
            t is Some <==> 0 <= number < 32,
    {
        match number {
            0 => Some(TelegramType::R00),
            1 => Some(TelegramType::R01),
            2 => Some(TelegramType::R02),
            3 => Some(TelegramType::R03),
            4 => Some(TelegramType::R04),
            5 => Some(TelegramType::R05),
            6 => Some(TelegramType::R06),
            7 => Some(TelegramType::R07),
            8 => Some(TelegramType::R08),
            9 => Some(TelegramType::R09),
            10 => Some(TelegramType::R10),
            11 => Some(TelegramType::R11),
            12 => Some(TelegramType::R12),
            13 => Some(TelegramType::R13),
            14 => Some(TelegramType::R14),
            15 => Some(TelegramType::R15),
            16 => Some(TelegramType::C00),
            17 => Some(TelegramType::C01),
            18 => Some(TelegramType::C02),
            19 => Some(TelegramType::C03),
            20 => Some(TelegramType::C04),
            21 => Some(TelegramType::C05),
            22 => Some(TelegramType::C06),
            23 => Some(TelegramType::C07),
            24 => Some(TelegramType::C08),
            25 => Some(TelegramType::C09),
            26 => Some(TelegramType::C10),
            27 => Some(TelegramType::C11),
            28 => Some(TelegramType::C12),
            29 => Some(TelegramType::C13),
            30 => Some(TelegramType::C14),
            31 => Some(TelegramType::C15),
            _ => None,
        }
    }
}

/// Every telegram type comes back from its number, and a number that stands
/// for a type is the number of that type.
pub proof fn lemma_telegram_type_number_round_trip(t: TelegramType, number: i64)
    ensures
        telegram_type_of(telegram_type_number(t) as i64) == Some(t),
        telegram_type_of(number) matches Some(u) ==> telegram_type_number(u) == number,
{
}

/// For telegrams that can tell of which type they are.
pub trait GetTelegramType {
    /// The type of this telegram.
    fn get_type(&self) -> TelegramType where Self: Sized;
}

} // verus!
