//! Telegrams as the bytes that were received.

use super::{
    telegram_type_name, telegram_type_number, AuthenticationMeta, GetTelegramType,
    TelegramMetaInformation, TelegramType,
};
use crate::text::{pretty_bytes, pretty_bytes_text};
use crate::time::Timestamp;
use std::hash::{Hash, Hasher};
use vstd::prelude::*;
use vstd::string::StringExecFns;

verus! {

/// The bytes of a telegram as they were received.
#[derive(Debug, Clone, Hash)]
pub struct RawTelegram {
    /// The type of the telegram.
    pub telegram_type: TelegramType,
    /// The bytes.
    pub data: Vec<u8>,
}

/// A raw telegram as it is stored.
#[derive(Debug, Clone)]
pub struct RawSaveTelegram {
    /// Primary key; `None` until the database has assigned one.
    pub id: Option<i64>,
    /// When the telegram was received.
    pub time: Timestamp,
    /// The station that received it (a UUID, as its 128-bit number).
    pub station: u128,
    /// Number of the [`TelegramType`].
    pub telegram_type: i64,
    /// The bytes.
    pub data: Vec<u8>,
}

/// A raw telegram as a station submits it.
#[derive(Clone)]
pub struct RawReceiveTelegram {
    /// Identifies the station.
    pub auth: AuthenticationMeta,
    /// The telegram.
    pub data: RawTelegram,
}

impl RawTelegram {
    /// The telegram in words: the name of its type, and its bytes as the
    /// standard library lists them, one to a line.
    pub fn to_string(&self) -> (text: String)
        ensures
            text@ == "Type "@ + telegram_type_name(self.telegram_type) + " Raw Data: "@
                + pretty_bytes_text(self.data@),
    {
        let text = "Type ".to_owned();
        let text = text.concat(self.telegram_type.name().as_str());
        let text = text.concat(" Raw Data: ");
        text.concat(pretty_bytes(&self.data).as_str())
    }
}

impl GetTelegramType for RawTelegram {
    fn get_type(&self) -> (t: TelegramType)
        ensures
            t == self.telegram_type,
    {
        self.telegram_type
    }
}

impl RawSaveTelegram {
    /// The names of the fields of a stored raw telegram, in their order: the
    /// columns under which it is written out.
    pub const FIELD_NAMES_AS_ARRAY: [&'static str; 5] =
        ["id", "time", "station", "telegram_type", "data"];

    /// The record under which `telegram` is stored: it has no key yet, and
    /// takes time and station from `meta`.
    pub fn from(telegram: RawTelegram, meta: TelegramMetaInformation) -> (saved: RawSaveTelegram)
        ensures
            saved.id is None,
            saved.time == meta.time,
            saved.station == meta.station,
            saved.telegram_type == telegram_type_number(telegram.telegram_type),
            saved.data == telegram.data,
    {
        let number: u8 = telegram.telegram_type.number();
        RawSaveTelegram {
            id: None,
            time: meta.time,
            station: meta.station,
            telegram_type: number as i64,
            data: telegram.data,
        }
    }
}

impl Hash for RawReceiveTelegram {
    /// Feeds the telegram to the hasher with `RawTelegram`'s derived
    /// `Hash::hash`, and leaves out who submitted it. Trusted; nothing is
    /// claimed of the hasher's state.
    #[verifier::external_body]
    fn hash<H: Hasher>(&self, state: &mut H) {
        self.data.hash(state);
    }
}

} // verus!
