//! The settings of a watch: whom to tell, which shipment, how long to pause.

use vstd::prelude::*;
use vstd::string::is_ascii_spec_bytes;
use crate::text::opt_chars;

verus! {

/// The settings of a watch.
#[derive(Clone, Debug, PartialEq, Eq)]
pub struct Config {
    /// The credential of the bot that sends the messages.
    pub bot_token: String,
    /// The chat that gets the messages.
    pub chat_id: String,
    /// The shipment to watch.
    pub order_id: String,
    /// The pause between two rounds, in seconds.
    pub sleep_time: u64,
}

/// The settings in contracts: their strings by their characters.
pub struct ConfigView {
    pub bot_token: Seq<char>,
    pub chat_id: Seq<char>,
    pub order_id: Seq<char>,
    pub sleep_time: u64,
}

impl View for Config {
    type V = ConfigView;

    open spec fn view(&self) -> ConfigView {
        ConfigView {
            bot_token: self.bot_token@,
            chat_id: self.chat_id@,
            order_id: self.order_id@,
            sleep_time: self.sleep_time,
        }
    }
}

/// One of the four settings.
#[derive(Clone, Copy, Debug, PartialEq, Eq, Structural)]
pub enum Setting {
    BotToken,
    ChatId,
    OrderId,
    SleepTime,
}

/// Why there is no `Config`.
#[derive(Clone, Copy, Debug, PartialEq, Eq, Structural)]
pub enum ConfigError {
    /// This setting has no value; every setting before it has one.
    Missing(Setting),
    /// All four settings have a value, and that of the pause is no number of
    /// seconds.
    BadSleepTime,
}

/// The name under which a setting is looked up.
pub open spec fn setting_key(setting: Setting) -> Seq<char> {
    match setting {
        Setting::BotToken => "TELEGRAM_BOT_TOKEN"@,
        Setting::ChatId => "TELEGRAM_CHAT_ID"@,
        Setting::OrderId => "ORDER_ID"@,
        Setting::SleepTime => "SLEEP_TIME"@,
    }
}

/// The name under which a setting is looked up.
pub fn setting_name(setting: Setting) -> (name: &'static str)
    ensures
        name@ == setting_key(setting),
{
    match setting {
        Setting::BotToken => "TELEGRAM_BOT_TOKEN",
        Setting::ChatId => "TELEGRAM_CHAT_ID",
        Setting::OrderId => "ORDER_ID",
        Setting::SleepTime => "SLEEP_TIME",
    }
}

/// What to say of an error.
pub open spec fn error_text(error: ConfigError) -> Seq<char> {
    match error {
        ConfigError::Missing(setting) => "Missing env variable "@ + setting_key(setting),
        ConfigError::BadSleepTime => "Failed to parse SLEEP_TIME in integer"@,
    }
}

/// What to say of an error.
pub fn error_message(error: ConfigError) -> (message: String)
    ensures
        message@ == error_text(error),
{
    match error {
        ConfigError::Missing(setting) => {
            let mut message = String::from_str("Missing env variable ");
            message.append(setting_name(setting));
            message
        },
        ConfigError::BadSleepTime => String::from_str("Failed to parse SLEEP_TIME in integer"),
    }
}

/// The byte of `+`.
const PLUS: u8 = 43;

/// The byte of `0`.
const ZERO: u8 = 48;

/// The byte of `9`.
const NINE: u8 = 57;

/// Whether a character is one of `0` to `9`.
pub open spec fn is_digit(c: char) -> bool {
    '0' <= c <= '9'
}

/// The number that a digit stands for.
pub open spec fn digit_value(c: char) -> nat {
    (c as int - '0' as int) as nat
}

/// Whether every character is a digit.
pub open spec fn all_digits(text: Seq<char>) -> bool {
    forall|i: int| 0 <= i < text.len() ==> is_digit(#[trigger] text[i])
}

/// The number that a row of digits stands for, read in base ten.
pub open spec fn decimal(digits: Seq<char>) -> nat
    decreases digits.len(),
{
    if digits.len() == 0 {
        0
    } else {
        decimal(digits.drop_last()) * 10 + digit_value(digits.last())
    }
}

/// A text without the `+` that it may begin with.
pub open spec fn unsigned_part(text: Seq<char>) -> Seq<char> {
    if text.len() > 0 && text[0] == '+' {
        text.skip(1)
    } else {
        text
    }
}

/// The number of seconds that a text stands for: one or more digits, with or
/// without a `+` before them, whose number fits in 64 bits. Any other text
/// stands for none.
pub open spec fn seconds_of(text: Seq<char>) -> Option<u64> {
    let digits = unsigned_part(text);
    if digits.len() > 0 && all_digits(digits) && decimal(digits) <= u64::MAX {
        Some(decimal(digits) as u64)
    } else {
        None
    }
}

/// The first digits of a row stand for no more than the whole row.
pub proof fn lemma_decimal_grows(digits: Seq<char>, n: int)
    requires
        0 <= n <= digits.len(),
    ensures
        decimal(digits.take(n)) <= decimal(digits),
    decreases digits.len() - n,
{
    if n < digits.len() {
        assert(digits.take(n + 1).drop_last() =~= digits.take(n));
        lemma_decimal_grows(digits, n + 1);
    } else {
        assert(digits.take(n) =~= digits);
    }
}

/// Reads a number of seconds.
pub fn parse_seconds(text: &str) -> (res: Option<u64>)
    ensures
        res == seconds_of(text@),
{
    if !text.is_ascii() {
        proof {
            let at = choose|i: int|
                0 <= i < text@.len() && !('\0' <= #[trigger] text@[i] <= '\u{7f}');
            let digits = unsigned_part(text@);
            if digits.len() == text@.len() {
                assert(!is_digit(digits[at]));
            } else {
                assert(at > 0);
                assert(!is_digit(digits[at - 1]));
            }
        }
        return None;
    }
    let bytes = text.as_bytes();
    proof {
        is_ascii_spec_bytes(text);
    }
    let start: usize = if bytes.len() > 0 && bytes[0] == PLUS {
        1
    } else {
        0
    };
    let ghost digits = unsigned_part(text@);
    assert(digits =~= text@.skip(start as int));
    if start == bytes.len() {
        return None;
    }
    let mut value: u64 = 0;
    let mut i: usize = start;
    while i < bytes.len()
        invariant
            start <= i <= bytes.len(),
            bytes@.len() == text@.len(),
            forall|k: int| 0 <= k < bytes@.len() ==> bytes@[k] == text@[k] as u8,
            forall|k: int| 0 <= k < text@.len() ==> '\0' <= #[trigger] text@[k] <= '\u{7f}',
            digits == text@.skip(start as int),
            digits == unsigned_part(text@),
            all_digits(digits.take(i - start)),
            value == decimal(digits.take(i - start)),
        decreases bytes.len() - i,
    {
        let byte: u8 = bytes[i];
        let ghost c = digits[i - start];
        assert(byte == c as u8);
        if byte < ZERO || byte > NINE {
            assert(!is_digit(c));
            return None;
        }
        proof {
            let read = digits.take(i - start + 1);
            assert(read.drop_last() =~= digits.take(i - start));
            assert forall|k: int| 0 <= k < read.len() implies is_digit(#[trigger] read[k]) by {
                if k < i - start {
                    assert(digits.take(i - start)[k] == read[k]);
                }
            }
        }
        let next: Option<u64> = match value.checked_mul(10) {
            Some(tens) => tens.checked_add((byte - ZERO) as u64),
            None => None,
        };
        match next {
            Some(more) => {
                value = more;
            },
            None => {
                proof {
                    lemma_decimal_grows(digits, i - start + 1);
                }
                return None;
            },
        }
        i = i + 1;
    }
    proof {
        assert(digits.take(i - start) =~= digits);
    }
    Some(value)
}

/// The settings that four optional values make, or the first reason why they
/// make none: a value that is missing, in the order token, chat, shipment,
/// pause, and then a pause that is no number of seconds.
pub open spec fn configured(
    bot_token: Option<Seq<char>>,
    chat_id: Option<Seq<char>>,
    order_id: Option<Seq<char>>,
    sleep_time: Option<Seq<char>>,
) -> Result<ConfigView, ConfigError> {
    if bot_token.is_none() {
        Err(ConfigError::Missing(Setting::BotToken))
    } else if chat_id.is_none() {
        Err(ConfigError::Missing(Setting::ChatId))
    } else if order_id.is_none() {
        Err(ConfigError::Missing(Setting::OrderId))
    } else if sleep_time.is_none() {
        Err(ConfigError::Missing(Setting::SleepTime))
    } else {
        match seconds_of(sleep_time.unwrap()) {
            Some(seconds) => Ok(
                ConfigView {
                    bot_token: bot_token.unwrap(),
                    chat_id: chat_id.unwrap(),
                    order_id: order_id.unwrap(),
                    sleep_time: seconds,
                },
            ),
            None => Err(ConfigError::BadSleepTime),
        }
    }
}

/// Makes the settings from the four values as they were found.
pub fn configure(
    bot_token: Option<String>,
    chat_id: Option<String>,
    order_id: Option<String>,
    sleep_time: Option<String>,
) -> (res: Result<Config, ConfigError>)
    ensures
        match res {
            Ok(config) => configured(
                opt_chars(bot_token),
                opt_chars(chat_id),
                opt_chars(order_id),
                opt_chars(sleep_time),
            ) == Ok::<ConfigView, ConfigError>(config@),
            Err(error) => configured(
                opt_chars(bot_token),
                opt_chars(chat_id),
                opt_chars(order_id),
                opt_chars(sleep_time),
            ) == Err::<ConfigView, ConfigError>(error),
        },
{
    let bot_token = match bot_token {
        Some(value) => value,
        None => return Err(ConfigError::Missing(Setting::BotToken)),
    };
    let chat_id = match chat_id {
        Some(value) => value,
        None => return Err(ConfigError::Missing(Setting::ChatId)),
    };
    let order_id = match order_id {
        Some(value) => value,
        None => return Err(ConfigError::Missing(Setting::OrderId)),
    };
    let sleep_time = match sleep_time {
        Some(value) => value,
        None => return Err(ConfigError::Missing(Setting::SleepTime)),
    };
    match parse_seconds(sleep_time.as_str()) {
        Some(seconds) => Ok(Config { bot_token, chat_id, order_id, sleep_time: seconds }),
        None => Err(ConfigError::BadSleepTime),
    }
}

} // verus!
