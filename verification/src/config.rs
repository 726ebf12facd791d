//! The values the bot is started with, and what is wrong with them when it cannot start.

use vstd::prelude::*;
use vstd::utf8::encode_utf8;

verus! {

/// Why the bot cannot start.
#[derive(Clone, Copy, Debug, PartialEq, Eq, Structural)]
pub enum ConfigError {
    /// No token was given.
    TokenUnset,
    /// No owner was given.
    OwnerUnset,
    /// The owner given is not a user's number.
    OwnerInvalid,
}

/// What the bot runs with.
#[derive(Clone, Debug, PartialEq, Eq)]
pub struct Config {
    /// The token that authenticates the bot.
    pub token: String,
    /// The one user who may unpause.
    pub owner: u64,
}

/// The number that a string of decimal digits writes.
pub open spec fn digits_value(digits: Seq<u8>) -> nat
    decreases digits.len(),
{
    if digits.len() == 0 {
        0
    } else {
        10 * digits_value(digits.drop_last()) + (digits.last() - 0x30) as nat
    }
}

/// Whether `b` is an ASCII decimal digit.
pub open spec fn is_digit(b: u8) -> bool {
    0x30 <= b <= 0x39
}

/// Whether every byte is a decimal digit.
pub open spec fn all_digits(digits: Seq<u8>) -> bool {
    forall|i: int| 0 <= i < digits.len() ==> is_digit(#[trigger] digits[i])
}

/// The text without the plus sign it may start with.
pub open spec fn unsigned_part(text: Seq<u8>) -> Seq<u8> {
    if text.len() > 0 && text[0] == 0x2b {
        text.skip(1)
    } else {
        text
    }
}

/// The user number a text writes: an optional plus sign, then one or more decimal digits and
/// nothing else, writing a number that fits in 64 bits.
pub open spec fn owner_spec(text: Seq<u8>) -> Option<u64> {
    let digits = unsigned_part(text);
    if digits.len() > 0 && all_digits(digits) && digits_value(digits) <= u64::MAX {
        Some(digits_value(digits) as u64)
    } else {
        None
    }
}

/// What comes of the values given at the start.
pub open spec fn config_spec(token: Option<Seq<char>>, owner: Option<Seq<char>>) -> Result<
    (Seq<char>, u64),
    ConfigError,
> {
    match (token, owner) {
        (None, _) => Err(ConfigError::TokenUnset),
        (Some(_), None) => Err(ConfigError::OwnerUnset),
        (Some(token), Some(owner)) => match owner_spec(encode_utf8(owner)) {
            Some(id) => Ok((token, id)),
            None => Err(ConfigError::OwnerInvalid),
        },
    }
}

/// A string of digits writes at least what any of its beginnings writes.
proof fn lemma_digits_value_grows(digits: Seq<u8>, n: int)
    requires
        0 <= n <= digits.len(),
    ensures
        digits_value(digits.take(n)) <= digits_value(digits),
    decreases digits.len() - n,
{
    if n == digits.len() {
        assert(digits.take(n) =~= digits);
    } else {
        lemma_digits_value_grows(digits, n + 1);
        assert(digits.take(n + 1).drop_last() =~= digits.take(n));
    }
}

/// Reads a user number off the bytes of a text.
pub fn parse_owner_bytes(text: &[u8]) -> (owner: Option<u64>)
    ensures
        owner == owner_spec(text@),
{
    let start: usize = if text.len() > 0 && text[0] == 0x2b {
        1
    } else {
        0
    };
    let ghost digits = unsigned_part(text@);
    if start == text.len() {
        return None;
    }
    let mut value: u64 = 0;
    let mut i: usize = start;
    proof {
        assert(digits.take(0) =~= Seq::<u8>::empty());
    }
    while i < text.len()
        invariant
            start <= i <= text.len(),
            digits == unsigned_part(text@),
            digits.len() == text.len() - start,
            forall|j: int| 0 <= j < digits.len() ==> digits[j] == text@[j + start],
            all_digits(digits.take(i - start)),
            value == digits_value(digits.take(i - start)),
        decreases text.len() - i,
    {
        let b = text[i];
        let ghost seen = digits.take(i - start + 1);
        proof {
            assert(seen.drop_last() =~= digits.take(i - start));
            assert(seen.last() == b);
        }
        if b < 0x30 || b > 0x39 {
            assert(!is_digit(digits[i - start]));
            return None;
        }
        proof {
            assert forall|j: int| 0 <= j < seen.len() implies is_digit(#[trigger] seen[j]) by {
                if j < seen.len() - 1 {
                    assert(seen[j] == digits.take(i - start)[j]);
                }
            }
            lemma_digits_value_grows(digits, i - start + 1);
        }
        let next = match value.checked_mul(10) {
            Some(tens) => tens.checked_add((b - 0x30) as u64),
            None => None,
        };
        match next {
            Some(next) => {
                value = next;
            },
            None => {
                return None;
            },
        }
        i += 1;
    }
    proof {
        assert(digits.take(digits.len() as int) =~= digits);
    }
    Some(value)
}

/// Reads a user number off a text.
pub fn parse_owner(text: &str) -> (owner: Option<u64>)
    ensures
        owner == owner_spec(encode_utf8(text@)),
{
    parse_owner_bytes(text.as_bytes())
}

impl ConfigError {
    /// The words of the error.
    pub open spec fn message_spec(self) -> Seq<char> {
        match self {
            ConfigError::TokenUnset => "TELOXIDE_TOKEN unset"@,
            ConfigError::OwnerUnset => "OWNER_ID unset"@,
            ConfigError::OwnerInvalid => "INVALID OWNER_ID"@,
        }
    }

    /// The error as a line for the operator.
    pub fn message(&self) -> (text: String)
        ensures
            text@ == self.message_spec(),
    {
        match self {
            ConfigError::TokenUnset => "TELOXIDE_TOKEN unset".to_owned(),
            ConfigError::OwnerUnset => "OWNER_ID unset".to_owned(),
            ConfigError::OwnerInvalid => "INVALID OWNER_ID".to_owned(),
        }
    }
}

/// The text an optional string holds.
pub open spec fn text_of(value: Option<String>) -> Option<Seq<char>> {
    match value {
        Some(text) => Some(text@),
        None => None,
    }
}

impl Config {
    /// Checks the values given at the start: the token must be there, and the owner must be
    /// there and be a user's number. The first thing wrong is the error.
    pub fn from_values(token: Option<String>, owner: Option<String>) -> (config: Result<Config, ConfigError>)
        ensures
            match config {
                Ok(config) => config_spec(text_of(token), text_of(owner)) == Ok::<
                    (Seq<char>, u64),
                    ConfigError,
                >((config.token@, config.owner)),
                Err(error) => config_spec(text_of(token), text_of(owner)) == Err::<
                    (Seq<char>, u64),
                    ConfigError,
                >(error),
            },
    {
        let token = match token {
            Some(token) => token,
            None => {
                return Err(ConfigError::TokenUnset);
            },
        };
        let owner = match owner {
            Some(owner) => owner,
            None => {
                return Err(ConfigError::OwnerUnset);
            },
        };
        match parse_owner(owner.as_str()) {
            Some(owner) => Ok(Config { token, owner }),
            None => Err(ConfigError::OwnerInvalid),
        }
    }
}

} // verus!
