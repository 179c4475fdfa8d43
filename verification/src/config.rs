//! The bot's settings and the reading of numbers from the environment.

use vstd::prelude::*;
use crate::text::{decimal, signed_decimal};

verus! {

/// The bot's settings, as the environment gives them.
pub struct Config {
    pub telegram_api_key: String,
    pub db_url: String,
    pub owner_id: i64,
    pub owner_chat: i64,
    pub required_votes: i64,
    pub action_limit: i64,
    pub action_period_hours: i64,
}

/// Why a setting could not be read; each names the variable.
pub enum EnvError {
    /// The variable is not set (or not valid Unicode).
    NotSet(String),
    /// The variable's value is not a decimal `i64`.
    NotNumber(String),
}

/// An ASCII decimal digit.
pub open spec fn is_digit(c: char) -> bool {
    48 <= c as u32 <= 57
}

pub open spec fn all_digits(s: Seq<char>) -> bool {
    forall|i: int| 0 <= i < s.len() ==> is_digit(#[trigger] s[i])
}

/// The number that the digits `s` denote.
pub open spec fn digits_value(s: Seq<char>) -> int
    decreases s.len(),
{
    if s.len() == 0 {
        0
    } else {
        digits_value(s.drop_last()) * 10 + (s.last() as u32 - 48)
    }
}

/// What `str::parse::<i64>` gives for `s`: an optional `+` or `-`, then one
/// or more ASCII digits, whose value must fit in an `i64`; anything else is
/// refused.
pub open spec fn parse_i64_value(s: Seq<char>) -> Option<i64> {
    let signed = s.len() > 0 && (s[0] == '-' || s[0] == '+');
    let body = if signed {
        s.drop_first()
    } else {
        s
    };
    if body.len() == 0 || !all_digits(body) {
        None
    } else {
        let v = if s[0] == '-' {
            -digits_value(body)
        } else {
            digits_value(body)
        };
        if i64::MIN <= v <= i64::MAX {
            Some(v as i64)
        } else {
            None
        }
    }
}

proof fn lemma_digits_value_grows(s: Seq<char>, k: int)
    requires
        all_digits(s),
        0 <= k <= s.len(),
    ensures
        0 <= digits_value(s.take(k)) <= digits_value(s),
    decreases s.len(),
{
    if k < s.len() {
        assert(all_digits(s.drop_last()));
        lemma_digits_value_grows(s.drop_last(), k);
        assert(s.drop_last().take(k) =~= s.take(k));
        lemma_digits_value_grows(s.drop_last(), s.len() - 1);
        assert(s.drop_last().take(s.len() - 1) =~= s.drop_last());
    } else {
        assert(s.take(k) =~= s);
        if s.len() > 0 {
            assert(all_digits(s.drop_last()));
            lemma_digits_value_grows(s.drop_last(), s.len() - 1);
            assert(s.drop_last().take(s.len() - 1) =~= s.drop_last());
        }
    }
}

/// Reads `s` as `str::parse::<i64>` does.
pub fn parse_i64(s: &str) -> (r: Option<i64>)
    ensures
        r == parse_i64_value(s@),
{
    let n = s.unicode_len();
    let mut start: usize = 0;
    let mut negative = false;
    if n > 0 {
        let c = s.get_char(0);
        if c == '-' {
            negative = true;
            start = 1;
        } else if c == '+' {
            start = 1;
        }
    }
    if start == n {
        return None;
    }
    let ghost body = s@.subrange(start as int, n as int);
    assert(body =~= if start == 1 { s@.drop_first() } else { s@ });
    let limit: u128 = 0x8000_0000_0000_0000;
    let mut acc: u128 = 0;
    let mut i: usize = start;
    while i < n
        invariant
            start <= i <= n,
            n == s@.len(),
            start < n,
            start <= 1,
            body == s@.subrange(start as int, n as int),
            body == (if start == 1 { s@.drop_first() } else { s@ }),
            (start == 1) == (s@[0] == '-' || s@[0] == '+'),
            negative == (s@[0] == '-'),
            acc <= limit,
            limit == 0x8000_0000_0000_0000,
            all_digits(body.take(i - start)),
            acc == digits_value(body.take(i - start)),
        decreases n - i,
    {
        let c = s.get_char(i);
        if !('0' <= c && c <= '9') {
            proof {
                assert(body[i - start] == c);
                assert(!all_digits(body));
            }
            return None;
        }
        let d = (c as u32 - 48) as u128;
        proof {
            let t = body.take(i - start + 1);
            assert(t.drop_last() =~= body.take(i - start));
            assert(t.last() == c);
        }
        acc = acc * 10 + d;
        i = i + 1;
        if acc > limit {
            proof {
                let k = i - start;
                let rest = body.subrange(k, body.len() as int);
                if all_digits(body) {
                    lemma_digits_value_grows(body, k);
                }
            }
            return None;
        }
    }
    assert(body.take(n - start) =~= body);
    let ghost v = digits_value(body);
    if negative {
        let magnitude = acc as i128;
        Some((0 - magnitude) as i64)
    } else if acc < limit {
        Some(acc as i64)
    } else {
        None
    }
}

/// Reads the setting `name`, whose value the environment gave as `value`, as
/// an `i64`.
pub fn env_i64(name: &str, value: Option<String>) -> (r: Result<i64, EnvError>)
    ensures
        match value {
            None => r matches Err(EnvError::NotSet(n)) && n@ == name@,
            Some(v) => match parse_i64_value(v@) {
                Some(x) => r == Ok::<i64, EnvError>(x),
                None => r matches Err(EnvError::NotNumber(n)) && n@ == name@,
            },
        },
{
    match value {
        None => Err(EnvError::NotSet(name.to_owned())),
        Some(v) => match parse_i64(v.as_str()) {
            Some(x) => Ok(x),
            None => Err(EnvError::NotNumber(name.to_owned())),
        },
    }
}

} // verus!
