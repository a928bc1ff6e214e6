//! What the command line is checked against: baud rates and color names.

use vstd::prelude::*;
use vstd::string::*;
use crate::configs::{
    color_of_name, names_are_valid, normalized, normalizer, valid_names, SeriColor,
};

verus! {

/// What `str::parse::<u32>` returns for the text `s`, as an `Option`.
pub uninterp spec fn parsed_u32(s: Seq<char>) -> Option<u32>;

/// Whether `serial2_tokio::COMMON_BAUD_RATES` holds `baud`.
pub uninterp spec fn common_baud(baud: u32) -> bool;

/// `str::parse` reads the text as a number, or fails.
#[verifier::external_body]
fn parse_u32(s: &str) -> (r: Option<u32>)
    ensures
        r == parsed_u32(s@),
{
    s.parse::<u32>().ok()
}

/// Looks `baud` up in `serial2_tokio::COMMON_BAUD_RATES`.
#[verifier::external_body]
fn is_common_baud(baud: u32) -> (r: bool)
    ensures
        r == common_baud(baud),
{
    serial2_tokio::COMMON_BAUD_RATES.contains(&baud)
}

/// Writes the message for a number that is no common baud rate; it lists
/// `serial2_tokio::COMMON_BAUD_RATES`.
#[verifier::external_body]
fn uncommon_baud_message(baud: u32) -> (r: String) {
    format!(
        "'{}' is not a valid baud rate; valid baud rates include {:?}",
        baud,
        serial2_tokio::COMMON_BAUD_RATES
    )
}

/// The message for a text that is no number.
pub open spec fn not_a_number(input: Seq<char>) -> Seq<char> {
    "`"@ + input + "` isn't a valid baud rate"@
}

/// Judges a baud rate given as the text `input`: `parsed` is the number
/// that the text writes, if it writes one, `common` whether that number is a
/// common baud rate, and `listing` the message for a number that is not.
pub fn judge_baud(input: &str, parsed: Option<u32>, common: bool, listing: String) -> (r: Result<
    u32,
    String,
>)
    ensures
        match parsed {
            Some(baud) => if common {
                r == Ok::<u32, String>(baud)
            } else {
                r == Err::<u32, String>(listing)
            },
            None => r is Err && r->Err_0@ == not_a_number(input@),
        },
{
    match parsed {
        Some(baud) => {
            if common {
                Ok(baud)
            } else {
                Err(listing)
            }
        },
        None => {
            let mut message = "`".to_owned();
            message.append(input);
            message.append("` isn't a valid baud rate");
            Err(message)
        },
    }
}

/// Reads a baud rate from the command line: a number that is one of the
/// common baud rates. Anything else is an error with a message for the user.
pub fn valid_baud_rate(s: &str) -> (r: Result<u32, String>)
    ensures
        match r {
            Ok(baud) => parsed_u32(s@) == Some(baud) && common_baud(baud),
            Err(message) => match parsed_u32(s@) {
                Some(baud) => !common_baud(baud),
                None => message@ == not_a_number(s@),
            },
        },
{
    let parsed = parse_u32(s);
    match parsed {
        Some(baud) => {
            if is_common_baud(baud) {
                judge_baud(s, parsed, true, String::new())
            } else {
                judge_baud(s, parsed, false, uncommon_baud_message(baud))
            }
        },
        None => judge_baud(s, parsed, false, String::new()),
    }
}

/// `names` with `separator` between them.
pub open spec fn joined(names: Seq<Seq<char>>, separator: Seq<char>) -> Seq<char>
    decreases names.len(),
{
    if names.len() == 0 {
        Seq::empty()
    } else if names.len() == 1 {
        names[0]
    } else {
        joined(names.drop_last(), separator) + separator + names.last()
    }
}

/// The message for a color name that is not known: it lists the names that
/// are, with a comma between them.
pub open spec fn color_help() -> Seq<char> {
    "\n\nExpected one of: "@ + joined(valid_names(), ", "@)
}

/// Reads the name of a color from the command line. A name that is not
/// known is an error with a message that lists the names that are.
pub fn color_parser(input: &str) -> (r: Result<SeriColor, String>)
    ensures
        match r {
            Ok(c) => color_of_name(normalized(input@)) == Some(c),
            Err(message) => color_of_name(normalized(input@)) is None && message@ == color_help(),
        },
{
    match SeriColor::parse_from_str(input, normalizer) {
        Ok(c) => Ok(c),
        Err(names) => {
            let mut message = "\n\nExpected one of: ".to_owned();
            let mut i: usize = 0;
            let ghost all = valid_names();
            while i < names.len()
                invariant
                    i <= names@.len(),
                    all == valid_names(),
                    names_are_valid(names@),
                    message@ == "\n\nExpected one of: "@ + joined(all.take(i as int), ", "@),
                decreases names@.len() - i,
            {
                proof {
                    assert(all.take(i + 1).drop_last() =~= all.take(i as int));
                }
                if i > 0 {
                    message.append(", ");
                }
                message.append(names[i]);
                i = i + 1;
            }
            proof {
                assert(all.take(i as int) =~= all);
            }
            Err(message)
        },
    }
}

} // verus!
