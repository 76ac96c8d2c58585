//! Reading the fuel shortfall out of the server's refusal of a flight plan.

use regex::Regex;
use vstd::prelude::*;

verus! {

/// The first capture group of every match of `pattern` in `haystack`, in the
/// order of the matches; `None` where the pattern is refused. An entry is
/// `None` where the group took no part in its match.
pub uninterp spec fn regex_first_groups(pattern: Seq<char>, haystack: Seq<char>) -> Option<
    Seq<Option<Seq<char>>>,
>;

/// What a list of captured groups holds, as plain sequences.
pub open spec fn groups_view(found: Option<Vec<Option<String>>>) -> Option<Seq<Option<Seq<char>>>> {
    match found {
        None => None,
        Some(groups) => Some(
            Seq::new(
                groups@.len(),
                |i: int|
                    match groups@[i] {
                        Some(text) => Some(text@),
                        None => None,
                    },
            ),
        ),
    }
}

/// Compiles `pattern` with `regex::Regex::new` and walks the haystack with
/// `Regex::captures_iter`, reading group 1 of each match with `Captures::get`.
/// The result is a function of the two texts alone and goes by the name
/// `regex_first_groups`; a pattern that does not compile gives `None`.
#[verifier::external_body]
fn first_groups(pattern: &str, haystack: &str) -> (found: Option<Vec<Option<String>>>)
    ensures
        groups_view(found) == regex_first_groups(pattern@, haystack@),
{
    match Regex::new(pattern) {
        Ok(re) => {
            let mut found = Vec::new();
            for captures in re.captures_iter(haystack) {
                match captures.get(1) {
                    Some(group) => found.push(Some(group.as_str().to_string())),
                    None => found.push(None),
                }
            }
            Some(found)
        },
        Err(_) => None,
    }
}

/// The character is one of the ten ASCII digits.
pub open spec fn is_digit(c: char) -> bool {
    '0' <= c && c <= '9'
}

/// Every character of the text is an ASCII digit.
pub open spec fn all_digits(text: Seq<char>) -> bool {
    forall|i: int| 0 <= i < text.len() ==> is_digit(#[trigger] text[i])
}

/// The number that a run of digits denotes in base ten.
pub open spec fn decimal_value(text: Seq<char>) -> int
    decreases text.len(),
{
    if text.len() == 0 {
        0
    } else {
        decimal_value(text.drop_last()) * 10 + (text.last() as int - '0' as int)
    }
}

/// The amount a text denotes: a non-empty run of ASCII digits whose value
/// fits in `i32`.
pub open spec fn spec_parse_amount(text: Seq<char>) -> Option<int> {
    if text.len() > 0 && all_digits(text) && decimal_value(text) <= i32::MAX {
        Some(decimal_value(text))
    } else {
        None
    }
}

/// A longer run of digits denotes no smaller a number than its prefix.
proof fn lemma_decimal_value_grows(text: Seq<char>, n: int)
    requires
        all_digits(text),
        0 <= n <= text.len(),
    ensures
        0 <= decimal_value(text.take(n)) <= decimal_value(text),
    decreases text.len() - n,
{
    lemma_decimal_value_nonnegative(text.take(n));
    if n == text.len() {
        assert(text.take(n) =~= text);
    } else {
        lemma_decimal_value_grows(text, n + 1);
        let longer = text.take(n + 1);
        assert(longer.drop_last() =~= text.take(n));
        assert(longer.last() == text[n]);
        assert(is_digit(text[n]));
    }
}

proof fn lemma_decimal_value_nonnegative(text: Seq<char>)
    requires
        all_digits(text),
    ensures
        0 <= decimal_value(text),
    decreases text.len(),
{
    if text.len() > 0 {
        assert(is_digit(text[text.len() - 1]));
        lemma_decimal_value_nonnegative(text.drop_last());
    }
}

/// Reads an amount written in ASCII digits.
pub fn parse_amount(text: &str) -> (amount: Option<i32>)
    ensures
        match amount {
            Some(v) => spec_parse_amount(text@) == Some(v as int),
            None => spec_parse_amount(text@) is None,
        },
{
    let len = text.unicode_len();
    if len == 0 {
        return None;
    }
    let mut value: i64 = 0;
    let mut i: usize = 0;
    while i < len
        invariant
            i <= len,
            len == text@.len(),
            all_digits(text@.take(i as int)),
            value as int == decimal_value(text@.take(i as int)),
            0 <= value <= i32::MAX,
        decreases len - i,
    {
        let c = text.get_char(i);
        if !('0' <= c && c <= '9') {
            assert(!is_digit(text@[i as int]));
            return None;
        }
        let digit: i64 = (c as u32 - '0' as u32) as i64;
        proof {
            assert(text@.take(i as int + 1).drop_last() =~= text@.take(i as int));
            assert(text@.take(i as int + 1).last() == c);
            assert forall|k: int| 0 <= k < i + 1 implies is_digit(
                #[trigger] text@.take(i as int + 1)[k],
            ) by {
                if k < i {
                    assert(text@.take(i as int)[k] == text@[k]);
                }
            }
        }
        let next: i64 = value * 10 + digit;
        if next > i32::MAX as i64 {
            proof {
                if all_digits(text@) {
                    lemma_decimal_value_grows(text@, i as int + 1);
                }
            }
            return None;
        }
        value = next;
        i = i + 1;
    }
    proof {
        assert(text@.take(i as int) =~= text@);
    }
    Some(value as i32)
}

/// Why a server message did not yield a fuel shortfall.
#[derive(Debug, Clone, Copy, PartialEq, Eq, Structural)]
pub enum FuelMessageError {
    /// The pattern was refused by the matcher.
    PatternRefused,
    /// A match was found whose amount is no number that fits.
    Unreadable,
}

/// The pattern under which the server reports a fuel shortfall.
pub open spec fn fuel_pattern() -> Seq<char> {
    "You require (\\d+?) more FUEL"@
}

/// Every captured group is present and reads as an amount.
pub open spec fn all_amounts(groups: Seq<Option<Seq<char>>>) -> bool {
    forall|i: int|
        0 <= i < groups.len() ==> (#[trigger] groups[i] matches Some(text) && spec_parse_amount(
            text,
        ) is Some)
}

/// The shortfall that the captured amounts announce: the last of them, none
/// where nothing matched; an error where one of them cannot be read.
pub open spec fn spec_shortfall_from_groups(groups: Option<Seq<Option<Seq<char>>>>) -> Result<
    int,
    FuelMessageError,
> {
    match groups {
        None => Err(FuelMessageError::PatternRefused),
        Some(found) => if !all_amounts(found) {
            Err(FuelMessageError::Unreadable)
        } else if found.len() == 0 {
            Ok(0)
        } else {
            Ok(spec_parse_amount(found.last()->0)->0)
        },
    }
}

/// The shortfall as a plain integer result.
pub open spec fn shortfall_view(r: Result<i32, FuelMessageError>) -> Result<int, FuelMessageError> {
    match r {
        Ok(v) => Ok(v as int),
        Err(e) => Err(e),
    }
}

/// Reads the fuel shortfall out of the groups captured from a server message.
pub fn shortfall_from_groups(found: &Option<Vec<Option<String>>>) -> (shortfall: Result<
    i32,
    FuelMessageError,
>)
    ensures
        shortfall_view(shortfall) == spec_shortfall_from_groups(groups_view(*found)),
{
    match found {
        None => {
            assert(groups_view(*found) is None);
            Err(FuelMessageError::PatternRefused)
        },
        Some(groups) => {
            let ghost view = groups_view(*found)->0;
            assert(groups_view(*found) == Some(view));
            let mut last: i32 = 0;
            let mut i: usize = 0;
            while i < groups.len()
                invariant
                    i <= groups.len(),
                    groups_view(*found) == Some(view),
                    *found == Some(*groups),
                    view.len() == groups.len(),
                    forall|k: int|
                        0 <= k < i ==> (#[trigger] view[k] matches Some(text) && spec_parse_amount(
                            text,
                        ) is Some),
                    i > 0 ==> spec_parse_amount(view[i - 1]->0) == Some(last as int),
                    i == 0 ==> last == 0,
                decreases groups.len() - i,
            {
                match &groups[i] {
                    None => {
                        assert(view[i as int] is None);
                        assert(!all_amounts(view));
                        return Err(FuelMessageError::Unreadable);
                    },
                    Some(text) => {
                        assert(view[i as int] == Some(text@));
                        match parse_amount(text.as_str()) {
                            None => {
                                assert(spec_parse_amount(view[i as int]->0) is None);
                                assert(!all_amounts(view));
                                return Err(FuelMessageError::Unreadable);
                            },
                            Some(v) => {
                                last = v;
                            },
                        }
                    },
                }
                i = i + 1;
            }
            proof {
                assert(all_amounts(view));
                if view.len() > 0 {
                    assert(view.last() == view[i - 1]);
                }
            }
            Ok(last)
        },
    }
}

/// Reads the fuel shortfall out of a server message: the amount `N` of the
/// last place where the message says that `N` more fuel is required, and
/// nothing where it says so nowhere.
pub fn fuel_shortfall(message: &str) -> (shortfall: Result<i32, FuelMessageError>)
    ensures
        shortfall_view(shortfall) == spec_shortfall_from_groups(
            regex_first_groups(fuel_pattern(), message@),
        ),
{
    let found = first_groups("You require (\\d+?) more FUEL", message);
    shortfall_from_groups(&found)
}

} // verus!
