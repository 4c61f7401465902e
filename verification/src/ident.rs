//! Identifiers for the user interface: the wall clock's milliseconds since
//! the Unix epoch, written in base ten.
//!
//! Such an identifier is no UUID. Two readings of the clock within one
//! millisecond give the same text; readings a millisecond or more apart give
//! different texts, the later one denoting the larger number.

use std::time::{Duration, SystemTime, SystemTimeError, UNIX_EPOCH};
use vstd::prelude::*;

verus! {

/// `std::time::SystemTime`, a moment of the wall clock, carried through as
/// it is.
#[verifier::external_type_specification]
#[verifier::external_body]
pub struct ExSystemTime(SystemTime);

/// `std::time::SystemTimeError`, which says that a moment lies before
/// another; nothing is read from it.
#[verifier::external_type_specification]
#[verifier::external_body]
pub struct ExSystemTimeError(SystemTimeError);

/// `std::time::SystemTime::now` reads the wall clock; nothing is claimed of
/// the moment it gives.
pub assume_specification[ SystemTime::now ]() -> (now: SystemTime)
;

/// Calls `std::time::SystemTime::duration_since` with the Unix epoch as the
/// earlier moment. It fails for a moment before the epoch; the answer depends
/// on the moment alone and is the one `elapsed_since_epoch` names.
#[verifier::external_body]
fn since_unix_epoch(moment: &SystemTime) -> (elapsed: Result<Duration, SystemTimeError>)
    ensures
        elapsed == elapsed_since_epoch(*moment),
{
    moment.duration_since(UNIX_EPOCH)
}

/// `std::time::Duration::as_millis` gives a duration's whole milliseconds,
/// the number `whole_millis` names.
pub assume_specification[ Duration::as_millis ](duration: &Duration) -> (millis: u128)
    ensures
        millis == whole_millis(*duration),
;

/// The character that writes the digit `d`.
pub open spec fn digit_char(d: nat) -> char
    recommends
        d < 10,
{
    if d == 0 {
        '0'
    } else if d == 1 {
        '1'
    } else if d == 2 {
        '2'
    } else if d == 3 {
        '3'
    } else if d == 4 {
        '4'
    } else if d == 5 {
        '5'
    } else if d == 6 {
        '6'
    } else if d == 7 {
        '7'
    } else if d == 8 {
        '8'
    } else {
        '9'
    }
}

/// Whether `c` is one of the ten digits.
pub open spec fn is_digit(c: char) -> bool {
    exists|d: nat| d < 10 && c == #[trigger] digit_char(d)
}

/// The digit that `c` writes; zero for any other character.
pub open spec fn digit_value(c: char) -> nat {
    if c == '1' {
        1
    } else if c == '2' {
        2
    } else if c == '3' {
        3
    } else if c == '4' {
        4
    } else if c == '5' {
        5
    } else if c == '6' {
        6
    } else if c == '7' {
        7
    } else if c == '8' {
        8
    } else if c == '9' {
        9
    } else {
        0
    }
}

/// The number `n` in base ten: its digits, most significant first, with no
/// sign, no separator and no leading zero (zero itself is "0").
pub open spec fn decimal_text(n: nat) -> Seq<char>
    decreases n,
{
    if n < 10 {
        seq![digit_char(n)]
    } else {
        decimal_text(n / 10).push(digit_char(n % 10))
    }
}

/// The number that a text of digits denotes in base ten.
pub open spec fn decimal_value(text: Seq<char>) -> nat
    decreases text.len(),
{
    if text.len() == 0 {
        0
    } else {
        decimal_value(text.drop_last()) * 10 + digit_value(text.last())
    }
}

/// Whether `text` is a number written the way `decimal_text` writes it: at
/// least one character, digits only, and a leading zero only for "0".
pub open spec fn is_numeric_text(text: Seq<char>) -> bool {
    &&& text.len() >= 1
    &&& forall|i: int| 0 <= i < text.len() ==> is_digit(#[trigger] text[i])
    &&& text[0] == '0' ==> text.len() == 1
}

/// The identifier for a clock reading of `millis` milliseconds since the
/// Unix epoch.
pub open spec fn id_text(millis: u128) -> Seq<char> {
    decimal_text(millis as nat)
}

/// The text of a single digit.
fn digit_text(d: u8) -> (text: &'static str)
    requires
        d < 10,
    ensures
        text@ == seq![digit_char(d as nat)],
{
    proof {
        reveal_strlit("0");
        reveal_strlit("1");
        reveal_strlit("2");
        reveal_strlit("3");
        reveal_strlit("4");
        reveal_strlit("5");
        reveal_strlit("6");
        reveal_strlit("7");
        reveal_strlit("8");
        reveal_strlit("9");
    }
    let text = if d == 0 {
        "0"
    } else if d == 1 {
        "1"
    } else if d == 2 {
        "2"
    } else if d == 3 {
        "3"
    } else if d == 4 {
        "4"
    } else if d == 5 {
        "5"
    } else if d == 6 {
        "6"
    } else if d == 7 {
        "7"
    } else if d == 8 {
        "8"
    } else {
        "9"
    };
    assert(text@ =~= seq![digit_char(d as nat)]);
    text
}

/// Appends `n` in base ten to `text`.
fn write_decimal(n: u128, text: &mut String)
    ensures
        final(text)@ == old(text)@ + decimal_text(n as nat),
    decreases n,
{
    if n >= 10 {
        write_decimal(n / 10, text);
    }
    let d: u8 = (n % 10) as u8;
    text.append(digit_text(d));
    proof {
        if n >= 10 {
            assert(old(text)@ + decimal_text((n / 10) as nat) + seq![digit_char((n % 10) as nat)]
                =~= old(text)@ + decimal_text((n / 10) as nat).push(
                digit_char((n % 10) as nat),
            ));
        }
    }
}

/// Spells the identifier for a clock reading of `millis` milliseconds since
/// the Unix epoch.
pub fn id_from_millis(millis: u128) -> (id: String)
    ensures
        id@ == id_text(millis),
{
    let mut id = String::new();
    write_decimal(millis, &mut id);
    assert(id@ =~= id_text(millis));
    id
}

/// Reads the wall clock once and spells the moment it gave, as
/// `id_of_moment` does: the moment's whole milliseconds since the Unix epoch
/// in base ten, or nothing for a moment before the epoch. Which moment the
/// clock gives is not stated.
pub fn generate_id() -> (id: Option<String>)
    ensures
        exists|moment: SystemTime| spelled(id) == #[trigger] id_at(moment),
        id matches Some(text) ==> exists|millis: u128| text@ == #[trigger] id_text(millis),
        id matches Some(text) ==> is_numeric_text(text@),
{
    let now = SystemTime::now();
    let id = id_of_moment(&now);
    proof {
        if let Ok(elapsed) = elapsed_since_epoch(now) {
            assert(id->0@ == id_text(whole_millis(elapsed)));
        }
    }
    id
}

/// What `std::time::SystemTime::duration_since` gives for a moment and the
/// Unix epoch: the time elapsed since the epoch, or an error for a moment
/// before it.
pub uninterp spec fn elapsed_since_epoch(moment: SystemTime) -> Result<Duration, SystemTimeError>;

/// The whole milliseconds that `std::time::Duration::as_millis` gives for a
/// duration.
pub uninterp spec fn whole_millis(duration: Duration) -> u128;

/// An identifier, or its absence, as characters.
pub open spec fn spelled(id: Option<String>) -> Option<Seq<char>> {
    match id {
        Some(text) => Some(text@),
        None => None,
    }
}

/// The identifier for a moment of the wall clock: its whole milliseconds
/// since the Unix epoch in base ten; none for a moment before the epoch.
pub open spec fn id_at(moment: SystemTime) -> Option<Seq<char>> {
    match elapsed_since_epoch(moment) {
        Ok(elapsed) => Some(id_text(whole_millis(elapsed))),
        Err(_) => None,
    }
}

/// Spells the identifier for `moment`. A moment at or after the Unix epoch
/// has one, a number in base ten; a moment before it has none.
pub fn id_of_moment(moment: &SystemTime) -> (id: Option<String>)
    ensures
        spelled(id) == id_at(*moment),
        id is Some <==> elapsed_since_epoch(*moment) is Ok,
        id matches Some(text) ==> is_numeric_text(text@),
{
    match since_unix_epoch(moment) {
        Ok(elapsed) => {
            let millis = elapsed.as_millis();
            let text = id_from_millis(millis);
            proof {
                lemma_decimal_text_is_numeric(millis as nat);
            }
            Some(text)
        },
        Err(_) => None,
    }
}

/// Every digit is written by a digit character that reads back as it.
pub proof fn lemma_digit_round_trip(d: nat)
    requires
        d < 10,
    ensures
        is_digit(digit_char(d)),
        digit_value(digit_char(d)) == d,
{
}

/// Reading a number's text gives the number back.
pub proof fn lemma_decimal_round_trip(n: nat)
    ensures
        decimal_value(decimal_text(n)) == n,
    decreases n,
{
    let text = decimal_text(n);
    if n < 10 {
        assert(text.drop_last().len() == 0);
        assert(decimal_value(text.drop_last()) == 0);
        assert(text.last() == digit_char(n));
        assert(digit_value(digit_char(n)) == n);
    } else {
        lemma_decimal_round_trip(n / 10);
        assert(text.drop_last() =~= decimal_text(n / 10));
        assert(text.last() == digit_char(n % 10));
        assert(digit_value(digit_char(n % 10)) == n % 10);
        assert(decimal_value(text) == decimal_value(text.drop_last()) * 10 + digit_value(
            text.last(),
        ));
    }
}

/// A number's text holds digits only, at least one, and starts with a zero
/// only if the number is zero.
pub proof fn lemma_decimal_text_is_numeric(n: nat)
    ensures
        is_numeric_text(decimal_text(n)),
        decimal_text(n)[0] == '0' <==> n == 0,
    decreases n,
{
    if n < 10 {
        lemma_digit_round_trip(n);
    } else {
        lemma_decimal_text_is_numeric(n / 10);
        lemma_digit_round_trip(n % 10);
        let shorter = decimal_text(n / 10);
        let text = decimal_text(n);
        assert(text[0] == shorter[0]);
        assert forall|i: int| 0 <= i < text.len() implies is_digit(#[trigger] text[i]) by {
            if i < shorter.len() {
                assert(text[i] == shorter[i]);
            }
        }
    }
}

/// Two clock readings a millisecond or more apart give distinct identifiers,
/// each a number in base ten, and the later identifier denotes the larger
/// number.
pub proof fn lemma_later_id_differs_and_is_not_smaller(earlier: u128, later: u128)
    requires
        earlier < later,
    ensures
        id_text(earlier) != id_text(later),
        is_numeric_text(id_text(earlier)),
        is_numeric_text(id_text(later)),
        decimal_value(id_text(earlier)) == earlier,
        decimal_value(id_text(later)) == later,
        decimal_value(id_text(earlier)) <= decimal_value(id_text(later)),
{
    lemma_decimal_round_trip(earlier as nat);
    lemma_decimal_round_trip(later as nat);
    lemma_decimal_text_is_numeric(earlier as nat);
    lemma_decimal_text_is_numeric(later as nat);
}

} // verus!
