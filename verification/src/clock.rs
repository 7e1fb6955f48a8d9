//! The time of day and the date, as the sentences carry them.

use crate::text::{all_plain, lemma_padded_is_plain, lemma_plain_concat, padded};
use chrono::Utc;
use vstd::prelude::*;

verus! {

/// Three numbers, each as two digits.
pub open spec fn three_pairs(first: nat, second: nat, third: nat) -> Seq<char> {
    padded(first, 2) + padded(second, 2) + padded(third, 2)
}

/// Whether `text` is a time of day as hours, minutes and seconds of two
/// digits each. The seconds reach 60 in a leap second.
pub open spec fn is_time_text(text: Seq<char>) -> bool {
    exists|hour: nat, minute: nat, second: nat|
        hour < 24 && minute < 60 && second <= 60 && text == #[trigger] three_pairs(
            hour,
            minute,
            second,
        )
}

/// Whether `text` is a date as day, month and year of the century, of two
/// digits each.
pub open spec fn is_date_text(text: Seq<char>) -> bool {
    exists|day: nat, month: nat, year: nat|
        1 <= day <= 31 && 1 <= month <= 12 && year < 100 && text == #[trigger] three_pairs(
            day,
            month,
            year,
        )
}

/// `Utc::now()` rendered by chrono's `format` with the pattern `%H%M%S`: the
/// hour, the minute and the second of the current time, each as two digits
/// with a zero in front where needed. Which time it is, is left open.
#[verifier::external_body]
pub(crate) fn utc_time_now() -> (text: String)
    ensures
        is_time_text(text@),
{
    Utc::now().format("%H%M%S").to_string()
}

/// `Utc::now()` rendered by chrono's `format` with the pattern `%d%m%y`: the
/// day of the month, the month and the year modulo 100 of the current date,
/// each as two digits with a zero in front where needed. Which date it is,
/// is left open.
#[verifier::external_body]
pub(crate) fn utc_date_now() -> (text: String)
    ensures
        is_date_text(text@),
{
    Utc::now().format("%d%m%y").to_string()
}

/// The texts of the clock can stand inside a sentence.
pub proof fn lemma_clock_text_is_plain(text: Seq<char>)
    requires
        is_time_text(text) || is_date_text(text),
    ensures
        all_plain(text),
{
    let (first, second, third) = if is_time_text(text) {
        choose|hour: nat, minute: nat, second: nat|
            hour < 24 && minute < 60 && second <= 60 && text == #[trigger] three_pairs(
                hour,
                minute,
                second,
            )
    } else {
        choose|day: nat, month: nat, year: nat|
            1 <= day <= 31 && 1 <= month <= 12 && year < 100 && text == #[trigger] three_pairs(
                day,
                month,
                year,
            )
    };
    lemma_padded_is_plain(first, 2);
    lemma_padded_is_plain(second, 2);
    lemma_padded_is_plain(third, 2);
    lemma_plain_concat(padded(first, 2), padded(second, 2));
    lemma_plain_concat(padded(first, 2) + padded(second, 2), padded(third, 2));
}

} // verus!
