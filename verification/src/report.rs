//! The log line that reports a received response.

use vstd::prelude::*;
use vstd::string::{StrSliceExecFns, StringExecFns};
use crate::config::ELLIPSIS_LEN;

verus! {

/// The marker that ends a shortened URL.
pub open spec fn ellipsis() -> Seq<char> {
    seq![' ', '.', '.', '.']
}

/// A URL as it is logged under a budget of `budget` characters: unchanged
/// while it is shorter than the budget, else cut so that it fills the budget
/// exactly, the ellipsis marker included.
pub open spec fn sliced_url(url: Seq<char>, budget: nat) -> Seq<char> {
    if url.len() < budget {
        url
    } else {
        url.subrange(0, budget - ELLIPSIS_LEN) + ellipsis()
    }
}

/// The decimal digit of a number below ten.
pub open spec fn digit_char(digit: nat) -> char {
    if digit == 0 {
        '0'
    } else if digit == 1 {
        '1'
    } else if digit == 2 {
        '2'
    } else if digit == 3 {
        '3'
    } else if digit == 4 {
        '4'
    } else if digit == 5 {
        '5'
    } else if digit == 6 {
        '6'
    } else if digit == 7 {
        '7'
    } else if digit == 8 {
        '8'
    } else {
        '9'
    }
}

/// The decimal numeral of a number, without leading zeros.
pub open spec fn decimal(number: nat) -> Seq<char>
    decreases number,
{
    if number < 10 {
        seq![digit_char(number)]
    } else {
        decimal(number / 10).push(digit_char(number % 10))
    }
}

/// The line logged for the response numbered `counter`.
pub open spec fn response_line(counter: nat, url: Seq<char>, budget: nat) -> Seq<char> {
    decimal(counter) + seq![':', ' '] + sliced_url(url, budget)
}

/// A logged URL never exceeds the budget, and fills it exactly once the URL
/// reaches it.
pub proof fn lemma_sliced_url_len(url: Seq<char>, budget: nat)
    requires
        budget >= ELLIPSIS_LEN,
    ensures
        sliced_url(url, budget).len() <= budget,
        url.len() < budget ==> sliced_url(url, budget) == url,
        url.len() >= budget ==> sliced_url(url, budget).len() == budget,
        url.len() >= budget ==> sliced_url(url, budget).subrange(0, budget - ELLIPSIS_LEN)
            == url.subrange(0, budget - ELLIPSIS_LEN),
        url.len() >= budget ==> sliced_url(url, budget).subrange(
            budget - ELLIPSIS_LEN,
            budget as int,
        ) == ellipsis(),
{
}

/// Shortening a URL that was already shortened changes nothing.
pub proof fn lemma_sliced_url_idempotent(url: Seq<char>, budget: nat)
    requires
        budget >= ELLIPSIS_LEN,
    ensures
        sliced_url(sliced_url(url, budget), budget) == sliced_url(url, budget),
{
}

/// Shortens a URL to the budget.
pub fn slice_url(url: &str, max_string_size: usize) -> (sliced: String)
    requires
        max_string_size >= ELLIPSIS_LEN,
    ensures
        sliced@ == sliced_url(url@, max_string_size as nat),
        sliced@.len() <= max_string_size,
{
    if url.unicode_len() < max_string_size {
        String::from_str(url)
    } else {
        let mut sliced = String::from_str(url.substring_char(0, max_string_size - ELLIPSIS_LEN));
        sliced.append(" ...");
        proof {
            reveal_strlit(" ...");
        }
        sliced
    }
}

/// The numeral of one decimal digit.
fn digit_str(digit: u64) -> (numeral: &'static str)
    requires
        digit < 10,
    ensures
        numeral@ == seq![digit_char(digit as nat)],
{
    proof {
        reveal_strlit("0");
        reveal_strlit("1");
        reveal_strlit("2");
        reveal_strlit("3");
        reveal_strlit("4");
        reveal_strlit("5");
        reveal_strlit("6");
        reveal_strlit("7");
        reveal_strlit("8");
        reveal_strlit("9");
    }
    match digit {
        0 => "0",
        1 => "1",
        2 => "2",
        3 => "3",
        4 => "4",
        5 => "5",
        6 => "6",
        7 => "7",
        8 => "8",
        _ => "9",
    }
}

/// Appends the decimal numeral of `number` to `text`.
pub fn push_decimal(text: &mut String, number: u64)
    ensures
        final(text)@ == old(text)@ + decimal(number as nat),
    decreases number,
{
    if number >= 10 {
        push_decimal(text, number / 10);
    }
    text.append(digit_str(number % 10));
}

/// Formats the line logged for the response numbered `counter`.
pub fn format_response_line(counter: u64, url: &str, max_string_size: usize) -> (line: String)
    requires
        max_string_size >= ELLIPSIS_LEN,
    ensures
        line@ == response_line(counter as nat, url@, max_string_size as nat),
{
    let mut line = String::new();
    push_decimal(&mut line, counter);
    line.append(": ");
    let sliced = slice_url(url, max_string_size);
    line.append(sliced.as_str());
    proof {
        reveal_strlit(": ");
    }
    line
}

} // verus!
