//! Large seven-row glyph art for the clock digits, and the builder that
//! lays a full time display out of them.

use vstd::prelude::*;
use crate::clock::TimeFormat;

verus! {

/// One row of the large glyph for a decimal digit (the digit is folded
/// modulo ten), seven rows tall and six columns wide.
pub open spec fn spec_digit_row(d: int, row: int) -> Seq<char> {

    if d % 10 == 0 {
        if row == 0 { " ████ "@ }
        else if row == 1 { "██  ██"@ }
        else if row == 2 { "██  ██"@ }
        else if row == 3 { "██  ██"@ }
        else if row == 4 { "██  ██"@ }
        else if row == 5 { "██  ██"@ }
        else { " ████ "@ }
    } else if d % 10 == 1 {
        if row == 0 { "  ██  "@ }
        else if row == 1 { " ███  "@ }
        else if row == 2 { "  ██  "@ }
        else if row == 3 { "  ██  "@ }
        else if row == 4 { "  ██  "@ }
        else if row == 5 { "  ██  "@ }
        else { " ████ "@ }
    } else if d % 10 == 2 {
        if row == 0 { " ████ "@ }
        else if row == 1 { "██  ██"@ }
        else if row == 2 { "    ██"@ }
        else if row == 3 { "  ██  "@ }
        else if row == 4 { " ██   "@ }
        else if row == 5 { "██    "@ }
        else { "██████"@ }
    } else if d % 10 == 3 {
        if row == 0 { " ████ "@ }
        else if row == 1 { "██  ██"@ }
        else if row == 2 { "    ██"@ }
        else if row == 3 { "  ███ "@ }
        else if row == 4 { "    ██"@ }
        else if row == 5 { "██  ██"@ }
        else { " ████ "@ }
    } else if d % 10 == 4 {
        if row == 0 { "██  ██"@ }
        else if row == 1 { "██  ██"@ }
        else if row == 2 { "██  ██"@ }
        else if row == 3 { "██████"@ }
        else if row == 4 { "    ██"@ }
        else if row == 5 { "    ██"@ }
        else { "    ██"@ }
    } else if d % 10 == 5 {
        if row == 0 { "██████"@ }
        else if row == 1 { "██    "@ }
        else if row == 2 { "██    "@ }
        else if row == 3 { "█████ "@ }
        else if row == 4 { "    ██"@ }
        else if row == 5 { "██  ██"@ }
        else { " ████ "@ }
    } else if d % 10 == 6 {
        if row == 0 { " ████ "@ }
        else if row == 1 { "██    "@ }
        else if row == 2 { "██    "@ }
        else if row == 3 { "█████ "@ }
        else if row == 4 { "██  ██"@ }
        else if row == 5 { "██  ██"@ }
        else { " ████ "@ }
    } else if d % 10 == 7 {
        if row == 0 { "██████"@ }
        else if row == 1 { "    ██"@ }
        else if row == 2 { "   ██ "@ }
        else if row == 3 { "  ██  "@ }
        else if row == 4 { "  ██  "@ }
        else if row == 5 { "  ██  "@ }
        else { "  ██  "@ }
    } else if d % 10 == 8 {
        if row == 0 { " ████ "@ }
        else if row == 1 { "██  ██"@ }
        else if row == 2 { "██  ██"@ }
        else if row == 3 { " ████ "@ }
        else if row == 4 { "██  ██"@ }
        else if row == 5 { "██  ██"@ }
        else { " ████ "@ }
    } else if d % 10 == 9 {
        if row == 0 { " ████ "@ }
        else if row == 1 { "██  ██"@ }
        else if row == 2 { "██  ██"@ }
        else if row == 3 { " █████"@ }
        else if row == 4 { "    ██"@ }
        else if row == 5 { "    ██"@ }
        else { " ████ "@ }
    } else {
        Seq::empty()
    }
}

pub fn digit_row(d: u32, row: u32) -> (r: &'static str)
    requires
        row < 7,
    ensures
        r@ == spec_digit_row(d as int, row as int),
{
    let k = d % 10;

    if k == 0 {
        if row == 0 { " ████ " }
        else if row == 1 { "██  ██" }
        else if row == 2 { "██  ██" }
        else if row == 3 { "██  ██" }
        else if row == 4 { "██  ██" }
        else if row == 5 { "██  ██" }
        else { " ████ " }
    } else if k == 1 {
        if row == 0 { "  ██  " }
        else if row == 1 { " ███  " }
        else if row == 2 { "  ██  " }
        else if row == 3 { "  ██  " }
        else if row == 4 { "  ██  " }
        else if row == 5 { "  ██  " }
        else { " ████ " }
    } else if k == 2 {
        if row == 0 { " ████ " }
        else if row == 1 { "██  ██" }
        else if row == 2 { "    ██" }
        else if row == 3 { "  ██  " }
        else if row == 4 { " ██   " }
        else if row == 5 { "██    " }
        else { "██████" }
    } else if k == 3 {
        if row == 0 { " ████ " }
        else if row == 1 { "██  ██" }
        else if row == 2 { "    ██" }
        else if row == 3 { "  ███ " }
        else if row == 4 { "    ██" }
        else if row == 5 { "██  ██" }
        else { " ████ " }
    } else if k == 4 {
        if row == 0 { "██  ██" }
        else if row == 1 { "██  ██" }
        else if row == 2 { "██  ██" }
        else if row == 3 { "██████" }
        else if row == 4 { "    ██" }
        else if row == 5 { "    ██" }
        else { "    ██" }
    } else if k == 5 {
        if row == 0 { "██████" }
        else if row == 1 { "██    " }
        else if row == 2 { "██    " }
        else if row == 3 { "█████ " }
        else if row == 4 { "    ██" }
        else if row == 5 { "██  ██" }
        else { " ████ " }
    } else if k == 6 {
        if row == 0 { " ████ " }
        else if row == 1 { "██    " }
        else if row == 2 { "██    " }
        else if row == 3 { "█████ " }
        else if row == 4 { "██  ██" }
        else if row == 5 { "██  ██" }
        else { " ████ " }
    } else if k == 7 {
        if row == 0 { "██████" }
        else if row == 1 { "    ██" }
        else if row == 2 { "   ██ " }
        else if row == 3 { "  ██  " }
        else if row == 4 { "  ██  " }
        else if row == 5 { "  ██  " }
        else { "  ██  " }
    } else if k == 8 {
        if row == 0 { " ████ " }
        else if row == 1 { "██  ██" }
        else if row == 2 { "██  ██" }
        else if row == 3 { " ████ " }
        else if row == 4 { "██  ██" }
        else if row == 5 { "██  ██" }
        else { " ████ " }
    } else {
        if row == 0 { " ████ " }
        else if row == 1 { "██  ██" }
        else if row == 2 { "██  ██" }
        else if row == 3 { " █████" }
        else if row == 4 { "    ██" }
        else if row == 5 { "    ██" }
        else { " ████ " }
    }
}

/// One row of the colon separator, seven rows tall and two columns wide.
pub open spec fn spec_colon_row(row: int) -> Seq<char> {

    if row == 0 { "  "@ }
    else if row == 1 { "██"@ }
    else if row == 2 { "  "@ }
    else if row == 3 { "  "@ }
    else if row == 4 { "  "@ }
    else if row == 5 { "██"@ }
    else { "  "@ }
}

pub fn colon_row(row: u32) -> (r: &'static str)
    requires
        row < 7,
    ensures
        r@ == spec_colon_row(row as int),
{

    if row == 0 { "  " }
    else if row == 1 { "██" }
    else if row == 2 { "  " }
    else if row == 3 { "  " }
    else if row == 4 { "  " }
    else if row == 5 { "██" }
    else { "  " }
}

/// One row of the large letter A.
pub open spec fn spec_letter_a_row(row: int) -> Seq<char> {

    if row == 0 { " ████ "@ }
    else if row == 1 { "██  ██"@ }
    else if row == 2 { "██  ██"@ }
    else if row == 3 { "██████"@ }
    else if row == 4 { "██  ██"@ }
    else if row == 5 { "██  ██"@ }
    else { "██  ██"@ }
}

pub fn letter_a_row(row: u32) -> (r: &'static str)
    requires
        row < 7,
    ensures
        r@ == spec_letter_a_row(row as int),
{

    if row == 0 { " ████ " }
    else if row == 1 { "██  ██" }
    else if row == 2 { "██  ██" }
    else if row == 3 { "██████" }
    else if row == 4 { "██  ██" }
    else if row == 5 { "██  ██" }
    else { "██  ██" }
}

/// One row of the large letter P.
pub open spec fn spec_letter_p_row(row: int) -> Seq<char> {

    if row == 0 { "█████ "@ }
    else if row == 1 { "██  ██"@ }
    else if row == 2 { "██  ██"@ }
    else if row == 3 { "█████ "@ }
    else if row == 4 { "██    "@ }
    else if row == 5 { "██    "@ }
    else { "██    "@ }
}

pub fn letter_p_row(row: u32) -> (r: &'static str)
    requires
        row < 7,
    ensures
        r@ == spec_letter_p_row(row as int),
{

    if row == 0 { "█████ " }
    else if row == 1 { "██  ██" }
    else if row == 2 { "██  ██" }
    else if row == 3 { "█████ " }
    else if row == 4 { "██    " }
    else if row == 5 { "██    " }
    else { "██    " }
}

/// One row of the large letter M.
pub open spec fn spec_letter_m_row(row: int) -> Seq<char> {

    if row == 0 { "██   ██"@ }
    else if row == 1 { "███ ███"@ }
    else if row == 2 { "███████"@ }
    else if row == 3 { "██ █ ██"@ }
    else if row == 4 { "██   ██"@ }
    else if row == 5 { "██   ██"@ }
    else { "██   ██"@ }
}

pub fn letter_m_row(row: u32) -> (r: &'static str)
    requires
        row < 7,
    ensures
        r@ == spec_letter_m_row(row as int),
{

    if row == 0 { "██   ██" }
    else if row == 1 { "███ ███" }
    else if row == 2 { "███████" }
    else if row == 3 { "██ █ ██" }
    else if row == 4 { "██   ██" }
    else if row == 5 { "██   ██" }
    else { "██   ██" }
}

/// One full row of the time display: the six time digits with colons
/// between the pairs, and, in twelve-hour format, the AM or PM marker.
pub open spec fn spec_time_art_line(
    time_format: TimeFormat,
    hours: int,
    minutes: int,
    seconds: int,
    is_pm: bool,
    row: int,
) -> Seq<char> {
    let core = spec_digit_row(hours / 10, row) + " "@ + spec_digit_row(hours % 10, row) + " "@
        + spec_colon_row(row) + " "@ + spec_digit_row(minutes / 10, row) + " "@
        + spec_digit_row(minutes % 10, row) + " "@ + spec_colon_row(row) + " "@
        + spec_digit_row(seconds / 10, row) + " "@ + spec_digit_row(seconds % 10, row);
    if time_format == TimeFormat::TwelveHour {
        core + "  "@ + (if is_pm {
            spec_letter_p_row(row)
        } else {
            spec_letter_a_row(row)
        }) + spec_letter_m_row(row)
    } else {
        core
    }
}

/// Build the large glyph-art time display: seven strings, one per row.
pub fn build_time_art(
    time_format: TimeFormat,
    hours: u32,
    minutes: u32,
    seconds: u32,
    is_pm: bool,
) -> (lines: Vec<String>)
    requires
        hours < 100,
        minutes < 100,
        seconds < 100,
    ensures
        lines@.len() == 7,
        forall|r: int| 0 <= r < 7 ==> #[trigger] lines@[r]@ == spec_time_art_line(
            time_format,
            hours as int,
            minutes as int,
            seconds as int,
            is_pm,
            r,
        ),
{
    let h1 = hours / 10;
    let h2 = hours % 10;
    let m1 = minutes / 10;
    let m2 = minutes % 10;
    let s1 = seconds / 10;
    let s2 = seconds % 10;

    let mut lines: Vec<String> = Vec::new();

    for row in 0..7u32
        invariant
            lines@.len() == row,
            h1 == hours / 10 && h2 == hours % 10,
            m1 == minutes / 10 && m2 == minutes % 10,
            s1 == seconds / 10 && s2 == seconds % 10,
            forall|r: int| 0 <= r < row ==> #[trigger] lines@[r]@ == spec_time_art_line(
                time_format,
                hours as int,
                minutes as int,
                seconds as int,
                is_pm,
                r,
            ),
    {
        let mut line = String::new();
        line.append(digit_row(h1, row));
        line.append(" ");
        line.append(digit_row(h2, row));
        line.append(" ");
        line.append(colon_row(row));
        line.append(" ");
        line.append(digit_row(m1, row));
        line.append(" ");
        line.append(digit_row(m2, row));
        line.append(" ");
        line.append(colon_row(row));
        line.append(" ");
        line.append(digit_row(s1, row));
        line.append(" ");
        line.append(digit_row(s2, row));

        if matches!(time_format, TimeFormat::TwelveHour) {
            line.append("  ");
            if is_pm {
                line.append(letter_p_row(row));
            } else {
                line.append(letter_a_row(row));
            }
            line.append(letter_m_row(row));
        }

        proof {
            assert(line@ =~= spec_time_art_line(
                time_format,
                hours as int,
                minutes as int,
                seconds as int,
                is_pm,
                row as int,
            ));
        }
        lines.push(line);
    }
    lines
}

} // verus!
