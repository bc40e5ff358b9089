//! The frame around the bars: a title line with the time, side borders, and
//! a status line with the day of the year.

use crate::calendar::{format_date_time, formatted_date_time, text_of};
use crate::text::{decimal_digits, push_decimal, push_repeated, repeated};
use crate::time_calculations::{
    day_of_year_of, get_current_day_of_year, get_current_year, ClockReading, TimeSnapshot,
};
use vstd::prelude::*;

verus! {

/// The title line as a `strftime` pattern: the time of day, then the
/// weekday, the month's name, the day and the year.
pub const FRAME_TITLE_PATTERN: &'static str = "%H:%M:%S - %A %B %d, %Y";

/// The rows between the title line and the status line.
pub const SIDE_BORDER_ROWS: usize = 7;

/// `text` in the middle of `width` columns: spaces on both sides, the odd
/// one on the right. A text that is at least that long stays as it is.
pub open spec fn centered(text: Seq<char>, width: nat) -> Seq<char> {
    if text.len() >= width {
        text
    } else {
        let padding = (width - text.len()) as nat;
        repeated(' ', padding / 2) + text + repeated(' ', (padding - padding / 2) as nat)
    }
}

/// A whole number in decimal, with a minus sign in front where it is negative.
pub open spec fn signed_decimal(n: int) -> Seq<char> {
    if n < 0 {
        seq!['-'] + decimal_digits((-n) as nat)
    } else {
        decimal_digits(n as nat)
    }
}

/// The status line before it is centred: the day of the year, the days that
/// are left of 365, and the year.
pub open spec fn status_text(day_of_year: int, year: int) -> Seq<char> {
    " It is day "@ + decimal_digits(day_of_year as nat) + " of 365 - "@ + decimal_digits(
        (365 - day_of_year) as nat,
    ) + " days remaining in "@ + signed_decimal(year)
}

/// One row of the side borders: a heavy vertical line at each end and
/// spaces between, `columns` characters in all where `columns` is two or
/// more, and the two lines alone where it is less.
pub open spec fn side_border_text(columns: nat) -> Seq<char> {
    seq!['\u{2503}'] + repeated(
        ' ',
        if columns >= 2 {
            (columns - 2) as nat
        } else {
            0
        },
    ) + seq!['\u{2503}']
}

/// The title of a reading under [`FRAME_TITLE_PATTERN`], from its local
/// date and time of day.
pub open spec fn title_text(reading: ClockReading) -> Option<Seq<char>> {
    formatted_date_time(
        reading.year as int,
        reading.month as int,
        reading.day as int,
        reading.hour as int,
        reading.minute as int,
        reading.second as int,
        FRAME_TITLE_PATTERN@,
    )
}

/// The rows of the frame from top to bottom: the centred title, the side
/// borders, and the centred status line.
pub open spec fn is_frame_of(
    rows: Seq<String>,
    title: Seq<char>,
    reading: ClockReading,
    columns: nat,
) -> bool {
    &&& rows.len() == SIDE_BORDER_ROWS + 2
    &&& rows[0]@ == centered(title, columns)
    &&& forall|i: int| 1 <= i <= SIDE_BORDER_ROWS ==> (#[trigger] rows[i])@ == side_border_text(columns)
    &&& rows[SIDE_BORDER_ROWS + 1]@ == centered(
        status_text(
            day_of_year_of(reading.utc_month as int, reading.utc_day as int),
            reading.utc_year as int,
        ),
        columns,
    )
}

/// Centres `text` in `width` columns.
pub fn center(text: &str, width: usize) -> (r: String)
    ensures
        r@ == centered(text@, width as nat),
{
    let len: usize = text.unicode_len();
    if len >= width {
        String::from_str(text)
    } else {
        let padding: usize = width - len;
        let mut r = String::new();
        push_repeated(&mut r, ' ', padding / 2);
        r.append(text);
        push_repeated(&mut r, ' ', padding - padding / 2);
        assert(r@ =~= centered(text@, width as nat));
        r
    }
}

/// Appends a whole number in decimal to `out`.
pub fn push_signed_decimal(out: &mut String, n: i32)
    ensures
        final(out)@ == old(out)@ + signed_decimal(n as int),
{
    if n < 0 {
        out.push('-');
        push_decimal(out, (-(n as i64)) as u128);
        assert(out@ =~= old(out)@ + signed_decimal(n as int));
    } else {
        push_decimal(out, n as u128);
    }
}

/// The title of the frame: the local date and time of the snapshot under
/// [`FRAME_TITLE_PATTERN`].
pub fn frame_title(now: &TimeSnapshot) -> (r: Option<String>)
    ensures
        text_of(r) == title_text(now@),
{
    let reading = now.reading();
    format_date_time(
        reading.year,
        reading.month,
        reading.day,
        reading.hour,
        reading.minute,
        reading.second,
        FRAME_TITLE_PATTERN,
    )
}

/// One row of the side borders for a window `columns` wide.
pub fn side_border(columns: usize) -> (r: String)
    ensures
        r@ == side_border_text(columns as nat),
{
    let mut r = String::new();
    r.push('\u{2503}');
    push_repeated(
        &mut r,
        ' ',
        if columns >= 2 {
            columns - 2
        } else {
            0
        },
    );
    r.push('\u{2503}');
    assert(r@ =~= side_border_text(columns as nat));
    r
}

/// The status line of a snapshot, centred in `columns` columns.
pub fn bottom_status(now: &TimeSnapshot, columns: usize) -> (r: String)
    ensures
        r@ == centered(
            status_text(
                day_of_year_of(now@.utc_month as int, now@.utc_day as int),
                now@.utc_year as int,
            ),
            columns as nat,
        ),
{
    let day_of_year: u32 = get_current_day_of_year(now);
    let year: i32 = get_current_year(now);
    let mut status_bar_data = String::from_str(" It is day ");
    push_decimal(&mut status_bar_data, day_of_year as u128);
    status_bar_data.append(" of 365 - ");
    push_decimal(&mut status_bar_data, (365 - day_of_year) as u128);
    status_bar_data.append(" days remaining in ");
    push_signed_decimal(&mut status_bar_data, year);
    assert(status_bar_data@ =~= status_text(day_of_year as int, year as int));
    center(status_bar_data.as_str(), columns)
}

/// The rows of the frame for a window `columns` wide, from top to bottom,
/// with `title` in the first row.
pub fn draw_frame(title: &str, now: &TimeSnapshot, columns: usize) -> (rows: Vec<String>)
    ensures
        is_frame_of(rows@, title@, now@, columns as nat),
{
    let mut rows: Vec<String> = Vec::new();
    rows.push(center(title, columns));
    let mut drawn: usize = 0;
    while drawn < SIDE_BORDER_ROWS
        invariant
            drawn <= SIDE_BORDER_ROWS,
            rows@.len() == drawn + 1,
            rows@[0]@ == centered(title@, columns as nat),
            forall|i: int| 1 <= i <= drawn ==> (#[trigger] rows@[i])@ == side_border_text(columns as nat),
        decreases SIDE_BORDER_ROWS - drawn,
    {
        rows.push(side_border(columns));
        drawn = drawn + 1;
    }
    rows.push(bottom_status(now, columns));
    rows
}

} // verus!
