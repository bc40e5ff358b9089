//! Progress bars: a percentage and a width turned into a row of filled and
//! empty glyphs with a two-decimal numeric label.

use crate::percentage::{Percentage, Ratio};
use crate::text::{
    decimal_digits, digit_char, digit_to_char, lemma_decimal_digits_len, padded_left,
    push_decimal, repeated,
};
use vstd::prelude::*;

verus! {

/// Columns of a bar window that are not part of the glyph region: three for
/// the label in front and fifteen for the distance to the numeric label.
pub const BAR_MARGIN: i32 = 18;

/// The fewest characters a numeric label has; shorter ones get zeros in front.
pub const LABEL_WIDTH: usize = 5;

/// One character cell of a bar.
#[derive(Clone, Copy, Debug, PartialEq, Eq, Structural)]
pub enum Glyph {
    Filled,
    Empty,
}

/// The character that shows a glyph on screen: a full block for a filled
/// cell, a light shade for an empty one.
pub open spec fn glyph_char(g: Glyph) -> char {
    match g {
        Glyph::Filled => '\u{2588}',
        Glyph::Empty => '\u{2591}',
    }
}

impl Glyph {
    /// The character that shows this glyph on screen.
    pub fn to_char(self) -> (c: char)
        ensures
            c == glyph_char(self),
    {
        match self {
            Glyph::Filled => '\u{2588}',
            Glyph::Empty => '\u{2591}',
        }
    }
}

/// One metric to draw: a percentage and the short label shown in front of it.
pub struct TimeProgressBar {
    pub percentage: Percentage,
    pub prefix: String,
}

impl TimeProgressBar {
    pub fn new(percentage: Percentage, prefix: String) -> (r: TimeProgressBar)
        ensures
            r.percentage == percentage,
            r.prefix == prefix,
    {
        TimeProgressBar { percentage, prefix }
    }
}

/// One drawn row: the label, the glyphs from left to right, and the
/// percentage written out.
pub struct RenderedBar {
    pub label: String,
    pub glyphs: Vec<Glyph>,
    pub numeric_label: String,
}

/// What a [`RenderedBar`] holds, as mathematical sequences.
pub struct RenderedBarView {
    pub label: Seq<char>,
    pub glyphs: Seq<Glyph>,
    pub numeric_label: Seq<char>,
}

impl View for RenderedBar {
    type V = RenderedBarView;

    open spec fn view(&self) -> RenderedBarView {
        RenderedBarView {
            label: self.label@,
            glyphs: self.glyphs@,
            numeric_label: self.numeric_label@,
        }
    }
}

/// The glyph in column `n` of a bar `width` columns wide: filled exactly when
/// `n / width * 100` is strictly below the percentage.
pub open spec fn glyph_at(percentage: Ratio, width: nat, n: nat) -> Glyph {
    if percentage.passes_column(n, width) {
        Glyph::Filled
    } else {
        Glyph::Empty
    }
}

/// The glyphs of a bar: one for each column from 1 to `width - 1`, in that
/// order; none where `width` is 0 or 1.
pub open spec fn bar_glyphs(percentage: Ratio, width: nat) -> Seq<Glyph> {
    Seq::new(
        if width >= 1 {
            (width - 1) as nat
        } else {
            0
        },
        |i: int| glyph_at(percentage, width, (i + 1) as nat),
    )
}

/// A number of hundredths written with two decimals: the whole part, a
/// point, and two digits.
pub open spec fn two_decimals(hundredths: nat) -> Seq<char> {
    decimal_digits(hundredths / 100).push('.').push(digit_char(hundredths / 10 % 10)).push(
        digit_char(hundredths % 10),
    )
}

/// The numeric label of a percentage: the value rounded to two decimals
/// (half to even), with zeros in front up to five characters. A longer text
/// is not cut.
pub open spec fn label_text(percentage: Ratio) -> Seq<char> {
    padded_left(two_decimals(percentage.hundredths()), LABEL_WIDTH as nat, '0')
}

/// The row that draws `percentage` under `label` in a bar `width` columns wide.
pub open spec fn rendered(label: Seq<char>, percentage: Ratio, width: nat) -> RenderedBarView {
    RenderedBarView {
        label,
        glyphs: bar_glyphs(percentage, width),
        numeric_label: label_text(percentage),
    }
}

/// The text that shows a row on screen: the label, one character per glyph,
/// a space, and the numeric label.
pub open spec fn row_text(bar: RenderedBarView) -> Seq<char> {
    bar.label + bar.glyphs.map_values(|g: Glyph| glyph_char(g)) + seq![' '] + bar.numeric_label
}

/// How many glyphs of `glyphs` are filled.
pub open spec fn filled_count(glyphs: Seq<Glyph>) -> nat
    decreases glyphs.len(),
{
    if glyphs.len() == 0 {
        0
    } else {
        filled_count(glyphs.drop_last()) + if glyphs.last() == Glyph::Filled {
            1nat
        } else {
            0nat
        }
    }
}

/// The width of the glyph region of a window `columns` wide: what is left
/// after the margin, and zero where the window is narrower than the margin.
pub open spec fn bar_width_of(columns: int) -> nat {
    if columns > BAR_MARGIN {
        (columns - BAR_MARGIN) as nat
    } else {
        0
    }
}

/// The width of the glyph region of a window `columns` wide.
pub fn bar_width(columns: i32) -> (width: u32)
    ensures
        width == bar_width_of(columns as int),
{
    if columns > BAR_MARGIN {
        (columns - BAR_MARGIN) as u32
    } else {
        0
    }
}

/// Writes a percentage with two decimals, zero-padded on the left to five
/// characters.
pub fn format_label(percentage: &Percentage) -> (label: String)
    ensures
        label@ == label_text(percentage@),
{
    let hundredths: u128 = percentage.hundredths();
    let whole: u128 = hundredths / 100;
    let mut label = String::new();
    if whole < 10 {
        label.push('0');
    }
    push_decimal(&mut label, whole);
    label.push('.');
    label.push(digit_to_char((hundredths / 10 % 10) as u8));
    label.push(digit_to_char((hundredths % 10) as u8));
    proof {
        let digits = decimal_digits(whole as nat);
        let plain = two_decimals(hundredths as nat);
        assert(plain.len() == digits.len() + 3);
        lemma_decimal_digits_len(whole as nat);
        if whole < 10 {
            assert(digits.len() == 1);
            assert(repeated('0', 1) =~= seq!['0']);
            assert(label@ =~= seq!['0'] + plain);
        } else {
            assert(label@ =~= plain);
        }
    }
    label
}

/// Draws one bar: the glyphs for columns 1 to `width - 1`, and the numeric
/// label. A `width` of 0 or 1 gives no glyphs.
pub fn render_bar(label: &str, percentage: &Percentage, width: u32) -> (bar: RenderedBar)
    ensures
        bar@ == rendered(label@, percentage@, width as nat),
{
    let mut glyphs: Vec<Glyph> = Vec::new();
    let mut n: u32 = 1;
    while n < width
        invariant
            1 <= n,
            n <= width || n == 1,
            glyphs@.len() == n - 1,
            forall|i: int|
                0 <= i < glyphs@.len() ==> glyphs@[i] == glyph_at(
                    percentage@,
                    width as nat,
                    (i + 1) as nat,
                ),
        decreases width - n,
    {
        if percentage.passes(n, width) {
            glyphs.push(Glyph::Filled);
        } else {
            glyphs.push(Glyph::Empty);
        }
        n = n + 1;
    }
    assert(glyphs@ =~= bar_glyphs(percentage@, width as nat));
    RenderedBar {
        label: String::from_str(label),
        glyphs,
        numeric_label: format_label(percentage),
    }
}

/// Draws every bar of `bars` at the same `width`, in the order given: the
/// row at index `i` is the bar at index `i`.
pub fn render_panel(bars: &Vec<TimeProgressBar>, width: u32) -> (rows: Vec<RenderedBar>)
    ensures
        rows@.len() == bars@.len(),
        forall|i: int|
            0 <= i < bars@.len() ==> (#[trigger] rows@[i])@ == rendered(
                bars@[i].prefix@,
                bars@[i].percentage@,
                width as nat,
            ),
{
    let mut rows: Vec<RenderedBar> = Vec::new();
    let mut i: usize = 0;
    while i < bars.len()
        invariant
            i <= bars@.len(),
            rows@.len() == i,
            forall|k: int|
                0 <= k < i ==> (#[trigger] rows@[k])@ == rendered(
                    bars@[k].prefix@,
                    bars@[k].percentage@,
                    width as nat,
                ),
        decreases bars@.len() - i,
    {
        let bar = &bars[i];
        rows.push(render_bar(bar.prefix.as_str(), &bar.percentage, width));
        i = i + 1;
    }
    rows
}

impl RenderedBar {
    /// The text that shows this row on screen.
    pub fn text(&self) -> (line: String)
        ensures
            line@ == row_text(self@),
    {
        let mut line = self.label.clone();
        let mut i: usize = 0;
        while i < self.glyphs.len()
            invariant
                i <= self.glyphs@.len(),
                line@ == self.label@ + self.glyphs@.take(i as int).map_values(
                    |g: Glyph| glyph_char(g),
                ),
            decreases self.glyphs@.len() - i,
        {
            line.push(self.glyphs[i].to_char());
            proof {
                let shown = |g: Glyph| glyph_char(g);
                assert(self.glyphs@.take(i + 1).map_values(shown) =~= self.glyphs@.take(
                    i as int,
                ).map_values(shown).push(glyph_char(self.glyphs@[i as int])));
            }
            i = i + 1;
        }
        assert(self.glyphs@.take(i as int) =~= self.glyphs@);
        line.push(' ');
        line.append(self.numeric_label.as_str());
        assert(line@ =~= row_text(self@));
        line
    }

    /// How many glyphs of this row are filled.
    pub fn filled(&self) -> (count: usize)
        ensures
            count == filled_count(self.glyphs@),
    {
        let mut count: usize = 0;
        let mut i: usize = 0;
        while i < self.glyphs.len()
            invariant
                i <= self.glyphs@.len(),
                count <= i,
                count == filled_count(self.glyphs@.take(i as int)),
            decreases self.glyphs@.len() - i,
        {
            proof {
                assert(self.glyphs@.take(i + 1).drop_last() =~= self.glyphs@.take(i as int));
            }
            if self.glyphs[i] == Glyph::Filled {
                count = count + 1;
            }
            i = i + 1;
        }
        assert(self.glyphs@.take(i as int) =~= self.glyphs@);
        count
    }
}

/// The bars of one window: every bar is drawn at the width that the window's
/// column count leaves for glyphs.
pub struct TimeProgressBarWindow {
    pub columns: i32,
    pub progress_bars: Vec<TimeProgressBar>,
}

impl TimeProgressBarWindow {
    /// A window `columns` wide that shows `progress_bars`, one per row.
    pub fn new(columns: i32, progress_bars: Vec<TimeProgressBar>) -> (r: TimeProgressBarWindow)
        ensures
            r.columns == columns,
            r.progress_bars == progress_bars,
    {
        TimeProgressBarWindow { columns, progress_bars }
    }

    /// The rows of the window from top to bottom: row `i` draws bar `i`.
    pub fn draw(&self) -> (rows: Vec<RenderedBar>)
        ensures
            rows@.len() == self.progress_bars@.len(),
            forall|i: int|
                0 <= i < self.progress_bars@.len() ==> (#[trigger] rows@[i])@ == rendered(
                    self.progress_bars@[i].prefix@,
                    self.progress_bars@[i].percentage@,
                    bar_width_of(self.columns as int),
                ),
    {
        render_panel(&self.progress_bars, bar_width(self.columns))
    }
}

/// The glyph at index `i` is filled.
pub open spec fn glyph_reached(glyphs: Seq<Glyph>, i: int) -> bool {
    glyphs[i] == Glyph::Filled
}

/// A percentage of zero fills no glyph.
pub proof fn lemma_zero_fills_nothing(percentage: Ratio, width: nat)
    requires
        percentage.elapsed == 0,
    ensures
        forall|i: int|
            0 <= i < bar_glyphs(percentage, width).len() ==> bar_glyphs(percentage, width)[i]
                == Glyph::Empty,
        filled_count(bar_glyphs(percentage, width)) == 0,
{
    let glyphs = bar_glyphs(percentage, width);
    assert forall|i: int| 0 <= i < glyphs.len() implies glyphs[i] == Glyph::Empty by {
        assert((i + 1) * percentage.span >= 0) by (nonlinear_arith)
            requires
                i >= 0,
        ;
        assert(percentage.elapsed * width == 0) by (nonlinear_arith)
            requires
                percentage.elapsed == 0,
        ;
    }
    lemma_filled_count_is_boundary(percentage, width);
    if glyphs.len() > 0 {
        assert(!glyph_reached(glyphs, 0));
    }
}

/// A percentage of one hundred or more fills every glyph.
pub proof fn lemma_whole_fills_everything(percentage: Ratio, width: nat)
    requires
        percentage.span > 0,
        percentage.elapsed >= percentage.span,
    ensures
        forall|i: int|
            0 <= i < bar_glyphs(percentage, width).len() ==> bar_glyphs(percentage, width)[i]
                == Glyph::Filled,
        filled_count(bar_glyphs(percentage, width)) == bar_glyphs(percentage, width).len(),
{
    let glyphs = bar_glyphs(percentage, width);
    assert forall|i: int| 0 <= i < glyphs.len() implies glyphs[i] == Glyph::Filled by {
        assert((i + 1) * percentage.span < percentage.elapsed * width) by (nonlinear_arith)
            requires
                0 <= i,
                i + 1 < width,
                percentage.span > 0,
                percentage.elapsed >= percentage.span,
        ;
    }
    lemma_filled_count_is_boundary(percentage, width);
    if glyphs.len() > 0 {
        assert(glyph_reached(glyphs, glyphs.len() - 1));
    }
}

/// A bar fills from the left: the glyphs to the left of a filled glyph are
/// filled too.
pub proof fn lemma_fill_is_a_prefix(percentage: Ratio, width: nat, i: int, j: int)
    requires
        0 <= i <= j < bar_glyphs(percentage, width).len(),
        bar_glyphs(percentage, width)[j] == Glyph::Filled,
    ensures
        bar_glyphs(percentage, width)[i] == Glyph::Filled,
{
    assert((i + 1) * percentage.span <= (j + 1) * percentage.span) by (nonlinear_arith)
        requires
            0 <= i <= j,
    ;
}

/// A higher percentage fills every glyph that a lower one fills.
pub proof fn lemma_fill_grows_with_percentage(lower: Ratio, higher: Ratio, width: nat, i: int)
    requires
        lower.span > 0,
        higher.span > 0,
        higher.at_least(lower),
        0 <= i < bar_glyphs(lower, width).len(),
        bar_glyphs(lower, width)[i] == Glyph::Filled,
    ensures
        bar_glyphs(higher, width)[i] == Glyph::Filled,
{
    let n = i + 1;
    assert(n * higher.span < higher.elapsed * width) by (nonlinear_arith)
        requires
            n * lower.span < lower.elapsed * width,
            lower.elapsed * higher.span <= higher.elapsed * lower.span,
            lower.span > 0,
            higher.span > 0,
            n >= 0,
    ;
}

/// Two percentages that are less than one column's share apart fill the
/// same number of glyphs, or the higher one fills one glyph more.
pub proof fn lemma_close_percentages_differ_by_one_glyph(lower: Ratio, higher: Ratio, width: nat)
    requires
        lower.span > 0,
        higher.span > 0,
        higher.at_least(lower),
        higher.within_a_column_above(lower, width),
    ensures
        filled_count(bar_glyphs(lower, width)) <= filled_count(bar_glyphs(higher, width))
            <= filled_count(bar_glyphs(lower, width)) + 1,
{
    let low = bar_glyphs(lower, width);
    let high = bar_glyphs(higher, width);
    let low_count = filled_count(low) as int;
    let high_count = filled_count(high) as int;
    lemma_filled_count_is_boundary(lower, width);
    lemma_filled_count_is_boundary(higher, width);
    if low_count > high_count {
        assert(glyph_reached(low, high_count));
        lemma_fill_grows_with_percentage(lower, higher, width, high_count);
        assert(glyph_reached(high, high_count));
    }
    if high_count > low_count + 1 {
        let i = high_count - 1;
        assert(glyph_reached(high, i));
        assert(!glyph_reached(low, i - 1));
        assert(false) by (nonlinear_arith)
            requires
                (i + 1) * higher.span < higher.elapsed * width,
                !(i * lower.span < lower.elapsed * width),
                (higher.elapsed * lower.span - lower.elapsed * higher.span) * width
                    <= higher.span * lower.span,
                lower.span > 0,
                higher.span > 0,
                i >= 0,
        ;
    }
}

/// The number of filled glyphs of a bar is the index of its first empty
/// glyph: the glyphs before it are filled, the others empty.
pub proof fn lemma_filled_count_is_boundary(percentage: Ratio, width: nat)
    ensures
        filled_count(bar_glyphs(percentage, width)) <= bar_glyphs(percentage, width).len(),
        forall|i: int|
            0 <= i < bar_glyphs(percentage, width).len() ==> (#[trigger] glyph_reached(
                bar_glyphs(percentage, width),
                i,
            ) <==> i < filled_count(bar_glyphs(percentage, width))),
{
    let glyphs = bar_glyphs(percentage, width);
    assert forall|i: int, j: int|
        #![trigger glyph_reached(glyphs, i), glyph_reached(glyphs, j)]
        0 <= i <= j < glyphs.len() && glyph_reached(glyphs, j) implies glyph_reached(glyphs, i) by {
        lemma_fill_is_a_prefix(percentage, width, i, j);
    }
    lemma_prefix_count(glyphs);
}

/// Where the glyphs to the left of a filled glyph are filled too, the
/// filled glyphs are the first ones, as many as the count says.
proof fn lemma_prefix_count(glyphs: Seq<Glyph>)
    requires
        forall|i: int, j: int|
            #![trigger glyph_reached(glyphs, i), glyph_reached(glyphs, j)]
            0 <= i <= j < glyphs.len() && glyph_reached(glyphs, j) ==> glyph_reached(glyphs, i),
    ensures
        filled_count(glyphs) <= glyphs.len(),
        forall|i: int|
            0 <= i < glyphs.len() ==> (#[trigger] glyph_reached(glyphs, i) <==> i < filled_count(
                glyphs,
            )),
    decreases glyphs.len(),
{
    if glyphs.len() > 0 {
        let shorter = glyphs.drop_last();
        let last = glyphs.len() - 1;
        assert forall|i: int, j: int|
            #![trigger glyph_reached(shorter, i), glyph_reached(shorter, j)]
            0 <= i <= j < shorter.len() && glyph_reached(shorter, j) implies glyph_reached(
            shorter,
            i,
        ) by {
            assert(glyph_reached(glyphs, j));
            assert(glyph_reached(glyphs, i));
        }
        lemma_prefix_count(shorter);
        assert forall|i: int| 0 <= i < glyphs.len() implies (#[trigger] glyph_reached(glyphs, i)
            <==> i < filled_count(glyphs)) by {
            if glyph_reached(glyphs, last) {
                if last > 0 {
                    assert(glyph_reached(glyphs, last - 1));
                    assert(glyph_reached(shorter, last - 1));
                }
                assert(glyph_reached(glyphs, i));
            } else if i < last {
                assert(glyph_reached(shorter, i) == glyph_reached(glyphs, i));
            }
        }
    }
}

/// A numeric label has at least five characters, and a point before the
/// last two of them.
pub proof fn lemma_label_shape(percentage: Ratio)
    ensures
        label_text(percentage).len() >= LABEL_WIDTH,
        label_text(percentage)[label_text(percentage).len() - 3] == '.',
{
    let hundredths = percentage.hundredths();
    lemma_decimal_digits_len(hundredths / 100);
}

} // verus!
