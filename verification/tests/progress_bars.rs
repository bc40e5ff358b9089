use time_progress::percentage::Percentage;
use time_progress::progress_bars::{
    bar_width, format_label, render_bar, render_panel, Glyph, TimeProgressBar,
    TimeProgressBarWindow,
};

fn percent(elapsed: u64, span: u64) -> Percentage {
    Percentage::new(elapsed, span).unwrap()
}

fn as_float(p: &Percentage) -> f64 {
    p.elapsed() as f64 / p.span() as f64 * 100.0
}

fn float_label(value: f64) -> String {
    format!("{:0>5}", format!("{:.2}", value))
}

#[test]
fn percentage_of_an_empty_span_does_not_exist() {
    assert!(Percentage::new(0, 0).is_none());
    assert!(Percentage::new(7, 0).is_none());
    let p = percent(7, 9);
    assert_eq!(p.elapsed(), 7);
    assert_eq!(p.span(), 9);
}

#[test]
fn zero_percent_at_width_ten_is_all_empty() {
    let bar = render_bar(" M ", &percent(0, 100), 10);
    assert_eq!(bar.glyphs, vec![Glyph::Empty; 9]);
    assert_eq!(bar.filled(), 0);
    assert_eq!(bar.numeric_label, "00.00");
}

#[test]
fn one_hundred_percent_at_width_ten_is_all_filled() {
    let bar = render_bar(" M ", &percent(100, 100), 10);
    assert_eq!(bar.glyphs, vec![Glyph::Filled; 9]);
    assert_eq!(bar.filled(), 9);
    assert_eq!(bar.numeric_label, "100.00");
}

#[test]
fn fifty_percent_at_width_ten_fills_four_glyphs() {
    let bar = render_bar(" D ", &percent(50, 100), 10);
    assert_eq!(bar.glyphs.len(), 9);
    assert_eq!(bar.filled(), 4);
    assert_eq!(
        bar.glyphs,
        vec![
            Glyph::Filled,
            Glyph::Filled,
            Glyph::Filled,
            Glyph::Filled,
            Glyph::Empty,
            Glyph::Empty,
            Glyph::Empty,
            Glyph::Empty,
            Glyph::Empty,
        ]
    );
}

#[test]
fn just_above_fifty_percent_fills_the_fifth_glyph() {
    let bar = render_bar(" D ", &percent(50_001, 100_000), 10);
    assert_eq!(bar.filled(), 5);
}

#[test]
fn above_one_hundred_percent_saturates() {
    let bar = render_bar(" Y ", &percent(31_600_000, 31_536_000), 25);
    assert_eq!(bar.glyphs, vec![Glyph::Filled; 24]);
    assert_eq!(bar.numeric_label, "100.20");
}

#[test]
fn widths_of_zero_and_one_give_no_glyphs() {
    let narrow = render_bar(" H ", &percent(1, 2), 1);
    assert!(narrow.glyphs.is_empty());
    assert_eq!(narrow.numeric_label, "50.00");
    assert_eq!(narrow.label, " H ");
    let none = render_bar(" H ", &percent(1, 2), 0);
    assert!(none.glyphs.is_empty());
    assert_eq!(none.text(), " H  50.00");
}

#[test]
fn glyphs_follow_the_float_threshold() {
    let p = percent(37, 100);
    let width: u32 = 40;
    let bar = render_bar(" M ", &p, width);
    assert_eq!(bar.glyphs.len(), 39);
    for n in 1..width {
        let filled = (n as f64 / width as f64 * 100.0) < as_float(&p);
        let expected = if filled { Glyph::Filled } else { Glyph::Empty };
        assert_eq!(bar.glyphs[(n - 1) as usize], expected);
    }
}

#[test]
fn glyph_characters_are_block_and_shade() {
    assert_eq!(Glyph::Filled.to_char(), '█');
    assert_eq!(Glyph::Empty.to_char(), '░');
}

#[test]
fn row_text_is_label_glyphs_space_number() {
    let bar = render_bar(" D ", &percent(1, 2), 5);
    assert_eq!(bar.text(), " D ██░░ 50.00");
}

#[test]
fn label_of_five_is_padded_to_five_characters() {
    assert_eq!(format_label(&percent(5, 100)), "05.00");
    assert_eq!(format_label(&percent(5, 100)), float_label(5.0));
}

#[test]
fn label_of_one_hundred_is_longer_than_the_padding() {
    assert_eq!(format_label(&percent(100, 100)), "100.00");
    assert_eq!(format_label(&percent(100, 100)), float_label(100.0));
}

#[test]
fn label_rounds_to_two_decimals() {
    assert_eq!(format_label(&percent(1, 3)), "33.33");
    assert_eq!(format_label(&percent(2, 3)), "66.67");
    assert_eq!(format_label(&percent(59_999, 60_000)), "100.00");
    assert_eq!(format_label(&percent(12_345, 60_000)), "20.58");
    assert_eq!(format_label(&percent(1, 1_000_000)), "00.00");
    assert_eq!(format_label(&percent(u64::MAX, 1)), "1844674407370955161500.00");
}

#[test]
fn label_rounds_a_tie_to_the_even_digit() {
    // 0.125 and 0.375 are exact in binary too, so the float formatting shows
    // the same ties.
    assert_eq!(format_label(&percent(1, 800)), "00.12");
    assert_eq!(format_label(&percent(1, 800)), float_label(0.125));
    assert_eq!(format_label(&percent(3, 800)), "00.38");
    assert_eq!(format_label(&percent(3, 800)), float_label(0.375));
    assert_eq!(percent(1, 800).hundredths(), 12);
    assert_eq!(percent(3, 800).hundredths(), 38);
}

#[test]
fn labels_agree_with_float_formatting() {
    for elapsed in [0u64, 1, 7, 59, 600, 1234, 29_999, 30_000, 45_678, 59_999, 60_000, 61_234] {
        let p = percent(elapsed, 60_000);
        assert_eq!(format_label(&p), float_label(as_float(&p)), "elapsed {}", elapsed);
    }
}

#[test]
fn passes_compares_column_share_with_percentage() {
    let p = percent(1, 2);
    assert!(p.passes(4, 10));
    assert!(!p.passes(5, 10));
    assert!(!p.passes(6, 10));
    assert!(percent(u64::MAX, 1).passes(u32::MAX, u32::MAX));
    assert!(!percent(0, u64::MAX).passes(u32::MAX, u32::MAX));
}

#[test]
fn panel_keeps_order_and_count() {
    let labels = [" M ", " H ", " D ", " M ", " Y "];
    let bars: Vec<TimeProgressBar> = labels
        .iter()
        .enumerate()
        .map(|(i, label)| TimeProgressBar::new(percent(10 * (i as u64 + 1), 100), label.to_string()))
        .collect();
    let rows = render_panel(&bars, 11);
    assert_eq!(rows.len(), 5);
    for (i, row) in rows.iter().enumerate() {
        assert_eq!(row.label, labels[i]);
        assert_eq!(row.glyphs.len(), 10);
        assert_eq!(row.numeric_label, format!("{}0.00", i + 1));
        let single = render_bar(labels[i], &bars[i].percentage, 11);
        assert_eq!(row.glyphs, single.glyphs);
    }
    assert_eq!(rows[0].filled(), 1);
    assert_eq!(rows[4].filled(), 5);
}

#[test]
fn panel_of_no_bars_is_empty() {
    assert!(render_panel(&Vec::new(), 30).is_empty());
}

#[test]
fn bar_width_leaves_the_margin_out() {
    assert_eq!(bar_width(80), 62);
    assert_eq!(bar_width(19), 1);
    assert_eq!(bar_width(18), 0);
    assert_eq!(bar_width(5), 0);
    assert_eq!(bar_width(0), 0);
    assert_eq!(bar_width(-3), 0);
    assert_eq!(bar_width(i32::MAX), 2_147_483_629);
}

#[test]
fn window_draws_every_bar_at_its_width() {
    let bars = vec![
        TimeProgressBar::new(percent(1, 4), String::from(" M ")),
        TimeProgressBar::new(percent(3, 4), String::from(" H ")),
    ];
    let window = TimeProgressBarWindow::new(27, bars);
    let rows = window.draw();
    assert_eq!(rows.len(), 2);
    assert_eq!(rows[0].glyphs.len(), 8);
    assert_eq!(rows[0].text(), " M ██░░░░░░ 25.00");
    assert_eq!(rows[1].text(), " H ██████░░ 75.00");
    let narrow = TimeProgressBarWindow::new(10, vec![TimeProgressBar::new(percent(1, 4), String::from(" M "))]);
    assert_eq!(narrow.draw()[0].text(), " M  25.00");
}
