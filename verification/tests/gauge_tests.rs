use tui_gauge::buffer::Buffer;
use tui_gauge::gauge::Gauge;
use tui_gauge::layout::Rect;
use tui_gauge::line_gauge::LineGauge;
use tui_gauge::ratio::ConfigError;
use tui_gauge::ratio::Ratio;
use tui_gauge::style::Color;
use tui_gauge::style::Modifier;
use tui_gauge::style::Style;
use tui_gauge::symbols;
use tui_gauge::symbols::LineSet;
use tui_gauge::text::Span;

fn row_symbols(buf: &Buffer, y: u16, width: u16) -> Vec<char> {
    let mut v = Vec::new();
    for x in 0..width {
        v.push(buf.get(x, y).symbol);
    }
    v
}

#[test]
#[should_panic]
fn gauge_invalid_percentage() {
    let _ = Gauge::default().percent(110).unwrap();
}

#[test]
#[should_panic]
fn gauge_invalid_ratio_upper_bound() {
    let _ = Gauge::default().ratio(Ratio::new(11, 10).unwrap());
}

#[test]
#[should_panic]
fn gauge_invalid_ratio_lower_bound() {
    let _ = Gauge::default().ratio(Ratio::new(-5, 10).unwrap());
}

#[test]
fn gauge_can_be_stylized() {
    assert_eq!(
        Gauge::default().black().on_white().bold().not_dim().style,
        Style::default()
            .fg(Color::Black)
            .bg(Color::White)
            .add_modifier(Modifier::bold())
            .remove_modifier(Modifier::dim())
    )
}

#[test]
fn line_gauge_can_be_stylized() {
    assert_eq!(
        LineGauge::default().black().on_white().bold().not_dim().style,
        Style::default()
            .fg(Color::Black)
            .bg(Color::White)
            .add_modifier(Modifier::bold())
            .remove_modifier(Modifier::dim())
    )
}

#[test]
fn line_gauge_default() {
    assert_eq!(
        format!("{:?}", LineGauge::default()),
        format!(
            "{:?}",
            LineGauge {
                ratio: Ratio::zero(),
                label: None,
                style: Style::default(),
                line_set: LineSet::normal(),
                gauge_style: Style::default(),
            }
        ),
        "LineGauge::default() should have correct default values."
    );
}

#[test]
fn gauge_percent_ratio_equivalence() {
    let by_percent = Gauge::default().percent(20).unwrap();
    let by_ratio = Gauge::default().ratio(Ratio::new(20, 100).unwrap());
    assert_eq!(by_percent.ratio, by_ratio.ratio);
    assert_eq!(by_percent, by_ratio);
}

#[test]
fn invalid_configuration_rejected() {
    assert!(matches!(
        Gauge::default().percent(101),
        Err(ConfigError::PercentOutOfRange)
    ));
    assert!(matches!(Ratio::new(11, 10), Err(ConfigError::RatioOutOfRange)));
    assert!(matches!(Ratio::new(-1, 10), Err(ConfigError::RatioOutOfRange)));
    assert!(matches!(Ratio::new(1, 0), Err(ConfigError::RatioOutOfRange)));
}

#[test]
fn rounded_percent_exact() {
    assert_eq!(Ratio::new(1, 3).unwrap().rounded_percent(), 33);
    assert_eq!(Ratio::new(3, 8).unwrap().rounded_percent(), 38);
    assert_eq!(Ratio::new(0, 1).unwrap().rounded_percent(), 0);
    assert_eq!(Ratio::new(1, 1).unwrap().rounded_percent(), 100);
}

#[test]
fn gauge_render_zero_ratio_fills_nothing() {
    let mut buf = Buffer::empty(Rect::new(0, 0, 10, 1));
    let area = buf.area();
    Gauge::default().percent(0).unwrap().render(area, &mut buf);
    let row = row_symbols(&buf, 0, 10);
    assert_eq!(row, vec![' ', ' ', ' ', ' ', '0', '%', ' ', ' ', ' ', ' ']);
    assert!(!row.contains(&symbols::FULL));
}

#[test]
fn gauge_render_full_ratio_fills_everything() {
    let mut buf = Buffer::empty(Rect::new(0, 0, 10, 1));
    let area = buf.area();
    let gauge = Gauge::default()
        .percent(100)
        .unwrap()
        .gauge_style(Style::new().fg(Color::Red).bg(Color::Blue));
    gauge.render(area, &mut buf);
    let full = symbols::FULL;
    assert_eq!(
        row_symbols(&buf, 0, 10),
        vec![full, full, full, '1', '0', '0', '%', ' ', full, full]
    );
    // the filled part uses the bar colors, the label box the swapped ones
    assert_eq!(buf.get(0, 0).fg, Color::Red);
    assert_eq!(buf.get(0, 0).bg, Color::Blue);
    assert_eq!(buf.get(3, 0).fg, Color::Blue);
    assert_eq!(buf.get(3, 0).bg, Color::Red);
    assert_eq!(buf.get(7, 0).fg, Color::Blue);
    assert_eq!(buf.get(7, 0).bg, Color::Red);
}

#[test]
fn gauge_render_subcell_precision() {
    // 0.375 of 9 columns is 3.375 cells: three full blocks, then a glyph for
    // the remainder 0.375, which rounds to three eighths.
    let mut buf = Buffer::empty(Rect::new(0, 0, 9, 3));
    let area = buf.area();
    let gauge = Gauge::default().ratio(Ratio::new(3, 8).unwrap()).use_unicode(true);
    gauge.render(area, &mut buf);
    let full = symbols::FULL;
    assert_eq!(
        row_symbols(&buf, 0, 9),
        vec![full, full, full, symbols::THREE_EIGHTHS, ' ', ' ', ' ', ' ', ' ']
    );
    // the middle row carries the label "38%", overwriting the boundary glyph
    assert_eq!(
        row_symbols(&buf, 1, 9),
        vec![full, full, full, '3', '8', '%', ' ', ' ', ' ']
    );
    assert_eq!(
        row_symbols(&buf, 2, 9),
        vec![full, full, full, symbols::THREE_EIGHTHS, ' ', ' ', ' ', ' ', ' ']
    );
}

#[test]
fn gauge_label_centered_with_inverted_fill() {
    let mut buf = Buffer::empty(Rect::new(0, 0, 10, 1));
    let area = buf.area();
    let gauge = Gauge::default()
        .ratio(Ratio::new(1, 2).unwrap())
        .gauge_style(Style::new().fg(Color::Red).bg(Color::Blue));
    gauge.render(area, &mut buf);
    let full = symbols::FULL;
    assert_eq!(
        row_symbols(&buf, 0, 10),
        vec![full, full, full, '5', '0', '%', ' ', ' ', ' ', ' ']
    );
    // label characters over the fill keep the swapped colors
    assert_eq!(buf.get(3, 0).fg, Color::Blue);
    assert_eq!(buf.get(3, 0).bg, Color::Red);
    assert_eq!(buf.get(4, 0).fg, Color::Blue);
    assert_eq!(buf.get(4, 0).bg, Color::Red);
    // past the boundary the label sits on the washed background
    assert_eq!(buf.get(5, 0).fg, Color::Red);
    assert_eq!(buf.get(5, 0).bg, Color::Blue);
}

#[test]
fn gauge_explicit_label_is_used() {
    let mut buf = Buffer::empty(Rect::new(0, 0, 10, 1));
    let area = buf.area();
    let label = Span::styled("abc".chars().collect(), Style::new().fg(Color::Green));
    let gauge = Gauge::default().percent(0).unwrap().label(label);
    gauge.render(area, &mut buf);
    assert_eq!(
        row_symbols(&buf, 0, 10),
        vec![' ', ' ', ' ', 'a', 'b', 'c', ' ', ' ', ' ', ' ']
    );
    assert_eq!(buf.get(3, 0).fg, Color::Green);
}

#[test]
fn gauge_label_clipped_to_width() {
    let mut buf = Buffer::empty(Rect::new(0, 0, 3, 1));
    let area = buf.area();
    let label = Span::raw("abcdef".chars().collect());
    Gauge::default().percent(0).unwrap().label(label).render(area, &mut buf);
    assert_eq!(row_symbols(&buf, 0, 3), vec!['a', 'b', 'c']);
}

#[test]
fn gauge_zero_height_only_washes() {
    let mut buf = Buffer::empty(Rect::new(0, 0, 10, 3));
    let gauge = Gauge::default()
        .percent(50)
        .unwrap()
        .style(Style::new().bg(Color::Red))
        .gauge_style(Style::new().fg(Color::Blue));
    gauge.render(Rect::new(0, 1, 10, 0), &mut buf);
    for y in 0..3 {
        for x in 0..10 {
            assert_eq!(buf.get(x, y).symbol, ' ');
            assert_eq!(buf.get(x, y).fg, Color::Reset);
            assert_eq!(buf.get(x, y).bg, Color::Reset);
        }
    }
}

#[test]
fn gauge_zero_width_writes_nothing() {
    let mut buf = Buffer::empty(Rect::new(0, 0, 10, 1));
    let gauge = Gauge::default().ratio(Ratio::new(1, 2).unwrap()).use_unicode(true);
    gauge.render(Rect::new(4, 0, 0, 1), &mut buf);
    for x in 0..10 {
        assert_eq!(buf.get(x, 0).symbol, ' ');
    }
}

#[test]
fn line_gauge_render_splits_at_boundary() {
    let mut buf = Buffer::empty(Rect::new(0, 0, 12, 1));
    let area = buf.area();
    let gauge = LineGauge::default()
        .ratio(Ratio::new(1, 2).unwrap())
        .gauge_style(Style::new().fg(Color::Red).bg(Color::Blue));
    gauge.render(area, &mut buf);
    let h = symbols::LINE_HORIZONTAL;
    assert_eq!(
        row_symbols(&buf, 0, 12),
        vec!['5', '0', '%', ' ', h, h, h, h, h, h, h, h]
    );
    // filled part in the bar's foreground, the rest in its background color
    for x in 4..8 {
        assert_eq!(buf.get(x, 0).fg, Color::Red);
    }
    for x in 8..12 {
        assert_eq!(buf.get(x, 0).fg, Color::Blue);
    }
}

#[test]
fn line_gauge_stops_without_room_for_bar() {
    let mut buf = Buffer::empty(Rect::new(0, 0, 4, 1));
    let area = buf.area();
    LineGauge::default().ratio(Ratio::new(1, 2).unwrap()).render(area, &mut buf);
    assert_eq!(row_symbols(&buf, 0, 4), vec!['5', '0', '%', ' ']);
}

#[test]
fn line_gauge_uses_configured_line_set() {
    let mut buf = Buffer::empty(Rect::new(0, 0, 8, 1));
    let area = buf.area();
    LineGauge::default()
        .ratio(Ratio::one())
        .line_set(LineSet::thick())
        .render(area, &mut buf);
    let h = symbols::THICK_LINE_HORIZONTAL;
    assert_eq!(row_symbols(&buf, 0, 8), vec!['1', '0', '0', '%', ' ', h, h, h]);
}

#[test]
fn buffer_set_style_washes_only_the_region() {
    let mut buf = Buffer::empty(Rect::new(2, 3, 3, 2));
    buf.set_style(Rect::new(3, 3, 2, 1), Style::new().fg(Color::Red));
    for y in 3..5 {
        for x in 2..5 {
            let expected = if y == 3 && x >= 3 { Color::Red } else { Color::Reset };
            assert_eq!(buf.get(x, y).fg, expected);
        }
    }
}
