use tui_gauge::buffer::Buffer;
use tui_gauge::layout::Rect;
use tui_gauge::style::Color;
use tui_gauge::style::Modifier;
use tui_gauge::style::Style;

#[test]
fn combined_patch_gives_same_result_as_individual_patch() {
    let styles = vec![
        Style::default(),
        Style::default().fg(Color::Yellow),
        Style::default().bg(Color::Yellow),
        Style::default().add_modifier(Modifier::bold()),
        Style::default().remove_modifier(Modifier::bold()),
        Style::default().add_modifier(Modifier::italic()),
        Style::default().remove_modifier(Modifier::italic()),
        Style::default().add_modifier(Modifier::italic().union(Modifier::bold())),
        Style::default().remove_modifier(Modifier::italic().union(Modifier::bold())),
    ];
    for &a in &styles {
        for &b in &styles {
            for &c in &styles {
                for &d in &styles {
                    let combined = a.patch(b.patch(c.patch(d)));

                    assert_eq!(
                        Style::default().patch(a).patch(b).patch(c).patch(d),
                        Style::default().patch(combined)
                    );
                }
            }
        }
    }
}

#[test]
fn combine_individual_modifiers() {
    let mods = vec![
        Modifier::bold(),
        Modifier::dim(),
        Modifier::italic(),
        Modifier::underlined(),
        Modifier::slow_blink(),
        Modifier::rapid_blink(),
        Modifier::reversed(),
        Modifier::hidden(),
        Modifier::crossed_out(),
    ];

    let mut buffer = Buffer::empty(Rect::new(0, 0, 1, 1));
    let cell = Rect::new(0, 0, 1, 1);

    for m in &mods {
        buffer.set_style(cell, Style::reset());
        buffer.set_style(cell, Style::default().add_modifier(*m));
        let style = buffer.get(0, 0).style();
        assert!(style.add_modifier.contains(*m));
        assert!(!style.sub_modifier.contains(*m));
    }
}

#[test]
fn modifier_debug() {
    assert_eq!(Modifier::empty().name_string(), "NONE");
    assert_eq!(Modifier::bold().name_string(), "BOLD");
    assert_eq!(Modifier::dim().name_string(), "DIM");
    assert_eq!(Modifier::italic().name_string(), "ITALIC");
    assert_eq!(Modifier::underlined().name_string(), "UNDERLINED");
    assert_eq!(Modifier::slow_blink().name_string(), "SLOW_BLINK");
    assert_eq!(Modifier::rapid_blink().name_string(), "RAPID_BLINK");
    assert_eq!(Modifier::reversed().name_string(), "REVERSED");
    assert_eq!(Modifier::hidden().name_string(), "HIDDEN");
    assert_eq!(Modifier::crossed_out().name_string(), "CROSSED_OUT");
    assert_eq!(Modifier::bold().union(Modifier::dim()).name_string(), "BOLD | DIM");
    assert_eq!(
        Modifier::all().name_string(),
        "BOLD | DIM | ITALIC | UNDERLINED | SLOW_BLINK | RAPID_BLINK | REVERSED | HIDDEN | CROSSED_OUT"
    );
}

#[test]
fn style_can_be_const() {
    let red: Color = Color::Red;
    let black: Color = Color::Black;
    let bold: Modifier = Modifier::bold();
    let italic: Modifier = Modifier::italic();

    let _reset: Style = Style::reset();
    let _red_fg: Style = Style::new().fg(red);
    let _black_bg: Style = Style::new().bg(black);
    let _add_bold: Style = Style::new().add_modifier(bold);
    let _remove_italic: Style = Style::new().remove_modifier(italic);
    let all: Style = Style::new().fg(red).bg(black).add_modifier(bold).remove_modifier(italic);
    assert_eq!(
        all,
        Style::new()
            .fg(Color::Red)
            .bg(Color::Black)
            .add_modifier(Modifier::bold())
            .remove_modifier(Modifier::italic())
    )
}

#[test]
fn style_can_be_stylized() {
    // foreground colors
    assert_eq!(Style::new().black(), Style::new().fg(Color::Black));
    assert_eq!(Style::new().red(), Style::new().fg(Color::Red));
    assert_eq!(Style::new().green(), Style::new().fg(Color::Green));
    assert_eq!(Style::new().yellow(), Style::new().fg(Color::Yellow));
    assert_eq!(Style::new().blue(), Style::new().fg(Color::Blue));
    assert_eq!(Style::new().magenta(), Style::new().fg(Color::Magenta));
    assert_eq!(Style::new().cyan(), Style::new().fg(Color::Cyan));
    assert_eq!(Style::new().white(), Style::new().fg(Color::White));
    assert_eq!(Style::new().gray(), Style::new().fg(Color::Gray));
    assert_eq!(Style::new().dark_gray(), Style::new().fg(Color::DarkGray));
    assert_eq!(Style::new().light_red(), Style::new().fg(Color::LightRed));
    assert_eq!(Style::new().light_green(), Style::new().fg(Color::LightGreen));
    assert_eq!(Style::new().light_yellow(), Style::new().fg(Color::LightYellow));
    assert_eq!(Style::new().light_blue(), Style::new().fg(Color::LightBlue));
    assert_eq!(Style::new().light_magenta(), Style::new().fg(Color::LightMagenta));
    assert_eq!(Style::new().light_cyan(), Style::new().fg(Color::LightCyan));
    assert_eq!(Style::new().white(), Style::new().fg(Color::White));

    // background colors
    assert_eq!(Style::new().on_black(), Style::new().bg(Color::Black));
    assert_eq!(Style::new().on_red(), Style::new().bg(Color::Red));
    assert_eq!(Style::new().on_green(), Style::new().bg(Color::Green));
    assert_eq!(Style::new().on_yellow(), Style::new().bg(Color::Yellow));
    assert_eq!(Style::new().on_blue(), Style::new().bg(Color::Blue));
    assert_eq!(Style::new().on_magenta(), Style::new().bg(Color::Magenta));
    assert_eq!(Style::new().on_cyan(), Style::new().bg(Color::Cyan));
    assert_eq!(Style::new().on_white(), Style::new().bg(Color::White));
    assert_eq!(Style::new().on_gray(), Style::new().bg(Color::Gray));
    assert_eq!(Style::new().on_dark_gray(), Style::new().bg(Color::DarkGray));
    assert_eq!(Style::new().on_light_red(), Style::new().bg(Color::LightRed));
    assert_eq!(Style::new().on_light_green(), Style::new().bg(Color::LightGreen));
    assert_eq!(Style::new().on_light_yellow(), Style::new().bg(Color::LightYellow));
    assert_eq!(Style::new().on_light_blue(), Style::new().bg(Color::LightBlue));
    assert_eq!(Style::new().on_light_magenta(), Style::new().bg(Color::LightMagenta));
    assert_eq!(Style::new().on_light_cyan(), Style::new().bg(Color::LightCyan));
    assert_eq!(Style::new().on_white(), Style::new().bg(Color::White));

    // add modifiers
    assert_eq!(Style::new().bold(), Style::new().add_modifier(Modifier::bold()));
    assert_eq!(Style::new().dim(), Style::new().add_modifier(Modifier::dim()));
    assert_eq!(Style::new().italic(), Style::new().add_modifier(Modifier::italic()));
    assert_eq!(Style::new().underlined(), Style::new().add_modifier(Modifier::underlined()));
    assert_eq!(Style::new().slow_blink(), Style::new().add_modifier(Modifier::slow_blink()));
    assert_eq!(Style::new().rapid_blink(), Style::new().add_modifier(Modifier::rapid_blink()));
    assert_eq!(Style::new().reversed(), Style::new().add_modifier(Modifier::reversed()));
    assert_eq!(Style::new().hidden(), Style::new().add_modifier(Modifier::hidden()));
    assert_eq!(Style::new().crossed_out(), Style::new().add_modifier(Modifier::crossed_out()));

    // remove modifiers
    assert_eq!(Style::new().not_bold(), Style::new().remove_modifier(Modifier::bold()));
    assert_eq!(Style::new().not_dim(), Style::new().remove_modifier(Modifier::dim()));
    assert_eq!(Style::new().not_italic(), Style::new().remove_modifier(Modifier::italic()));
    assert_eq!(
        Style::new().not_underlined(),
        Style::new().remove_modifier(Modifier::underlined())
    );
    assert_eq!(
        Style::new().not_slow_blink(),
        Style::new().remove_modifier(Modifier::slow_blink())
    );
    assert_eq!(
        Style::new().not_rapid_blink(),
        Style::new().remove_modifier(Modifier::rapid_blink())
    );
    assert_eq!(Style::new().not_reversed(), Style::new().remove_modifier(Modifier::reversed()));
    assert_eq!(Style::new().not_hidden(), Style::new().remove_modifier(Modifier::hidden()));
    assert_eq!(
        Style::new().not_crossed_out(),
        Style::new().remove_modifier(Modifier::crossed_out())
    );

    // reset
    assert_eq!(Style::new().patch(Style::reset()), Style::reset());
}

#[test]
fn modifier_exclusivity_kept() {
    let s = Style::new()
        .add_modifier(Modifier::bold())
        .remove_modifier(Modifier::bold())
        .add_modifier(Modifier::italic())
        .patch(Style::new().remove_modifier(Modifier::italic()).add_modifier(Modifier::dim()));
    assert_eq!(s.add_modifier.bits & s.sub_modifier.bits, 0);
    assert!(s.sub_modifier.contains(Modifier::italic()));
    assert!(s.add_modifier.contains(Modifier::dim()));
    assert!(!s.add_modifier.contains(Modifier::italic()));
}

#[test]
fn reset_neutralizes_previous_layers() {
    let x = Style::new()
        .fg(Color::Yellow)
        .on_blue()
        .add_modifier(Modifier::bold().union(Modifier::italic()))
        .remove_modifier(Modifier::dim());
    let patched = Style::default().patch(x).patch(Style::reset());
    assert_eq!(patched, Style::reset());
    assert_eq!(patched.fg, Some(Color::Reset));
    assert_eq!(patched.sub_modifier, Modifier::all());
    assert_eq!(patched.add_modifier, Modifier::empty());
}
