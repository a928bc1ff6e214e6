use sericom_core::color_state::ColorState;
use sericom_core::sgr::{handle_colors_and_attrs, is_graphics_seq, process_colors};
use sericom_core::style::{Attribute, Attributes, Colors, TermColor};
use sericom_core::terminal::AnsiLayer;

fn config_colors() -> Colors {
    Colors::new(TermColor::Green, TermColor::Reset)
}

struct Case<'a> {
    seq: &'a [u8],
    expected_fg: TermColor,
    expected_bg: TermColor,
    expected_attrs: Vec<Attribute>,
    label: &'a str,
}

fn has_all(attrs: &Attributes, expected: &[Attribute]) -> bool {
    expected.iter().all(|a| attrs.has(*a))
}

fn test_cases(cases: &Vec<Case>) {
    for (idx, case) in cases.iter().enumerate() {
        let mut color_state = ColorState::new(config_colors());
        let mut attrs = Attributes::none();

        assert!(is_graphics_seq(case.seq));
        process_colors(case.seq, &mut color_state, &mut attrs, config_colors());

        assert_eq!(
            color_state.get_colors().foreground,
            case.expected_fg,
            "Case# {} - Foreground mismatch on '{}'",
            idx,
            case.label
        );
        assert_eq!(
            color_state.get_colors().background,
            case.expected_bg,
            "Case# {} - Background mismatch on '{}'",
            idx,
            case.label
        );
        assert!(
            has_all(&attrs, &case.expected_attrs),
            "Case# {} - Missing attrs on '{}': expected {:?}, got {:?}",
            idx,
            case.label,
            case.expected_attrs,
            attrs
        );
    }
}

#[test]
fn test_basic_fg() {
    let bg = config_colors().background;

    let cases = vec![
        Case {
            seq: b"\x1b[31m",
            expected_fg: TermColor::DarkRed,
            expected_bg: bg,
            expected_attrs: vec![],
            label: "FG basic red",
        },
        Case {
            seq: b"\x1b[37m",
            expected_fg: TermColor::Grey,
            expected_bg: bg,
            expected_attrs: vec![],
            label: "FG basic white/grey",
        },
    ];
    test_cases(&cases);
}

#[test]
fn test_basic_bg() {
    let fg = config_colors().foreground;

    let cases = vec![Case {
        seq: b"\x1b[44m",
        expected_fg: fg,
        expected_bg: TermColor::DarkBlue,
        expected_attrs: vec![],
        label: "BG basic blue",
    }];
    test_cases(&cases);
}

#[test]
fn test_bright_colors() {
    let fg = config_colors().foreground;
    let bg = config_colors().background;

    let cases = vec![
        Case {
            seq: b"\x1b[95m",
            expected_fg: TermColor::Magenta,
            expected_bg: bg,
            expected_attrs: vec![],
            label: "FG bright magenta",
        },
        Case {
            seq: b"\x1b[106m",
            expected_fg: fg,
            expected_bg: TermColor::Cyan,
            expected_attrs: vec![],
            label: "BG bright cyan",
        },
    ];
    test_cases(&cases);
}

#[test]
fn test_resets_and_defaults() {
    let fg = config_colors().foreground;
    let bg = config_colors().background;

    let cases = vec![
        Case {
            seq: b"\x1b[0m",
            expected_fg: fg,
            expected_bg: bg,
            expected_attrs: vec![],
            label: "Reset",
        },
        Case {
            seq: b"\x1b[39m",
            expected_fg: TermColor::Reset,
            expected_bg: bg,
            expected_attrs: vec![],
            label: "Reset FG default",
        },
        Case {
            seq: b"\x1b[49m",
            expected_fg: fg,
            expected_bg: TermColor::Reset,
            expected_attrs: vec![],
            label: "Reset BG default",
        },
    ];
    test_cases(&cases);
}

#[test]
fn test_attributes() {
    let fg = config_colors().foreground;
    let bg = config_colors().background;

    let cases = vec![Case {
        seq: b"\x1b[1;3;4m",
        expected_fg: fg,
        expected_bg: bg,
        expected_attrs: vec![Attribute::Bold, Attribute::Italic, Attribute::Underlined],
        label: "Bold + Italic + Underlined",
    }];
    test_cases(&cases);
}

#[test]
fn test_256_color_palette() {
    let fg = config_colors().foreground;
    let bg = config_colors().background;

    let cases = vec![
        Case {
            seq: b"\x1b[38;5;196m",
            expected_fg: TermColor::AnsiValue(196),
            expected_bg: bg,
            expected_attrs: vec![],
            label: "FG 256 red",
        },
        Case {
            seq: b"\x1b[48;5;27m",
            expected_fg: fg,
            expected_bg: TermColor::AnsiValue(27),
            expected_attrs: vec![],
            label: "BG 256 blue",
        },
    ];
    test_cases(&cases);
}

#[test]
fn test_truecolor_palette() {
    let fg = config_colors().foreground;
    let bg = config_colors().background;

    let cases = vec![
        Case {
            seq: b"\x1b[38;2;255;128;64m",
            expected_fg: TermColor::Rgb { r: 255, g: 128, b: 64 },
            expected_bg: bg,
            expected_attrs: vec![],
            label: "FG truecolor orange",
        },
        Case {
            seq: b"\x1b[48;2;10;20;30m",
            expected_fg: fg,
            expected_bg: TermColor::Rgb { r: 10, g: 20, b: 30 },
            expected_attrs: vec![],
            label: "BG truecolor dark",
        },
    ];
    test_cases(&cases);
}

#[test]
fn test_mix_attr_colors() {
    let fg = config_colors().foreground;
    let bg = config_colors().background;

    let cases = vec![
        Case {
            seq: b"\x1b[1;3;4;38;5;202m",
            expected_fg: TermColor::AnsiValue(202),
            expected_bg: bg,
            expected_attrs: vec![Attribute::Bold, Attribute::Italic, Attribute::Underlined],
            label: "Bold + Italic + Underlined + FG 256 orange",
        },
        Case {
            seq: b"\x1b[5;7;48;2;128;64;200m",
            expected_fg: fg,
            expected_bg: TermColor::Rgb { r: 128, g: 64, b: 200 },
            expected_attrs: vec![Attribute::SlowBlink, Attribute::Reverse],
            label: "Blink + Reverse + BG truecolor purple",
        },
    ];
    test_cases(&cases);
}

#[test]
fn test_kitchen_sink() {
    let fg = config_colors().foreground;
    let bg = config_colors().background;

    let cases = vec![
        Case {
            seq: b"\x1b[1;3;38;5;202;4;48;2;10;20;30m",
            expected_fg: TermColor::AnsiValue(202),
            expected_bg: TermColor::Rgb { r: 10, g: 20, b: 30 },
            expected_attrs: vec![Attribute::Bold, Attribute::Italic, Attribute::Underlined],
            label: "Bold + Italic + Underlined + FG 256 + BG truecolor",
        },
        Case {
            seq: b"\x1b[20;53m",
            expected_fg: fg,
            expected_bg: bg,
            expected_attrs: vec![Attribute::Fraktur, Attribute::OverLined],
            label: "Fraktur + Overlined",
        },
    ];
    test_cases(&cases);
}

#[test]
fn test_invalid() {
    let fg = config_colors().foreground;
    let bg = config_colors().background;

    let cases = vec![
        Case {
            seq: b"\x1b[38;5m",
            expected_fg: fg,
            expected_bg: bg,
            expected_attrs: vec![],
            label: "Incomplete 256 FG (missing index)",
        },
        Case {
            seq: b"\x1b[48;5;999m",
            expected_fg: fg,
            expected_bg: bg,
            expected_attrs: vec![],
            label: "Out-of-range 256 BG (999)",
        },
        Case {
            seq: b"\x1b[38;2;255;0m",
            expected_fg: fg,
            expected_bg: bg,
            expected_attrs: vec![],
            label: "Incomplete truecolor FG (missing B)",
        },
        Case {
            seq: b"\x1b[48;2;256;256;256m",
            expected_fg: fg,
            expected_bg: bg,
            expected_attrs: vec![],
            label: "Invalid RGB components (>255)",
        },
        Case {
            seq: b"\x1b[999m",
            expected_fg: fg,
            expected_bg: bg,
            expected_attrs: vec![],
            label: "Unknown SGR param",
        },
    ];
    test_cases(&cases);
}

fn run(seq: &[u8], start: Colors, start_attrs: Attributes) -> (Colors, Attributes) {
    let mut color_state = ColorState::new(start);
    let mut attrs = start_attrs;
    process_colors(seq, &mut color_state, &mut attrs, config_colors());
    (color_state.get_colors(), attrs)
}

#[test]
fn reset_returns_to_config_colors_from_any_state() {
    let mut attrs = Attributes::none();
    attrs.set(Attribute::Bold);
    attrs.set(Attribute::Reverse);
    let starts = vec![
        Colors::new(TermColor::Red, TermColor::Blue),
        Colors::new(TermColor::AnsiValue(200), TermColor::Rgb { r: 1, g: 2, b: 3 }),
        config_colors(),
    ];
    for start in starts {
        let (colors, after) = run(b"\x1b[0m", start, attrs);
        assert_eq!(colors, config_colors());
        assert_eq!(after, Attributes::none());
        assert!(after.is_empty());
    }
}

#[test]
fn reset_in_the_middle_clears_what_came_before() {
    let (colors, attrs) = run(
        b"\x1b[1;31;0;4m",
        Colors::new(TermColor::Red, TermColor::Blue),
        Attributes::none(),
    );
    assert_eq!(colors, config_colors());
    assert_eq!(attrs, Attributes::from(Attribute::Underlined));
}

#[test]
fn palette_index_below_sixteen_is_a_named_color() {
    let (colors, _) = run(b"\x1b[38;5;1m", config_colors(), Attributes::none());
    assert_eq!(colors.foreground, TermColor::DarkRed);
    let (colors, _) = run(b"\x1b[48;5;15m", config_colors(), Attributes::none());
    assert_eq!(colors.background, TermColor::White);
}

#[test]
fn intro_without_form_is_passed_over() {
    let (colors, attrs) = run(b"\x1b[38;1m", config_colors(), Attributes::none());
    assert_eq!(colors, config_colors());
    assert_eq!(attrs, Attributes::from(Attribute::Bold));
    let (colors, attrs) = run(b"\x1b[48m", config_colors(), Attributes::none());
    assert_eq!(colors, config_colors());
    assert_eq!(attrs, Attributes::none());
}

#[test]
fn truncated_form_ends_processing() {
    let (colors, attrs) = run(b"\x1b[1;38;5m", config_colors(), Attributes::none());
    assert_eq!(colors, config_colors());
    assert_eq!(attrs, Attributes::from(Attribute::Bold));
    let (colors, attrs) = run(b"\x1b[38;2;1;2m", config_colors(), Attributes::none());
    assert_eq!(colors, config_colors());
    assert_eq!(attrs, Attributes::none());
}

#[test]
fn leading_zero_is_not_a_known_parameter() {
    let (colors, attrs) = run(b"\x1b[01;031m", config_colors(), Attributes::none());
    assert_eq!(colors, config_colors());
    assert_eq!(attrs, Attributes::none());
}

#[test]
fn empty_body_changes_nothing() {
    let start = Colors::new(TermColor::Red, TermColor::Blue);
    let (colors, attrs) = run(b"\x1b[m", start, Attributes::from(Attribute::Dim));
    assert_eq!(colors, start);
    assert_eq!(attrs, Attributes::from(Attribute::Dim));
}

#[test]
fn underline_styles() {
    let table: Vec<(&[u8], Attribute)> = vec![
        (b"\x1b[4:2m", Attribute::DoubleUnderlined),
        (b"\x1b[4:3m", Attribute::Undercurled),
        (b"\x1b[4:4m", Attribute::Underdotted),
        (b"\x1b[4:5m", Attribute::Underdashed),
    ];
    for (seq, want) in table {
        let (_, attrs) = run(seq, config_colors(), Attributes::none());
        assert_eq!(attrs, Attributes::from(want));
    }
    let (_, attrs) = run(b"\x1b[4:6m", config_colors(), Attributes::none());
    assert_eq!(attrs, Attributes::none());
}

#[test]
fn every_attribute_parameter() {
    let table: Vec<(&[u8], Attribute)> = vec![
        (b"1", Attribute::Bold),
        (b"2", Attribute::Dim),
        (b"3", Attribute::Italic),
        (b"4", Attribute::Underlined),
        (b"5", Attribute::SlowBlink),
        (b"6", Attribute::RapidBlink),
        (b"7", Attribute::Reverse),
        (b"8", Attribute::Hidden),
        (b"9", Attribute::CrossedOut),
        (b"20", Attribute::Fraktur),
        (b"21", Attribute::NoBold),
        (b"22", Attribute::NormalIntensity),
        (b"23", Attribute::NoItalic),
        (b"24", Attribute::NoUnderline),
        (b"25", Attribute::NoBlink),
        (b"27", Attribute::NoReverse),
        (b"28", Attribute::NoHidden),
        (b"29", Attribute::NotCrossedOut),
        (b"51", Attribute::Framed),
        (b"52", Attribute::Encircled),
        (b"53", Attribute::OverLined),
        (b"54", Attribute::NotFramedOrEncircled),
        (b"55", Attribute::NotOverLined),
    ];
    for (param, want) in table {
        let mut color_state = ColorState::new(config_colors());
        let mut attrs = Attributes::none();
        handle_colors_and_attrs(param, &mut color_state, &mut attrs, config_colors());
        assert_eq!(attrs, Attributes::from(want));
        assert!(attrs.has(want));
        assert_eq!(color_state.get_colors(), config_colors());
    }
}

#[test]
fn every_basic_and_bright_color() {
    let basic = [
        TermColor::Black,
        TermColor::DarkRed,
        TermColor::DarkGreen,
        TermColor::DarkYellow,
        TermColor::DarkBlue,
        TermColor::DarkMagenta,
        TermColor::DarkCyan,
        TermColor::Grey,
    ];
    let bright = [
        TermColor::DarkGrey,
        TermColor::Red,
        TermColor::Green,
        TermColor::Yellow,
        TermColor::Blue,
        TermColor::Magenta,
        TermColor::Cyan,
        TermColor::White,
    ];
    for i in 0..8u8 {
        let fg = format!("\x1b[{}m", 30 + i);
        let (colors, _) = run(fg.as_bytes(), config_colors(), Attributes::none());
        assert_eq!(colors, Colors::new(basic[i as usize], TermColor::Reset));
        let bg = format!("\x1b[{}m", 40 + i);
        let (colors, _) = run(bg.as_bytes(), config_colors(), Attributes::none());
        assert_eq!(colors, Colors::new(TermColor::Green, basic[i as usize]));
        let fg = format!("\x1b[{}m", 90 + i);
        let (colors, _) = run(fg.as_bytes(), config_colors(), Attributes::none());
        assert_eq!(colors, Colors::new(bright[i as usize], TermColor::Reset));
        let bg = format!("\x1b[{}m", 100 + i);
        let (colors, _) = run(bg.as_bytes(), config_colors(), Attributes::none());
        assert_eq!(colors, Colors::new(TermColor::Green, bright[i as usize]));
    }
}

#[test]
fn graphics_sequences_are_recognized() {
    assert!(is_graphics_seq(b"\x1b[m"));
    assert!(is_graphics_seq(b"\x1b[1;31m"));
    assert!(!is_graphics_seq(b"\x1b[2J"));
    assert!(!is_graphics_seq(b"\x1bm"));
    assert!(!is_graphics_seq(b"[0m"));
    assert!(!is_graphics_seq(b""));
}

#[test]
fn applying_a_parsed_color() {
    let mut state = ColorState::new(config_colors());
    state.apply_parsed(Some((AnsiLayer::Foreground, TermColor::Rgb { r: 9, g: 8, b: 7 })));
    assert_eq!(state.get_colors(), Colors::new(TermColor::Rgb { r: 9, g: 8, b: 7 }, TermColor::Reset));
    state.apply_parsed(Some((AnsiLayer::Background, TermColor::AnsiValue(77))));
    assert_eq!(
        state.get_colors(),
        Colors::new(TermColor::Rgb { r: 9, g: 8, b: 7 }, TermColor::AnsiValue(77))
    );
    state.apply_parsed(Some((AnsiLayer::Underline, TermColor::Yellow)));
    assert_eq!(
        state.get_colors(),
        Colors::new(TermColor::Rgb { r: 9, g: 8, b: 7 }, TermColor::Yellow)
    );
    state.apply_parsed(None);
    assert_eq!(
        state.get_colors(),
        Colors::new(TermColor::Rgb { r: 9, g: 8, b: 7 }, TermColor::Yellow)
    );
}

#[test]
fn color_state_setters() {
    let mut state = ColorState::new(config_colors());
    state.set_fg(TermColor::Cyan);
    assert_eq!(state.get_colors(), Colors::new(TermColor::Cyan, TermColor::Reset));
    state.set_bg(TermColor::Black);
    assert_eq!(state.get_colors(), Colors::new(TermColor::Cyan, TermColor::Black));
    state.set_colors("38;5;202");
    assert_eq!(state.get_colors(), Colors::new(TermColor::AnsiValue(202), TermColor::Black));
    state.set_colors("not a color");
    assert_eq!(state.get_colors(), Colors::new(TermColor::AnsiValue(202), TermColor::Black));
    state.reset();
    assert_eq!(state.get_colors(), Colors::new(TermColor::Reset, TermColor::Reset));
}
