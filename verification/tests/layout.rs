use wttr::width::HasTerminalDisplayLength;

#[test]
fn width_plain_ascii_counts_chars() {
    assert_eq!("hello".to_string().len_on_term(), 5);
    assert_eq!(String::new().len_on_term(), 0);
    assert_eq!("m".to_string().len_on_term(), 1);
}

#[test]
fn width_colored_digit_matches_bare_digit() {
    let bare = "7".to_string();
    let colored = "\u{1b}[38;5;046m7\u{1b}[0m".to_string();
    assert_eq!(colored.len_on_term(), bare.len_on_term());
    assert_eq!(colored.len_on_term(), 1);
}

#[test]
fn width_wide_glyphs_count_double() {
    assert_eq!("\u{4e00}\u{4e8c}".to_string().len_on_term(), 4);
    assert_eq!("a\u{ff01}".to_string().len_on_term(), 3);
}

#[test]
fn width_unterminated_directive_stops_counting() {
    assert_eq!("ab\u{1b}[31".to_string().len_on_term(), 2);
}

#[test]
fn fit_pads_to_target() {
    let s = "abc".to_string();
    let r = s.fit_to_term_len(10);
    assert_eq!(r, "abc       ");
    assert_eq!(r.len_on_term(), 10);
}

#[test]
fn fit_pads_styled_text() {
    let s = "\u{1b}[38;5;226mab\u{1b}[0m".to_string();
    let r = s.fit_to_term_len(5);
    assert_eq!(r, "\u{1b}[38;5;226mab\u{1b}[0m   ");
    assert_eq!(r.len_on_term(), 5);
}

#[test]
fn fit_identity_at_exact_width() {
    let s = "\u{1b}[38;5;226mabcd\u{1b}[0m".to_string();
    assert_eq!(s.fit_to_term_len(4), s);
    let p = "abcd".to_string();
    assert_eq!(p.fit_to_term_len(4), p);
}

#[test]
fn fit_truncates_to_target() {
    let s = "abcdef".to_string();
    let r = s.fit_to_term_len(3);
    assert_eq!(r, "abc");
    assert_eq!(r.len_on_term(), 3);
}

#[test]
fn fit_never_splits_a_directive() {
    let s = "ab\u{1b}[31mcd\u{1b}[0m".to_string();
    let r = s.fit_to_term_len(2);
    assert_eq!(r, "ab\u{1b}[31m");
    assert_eq!(r.len_on_term(), 2);
}

#[test]
fn fit_wide_glyph_boundary_pads_with_space() {
    let s = "\u{4e00}\u{4e8c}".to_string();
    let r = s.fit_to_term_len(3);
    assert_eq!(r, "\u{4e00} ");
    assert_eq!(r.len_on_term(), 3);
}

#[test]
fn temp_colors_follow_the_bands() {
    assert_eq!(wttr::color::colorized_temp(24), "\u{1b}[38;5;226m24\u{1b}[0m");
    assert_eq!(wttr::color::colorized_temp(-16), "\u{1b}[38;5;021m-16\u{1b}[0m");
    assert_eq!(wttr::color::colorized_temp(-15), "\u{1b}[38;5;027m-15\u{1b}[0m");
    assert_eq!(wttr::color::colorized_temp(-13), "\u{1b}[38;5;027m-13\u{1b}[0m");
    assert_eq!(wttr::color::colorized_temp(-12), "\u{1b}[38;5;033m-12\u{1b}[0m");
    assert_eq!(wttr::color::colorized_temp(0), "\u{1b}[38;5;050m0\u{1b}[0m");
    assert_eq!(wttr::color::colorized_temp(1), "\u{1b}[38;5;050m1\u{1b}[0m");
    assert_eq!(wttr::color::colorized_temp(2), "\u{1b}[38;5;049m2\u{1b}[0m");
    assert_eq!(wttr::color::colorized_temp(36), "\u{1b}[38;5;202m36\u{1b}[0m");
    assert_eq!(wttr::color::colorized_temp(37), "\u{1b}[38;5;196m37\u{1b}[0m");
}

#[test]
fn wind_colors_follow_the_bands() {
    assert_eq!(wttr::color::colorized_wind(0), "\u{1b}[38;5;046m0\u{1b}[0m");
    assert_eq!(wttr::color::colorized_wind(-2), "\u{1b}[38;5;046m-2\u{1b}[0m");
    assert_eq!(wttr::color::colorized_wind(1), "\u{1b}[38;5;082m1\u{1b}[0m");
    assert_eq!(wttr::color::colorized_wind(3), "\u{1b}[38;5;082m3\u{1b}[0m");
    assert_eq!(wttr::color::colorized_wind(4), "\u{1b}[38;5;118m4\u{1b}[0m");
    assert_eq!(wttr::color::colorized_wind(31), "\u{1b}[38;5;202m31\u{1b}[0m");
    assert_eq!(wttr::color::colorized_wind(32), "\u{1b}[38;5;196m32\u{1b}[0m");
}

#[test]
fn every_value_in_range_gets_one_band() {
    for t in -20..=40 {
        let s = wttr::color::colorized_temp(t);
        assert!(s.starts_with("\u{1b}[38;5;"));
        assert!(s.ends_with("\u{1b}[0m"));
        assert_eq!(s.len_on_term(), format!("{}", t).len());
        let w = wttr::color::colorized_wind(t);
        assert!(w.starts_with("\u{1b}[38;5;"));
        assert!(w.ends_with("\u{1b}[0m"));
        assert_eq!(w.len_on_term(), format!("{}", t).len());
    }
}

#[test]
fn wind_direction_arrows() {
    assert_eq!(wttr::icons::wind_dir_to_icon("N"), "\u{1b}[1m\u{2193}\u{1b}[0m");
    assert_eq!(
        wttr::icons::wind_dir_to_icon("NNE"),
        wttr::icons::wind_dir_to_icon("N")
    );
    assert_eq!(wttr::icons::wind_dir_to_icon("E"), "\u{1b}[1m\u{2190}\u{1b}[0m");
    assert_eq!(wttr::icons::wind_dir_to_icon("S"), "\u{1b}[1m\u{2191}\u{1b}[0m");
    assert_eq!(wttr::icons::wind_dir_to_icon("SW"), "\u{1b}[1m\u{2197}\u{1b}[0m");
    assert_eq!(wttr::icons::wind_dir_to_icon("W"), "\u{1b}[1m\u{2192}\u{1b}[0m");
    assert_eq!(
        wttr::icons::wind_dir_to_icon("NW"),
        wttr::icons::wind_dir_to_icon("NNW")
    );
    assert_eq!(wttr::icons::wind_dir_to_icon("??"), " ");
    assert_eq!(wttr::icons::wind_dir_to_icon(""), " ");
}

#[test]
fn icons_have_five_thirteen_column_lines() {
    let codes = [113, 116, 119, 122, 143, 176, 179, 182, 200, 227, 230, 266, 281, 296, 299, 302,
        305, 308, 323, 335, 353, 386, 389, 392, 395, -1, 9999];
    for code in codes.iter() {
        let icon = wttr::icons::code_to_icon(*code);
        assert_eq!(icon.len(), 5);
        for line in icon.iter() {
            assert_eq!(line.to_string().len_on_term(), 13);
        }
    }
}

#[test]
fn unknown_code_gets_the_placeholder_icon() {
    let icon = wttr::icons::code_to_icon(9999);
    assert_eq!(icon[0], "    .-.      ");
    assert_eq!(icon, wttr::icons::code_to_icon(-5));
}

#[test]
fn sunny_icon_is_selected_for_code_113() {
    let icon = wttr::icons::code_to_icon(113);
    assert_eq!(icon[0], "\u{1b}[38;5;226m    \\   /    \u{1b}[0m");
}
