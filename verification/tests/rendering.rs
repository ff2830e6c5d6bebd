use wttr::condition::{ValueWrapper, WeatherCondition, CELL_WIDTH};
use wttr::day::{Astronomy, Weather};
use wttr::report::{Config, Data, Request};
use wttr::width::HasTerminalDisplayLength;

fn sample() -> WeatherCondition {
    WeatherCondition {
        cloudcover: 0,
        feels_like_c: 24,
        humidity: 50,
        precip_mm_tenths: 0,
        weather_code: 113,
        temp_c: Some(24),
        temp_c_alt: None,
        time: Some("800".to_string()),
        chanceofrain: None,
        observation_time: None,
        visibility: 10,
        weather_desc: vec![ValueWrapper { value: "Sunny".to_string() }],
        lang_zh: vec![ValueWrapper { value: "Qing".to_string() }],
        winddir_16_point: "N".to_string(),
        windspeed_kmph: 10,
        wind_gust_kmph: None,
    }
}

fn day_with(hours: Vec<&str>) -> Weather {
    let hourly = hours
        .iter()
        .map(|t| {
            let mut c = sample();
            c.time = Some(t.to_string());
            c
        })
        .collect();
    Weather {
        astronomy: vec![Astronomy {
            moonrise: "06:41 AM".to_string(),
            moonset: "07:28 PM".to_string(),
            sunrise: "06:54 AM".to_string(),
            sunset: "06:17 PM".to_string(),
        }],
        date: "2015-03-04".to_string(),
        hourly,
        maxtemp_c: 25,
        mintemp_c: 15,
        uv_index: 5,
    }
}

#[test]
fn equal_feels_like_renders_a_single_value() {
    let c = sample();
    assert_eq!(
        c.format_temp(),
        "\u{1b}[38;5;226m24\u{1b}[0m \u{b0}C             "
    );
}

#[test]
fn lower_value_always_comes_first() {
    let mut c = sample();
    c.feels_like_c = 20;
    assert_eq!(
        c.format_temp(),
        "\u{1b}[38;5;190m20\u{1b}[0m - \u{1b}[38;5;226m24\u{1b}[0m \u{b0}C         "
    );
    c.feels_like_c = 28;
    assert_eq!(
        c.format_temp(),
        "\u{1b}[38;5;226m24\u{1b}[0m - \u{1b}[38;5;214m28\u{1b}[0m \u{b0}C         "
    );
}

#[test]
fn temp_falls_back_to_alternate_field() {
    let mut c = sample();
    c.temp_c = None;
    c.temp_c_alt = Some(18);
    assert_eq!(c.temp_in_c(), 18);
}

#[test]
fn wind_with_gust_renders_a_range() {
    let mut c = sample();
    c.wind_gust_kmph = Some(25);
    assert_eq!(
        c.format_wind(),
        "\u{1b}[1m\u{2193}\u{1b}[0m \u{1b}[38;5;190m10\u{1b}[0m - \u{1b}[38;5;208m25\u{1b}[0m km/h      "
    );
}

#[test]
fn wind_without_gust_renders_the_speed_alone() {
    let c = sample();
    let expected = "\u{1b}[1m\u{2193}\u{1b}[0m \u{1b}[38;5;190m10\u{1b}[0m km/h      ";
    assert_eq!(c.format_wind(), expected);
    let mut c2 = sample();
    c2.wind_gust_kmph = Some(10);
    assert_eq!(c2.format_wind(), expected);
}

#[test]
fn visibility_field() {
    let c = sample();
    assert_eq!(c.format_visibility(), "10 km");
}

#[test]
fn rain_field_has_one_fractional_digit() {
    let c = sample();
    assert_eq!(c.format_rain(), "0.0 mm              ");
    let mut c2 = sample();
    c2.precip_mm_tenths = 13;
    c2.chanceofrain = Some(45);
    assert_eq!(c2.format_rain(), "1.3 mm | 45%        ");
}

#[test]
fn condition_renders_five_cells_of_cell_width() {
    let c = sample();
    let cells = c.format(false);
    assert_eq!(cells.len(), 5);
    for cell in cells.iter() {
        assert_eq!(cell.len_on_term(), CELL_WIDTH);
    }
}

#[test]
fn long_description_is_clipped_to_fifteen_chars() {
    let mut c = sample();
    c.weather_desc = vec![ValueWrapper {
        value: "Patchy light drizzle everywhere".to_string(),
    }];
    let cells = c.format(false);
    assert!(cells[0].contains("Patchy light dr"));
    assert!(!cells[0].contains("drizzle"));
    assert_eq!(cells[0].len_on_term(), CELL_WIDTH);
}

#[test]
fn alternate_language_swaps_the_description() {
    let c = sample();
    let cells_en = c.format(false);
    let cells_zh = c.format(true);
    assert!(cells_en[0].contains("Sunny"));
    assert!(!cells_en[0].contains("Qing"));
    assert!(cells_zh[0].contains("Qing"));
    assert!(!cells_zh[0].contains("Sunny"));
}

#[test]
fn alternate_language_falls_back_when_absent() {
    let mut c = sample();
    c.lang_zh = vec![];
    let cells = c.format(true);
    assert!(cells[0].contains("Sunny"));
    assert_eq!(cells[0].len_on_term(), CELL_WIDTH);
}

#[test]
fn cells_compose_icon_line_and_data_field() {
    let c = sample();
    let icon = wttr::icons::code_to_icon(113);
    let cells = c.format(false);
    assert_eq!(
        cells[1],
        format!("{} {}", icon[1], c.format_temp()).fit_to_term_len(CELL_WIDTH)
    );
    assert_eq!(
        cells[2],
        format!("{} {}", icon[2], c.format_wind()).fit_to_term_len(CELL_WIDTH)
    );
    assert_eq!(
        cells[3],
        format!("{} {}", icon[3], c.format_visibility()).fit_to_term_len(CELL_WIDTH)
    );
    assert_eq!(
        cells[4],
        format!("{} {}", icon[4], c.format_rain()).fit_to_term_len(CELL_WIDTH)
    );
}

#[test]
fn rows_hold_the_retained_cells_in_order() {
    let w = day_with(vec!["800", "0", "900"]);
    let rows = w.format_day(false);
    let cells = sample().format(false);
    for i in 0..5 {
        assert_eq!(rows[i], format!("|{}|{}|", cells[i], cells[i]));
    }
}

#[test]
fn all_excluded_hours_leave_bare_rows() {
    let w = day_with(vec![
        "0", "100", "200", "300", "400", "500", "600", "700", "1400", "1500", "1600", "2300",
    ]);
    let rows = w.format_day(false);
    assert_eq!(rows.len(), 5);
    for row in rows.iter() {
        assert_eq!(row, "|");
    }
}

#[test]
fn retained_hours_append_one_column_each() {
    let w = day_with(vec!["0", "800", "900", "1400"]);
    let rows = w.format_day(false);
    assert_eq!(rows.len(), 5);
    for row in rows.iter() {
        assert_eq!(row.len_on_term(), 1 + 31 * 2);
        assert!(row.starts_with("|"));
        assert!(row.ends_with("|"));
    }
}

#[test]
fn date_header_label_names_the_weekday() {
    let w = day_with(vec![]);
    assert_eq!(w.date_label(), "Wed 04. Mar");
}

#[test]
fn leap_day_label() {
    let mut w = day_with(vec![]);
    w.date = "2016-02-29".to_string();
    assert_eq!(w.date_label(), "Mon 29. Feb");
}

#[test]
fn parse_date_fields() {
    assert_eq!(wttr::day::parse_date("2015-03-04"), Some((2015, 3, 4)));
    assert_eq!(wttr::day::parse_date("2015/03/04"), None);
    assert_eq!(wttr::day::parse_date("15-03-04"), None);
    assert_eq!(wttr::day::parse_date("2015-3-04"), None);
    assert_eq!(wttr::day::parse_date(""), None);
}

#[test]
fn hour_exclusion_policy_is_exact() {
    for t in ["0", "100", "200", "300", "400", "500", "600", "700", "1400", "1500", "1600",
        "2300"] {
        assert!(wttr::day::excluded_time(t));
    }
    for t in ["800", "900", "1000", "1100", "1200", "1300", "1700", "1800", "1900", "2000",
        "2100", "2200"] {
        assert!(!wttr::day::excluded_time(t));
    }
}

#[test]
fn day_table_shape() {
    let w = day_with(vec!["800"]);
    let lines = w.day_lines(false);
    assert_eq!(lines.len(), 10);
    assert!(lines[1].contains("\u{2524} Wed 04. Mar \u{251c}"));
    assert!(lines[2].contains("Morning"));
    assert!(lines[2].contains("Night"));
    assert!(lines[9].starts_with("\u{2514}"));
    for j in 4..9 {
        assert_eq!(lines[j].len_on_term(), 32);
    }
}

#[test]
fn report_layout() {
    let data = Data {
        current_condition: vec![sample()],
        request: vec![Request { query: "Beijing".to_string() }],
        weather: vec![day_with(vec!["800"]), day_with(vec!["900", "1000"])],
    };
    let cfg = Config { use_zh: false, days: 3 };
    let lines = wttr::report::render_report(&data, &cfg);
    assert_eq!(lines.len(), 8 + 10 * 2);
    assert_eq!(lines[0], "Weather for: Beijing");
    assert_eq!(lines[1], "");
    assert_eq!(lines[2], "");
    for j in 3..8 {
        assert_eq!(lines[j].len_on_term(), CELL_WIDTH);
    }
    assert!(lines[9].contains("Wed 04. Mar"));
}

#[test]
fn report_caps_days_at_what_is_available() {
    let data = Data {
        current_condition: vec![sample()],
        request: vec![Request { query: "X".to_string() }],
        weather: vec![day_with(vec![])],
    };
    let cfg = Config { use_zh: false, days: 3 };
    let lines = wttr::report::render_report(&data, &cfg);
    assert_eq!(lines.len(), 8 + 10);
}
