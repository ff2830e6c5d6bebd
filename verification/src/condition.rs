//! One weather observation rendered as five fixed-width cells: description,
//! temperature, wind, visibility and precipitation, each prefixed by one art
//! line of the condition icon.

use vstd::prelude::*;
use crate::color::{colorize, temp_color, wind_color, lemma_colorize_width};
use crate::icons::{
    icon_lines_ok, icon_spec, wind_icon_spec, code_to_icon, wind_dir_to_icon, lemma_wind_icon_wf,
};
use crate::numfmt::{
    dec_int, tenths_str, format_i32, format_tenths, lemma_dec_int_plain, lemma_tenths_plain,
};
use crate::width::{
    fit_spec, no_escape, plain_text, space_pad, visible_width, well_styled, push_char,
    HasTerminalDisplayLength, is_wide_char, lemma_fit_width, lemma_no_escape_well_styled,
    lemma_plain_text_width, lemma_well_styled_concat,
};

verus! {

/// Terminal columns of one data cell.
pub const CELL_WIDTH: usize = 30;

/// A single textual value as delivered by the decoder.
pub struct ValueWrapper {
    pub value: String,
}

/// One point-in-time weather reading.
pub struct WeatherCondition {
    pub cloudcover: i32,
    pub feels_like_c: i32,
    pub humidity: i32,
    /// Precipitation in tenths of a millimetre.
    pub precip_mm_tenths: u32,
    pub weather_code: i32,
    pub temp_c: Option<i32>,
    pub temp_c_alt: Option<i32>,
    pub time: Option<String>,
    pub chanceofrain: Option<i32>,
    pub observation_time: Option<String>,
    pub visibility: i32,
    pub weather_desc: Vec<ValueWrapper>,
    pub lang_zh: Vec<ValueWrapper>,
    pub winddir_16_point: String,
    pub windspeed_kmph: i32,
    pub wind_gust_kmph: Option<i32>,
}

impl WeatherCondition {
    /// What the decoder guarantees of a sample: a default-language
    /// description, at least one of the two temperature fields, and
    /// description text free of escape characters.  The alternate-language
    /// description may be absent.
    pub open spec fn wf(&self) -> bool {
        &&& self.weather_desc@.len() > 0
        &&& (self.temp_c is Some || self.temp_c_alt is Some)
        &&& no_escape(self.weather_desc@[0].value@)
        &&& (self.lang_zh@.len() > 0 ==> no_escape(self.lang_zh@[0].value@))
    }

    /// The actual temperature: the primary field, or its fallback.
    pub open spec fn temp_in_c_spec(&self) -> int {
        if self.temp_c is Some {
            self.temp_c->0 as int
        } else {
            self.temp_c_alt->0 as int
        }
    }

    pub fn temp_in_c(&self) -> (r: i32)
        requires
            self.temp_c is Some || self.temp_c_alt is Some,
        ensures
            r as int == self.temp_in_c_spec(),
    {
        match self.temp_c {
            Some(t) => t,
            None => self.temp_c_alt.unwrap(),
        }
    }

    /// The gust value used by the renderer: absent means none observed.
    pub open spec fn gust_spec(&self) -> int {
        if self.wind_gust_kmph is Some {
            self.wind_gust_kmph->0 as int
        } else {
            0
        }
    }

    /// The description shown: the alternate-language text when it is asked
    /// for and present, else the default one.
    pub open spec fn desc_text_spec(&self, use_zh: bool) -> Seq<char> {
        if use_zh && self.lang_zh@.len() > 0 {
            self.lang_zh@[0].value@
        } else {
            self.weather_desc@[0].value@
        }
    }

    /// The visibility field: the value and its unit.
    pub open spec fn visibility_line_spec(&self) -> Seq<char> {
        dec_int(self.visibility as int) + " km"@
    }

    /// The wind field: arrow, colorized sustained speed, then the gust
    /// when it exceeds the sustained speed.
    pub open spec fn wind_line_spec(&self) -> Seq<char> {
        let spd = self.windspeed_kmph as int;
        let gust = self.gust_spec();
        let arrow = wind_icon_spec(self.winddir_16_point@);
        if gust > spd {
            arrow + seq![' '] + colorize(wind_color(spd), dec_int(spd)) + " - "@ + colorize(
                wind_color(gust),
                dec_int(gust),
            ) + " km/h      "@
        } else {
            arrow + seq![' '] + colorize(wind_color(spd), dec_int(spd)) + " km/h      "@
        }
    }

    /// The temperature field: when feels-like and actual differ, the lower
    /// value is always shown first.
    pub open spec fn temp_line_spec(&self) -> Seq<char> {
        let a = self.temp_in_c_spec();
        let f = self.feels_like_c as int;
        if f < a {
            colorize(temp_color(f), dec_int(f)) + " - "@ + colorize(temp_color(a), dec_int(a))
                + " \u{b0}C         "@
        } else if f > a {
            colorize(temp_color(a), dec_int(a)) + " - "@ + colorize(temp_color(f), dec_int(f))
                + " \u{b0}C         "@
        } else {
            colorize(temp_color(f), dec_int(f)) + " \u{b0}C             "@
        }
    }

    /// The precipitation field: millimetres with one fractional digit, and
    /// the chance of rain when present.
    pub open spec fn rain_line_spec(&self) -> Seq<char> {
        match self.chanceofrain {
            Some(ratio) => tenths_str(self.precip_mm_tenths as nat) + " mm | "@ + dec_int(
                ratio as int,
            ) + "%        "@,
            None => tenths_str(self.precip_mm_tenths as nat) + " mm              "@,
        }
    }

    pub fn format_visibility(&self) -> (r: String)
        ensures
            r@ == self.visibility_line_spec(),
    {
        let mut s = format_i32(self.visibility);
        s.append(" km");
        s
    }

    pub fn format_wind(&self) -> (r: String)
        ensures
            r@ == self.wind_line_spec(),
    {
        let gust = match self.wind_gust_kmph {
            Some(g) => g,
            None => 0,
        };
        let mut s = String::from_str(wind_dir_to_icon(self.winddir_16_point.as_str()));
        push_char(&mut s, ' ');
        let c1 = crate::color::colorized_wind(self.windspeed_kmph);
        s.append(c1.as_str());
        if gust > self.windspeed_kmph {
            s.append(" - ");
            let c2 = crate::color::colorized_wind(gust);
            s.append(c2.as_str());
            s.append(" km/h      ");
            proof {
                assert(s@ =~= self.wind_line_spec());
            }
            s
        } else {
            s.append(" km/h      ");
            proof {
                assert(s@ =~= self.wind_line_spec());
            }
            s
        }
    }

    pub fn format_temp(&self) -> (r: String)
        requires
            self.temp_c is Some || self.temp_c_alt is Some,
        ensures
            r@ == self.temp_line_spec(),
    {
        let a = self.temp_in_c();
        let f = self.feels_like_c;
        if f < a {
            let mut s = crate::color::colorized_temp(f);
            s.append(" - ");
            let c2 = crate::color::colorized_temp(a);
            s.append(c2.as_str());
            s.append(" \u{b0}C         ");
            proof {
                assert(s@ =~= self.temp_line_spec());
            }
            s
        } else if f > a {
            let mut s = crate::color::colorized_temp(a);
            s.append(" - ");
            let c2 = crate::color::colorized_temp(f);
            s.append(c2.as_str());
            s.append(" \u{b0}C         ");
            proof {
                assert(s@ =~= self.temp_line_spec());
            }
            s
        } else {
            let mut s = crate::color::colorized_temp(f);
            s.append(" \u{b0}C             ");
            proof {
                assert(s@ =~= self.temp_line_spec());
            }
            s
        }
    }

    pub fn format_rain(&self) -> (r: String)
        ensures
            r@ == self.rain_line_spec(),
    {
        let mut s = format_tenths(self.precip_mm_tenths);
        match self.chanceofrain {
            Some(ratio) => {
                s.append(" mm | ");
                let d = format_i32(ratio);
                s.append(d.as_str());
                s.append("%        ");
                proof {
                    assert(s@ =~= self.rain_line_spec());
                }
            },
            None => {
                s.append(" mm              ");
                proof {
                    assert(s@ =~= self.rain_line_spec());
                }
            },
        }
        s
    }
}

/// A description field is clipped to fifteen characters, or padded with
/// spaces up to fifteen.
pub open spec fn desc_field_spec(d: Seq<char>) -> Seq<char> {
    if d.len() >= 15 {
        d.take(15)
    } else {
        d + space_pad(15 - d.len())
    }
}

/// Clip or pad a description to its fifteen-character field.
pub fn desc_field(d: &str) -> (r: String)
    ensures
        r@ == desc_field_spec(d@),
{
    let n = d.unicode_len();
    let mut s = String::new();
    let mut i: usize = 0;
    let keep = if n < 15 {
        n
    } else {
        15
    };
    proof {
        assert(s@ =~= d@.take(0));
    }
    while i < keep
        invariant
            keep <= n,
            n == d@.len(),
            i <= keep,
            keep <= 15,
            s@ == d@.take(i as int),
        decreases keep - i,
    {
        push_char(&mut s, d.get_char(i));
        proof {
            assert(d@.take(i as int).push(d@[i as int]) =~= d@.take(i + 1));
        }
        i = i + 1;
    }
    let mut j: usize = 0;
    let pad = 15 - keep;
    proof {
        assert(s@ + space_pad(0) =~= s@);
    }
    let ghost base = s@;
    while j < pad
        invariant
            j <= pad,
            s@ == base + space_pad(j as int),
        decreases pad - j,
    {
        push_char(&mut s, ' ');
        proof {
            assert(space_pad(j + 1) =~= space_pad(j as int).push(' '));
            assert(s@ =~= base + space_pad(j + 1));
        }
        j = j + 1;
    }
    proof {
        if d@.len() >= 15 {
            assert(s@ =~= desc_field_spec(d@));
        } else {
            assert(base =~= d@);
            assert(s@ =~= desc_field_spec(d@));
        }
    }
    s
}

/// Clipping or padding a description keeps it free of escapes.
pub proof fn lemma_desc_field_no_escape(d: Seq<char>)
    requires
        no_escape(d),
    ensures
        no_escape(desc_field_spec(d)),
        well_styled(desc_field_spec(d)),
{
    let f = desc_field_spec(d);
    assert forall|i: int| 0 <= i < f.len() implies f[i] != '\u{1b}' by {
        if d.len() >= 15 {
            assert(f[i] == d[i]);
        } else {
            if i < d.len() {
                assert(f[i] == d[i]);
            } else {
                assert(f[i] == ' ');
            }
        }
    }
    lemma_no_escape_well_styled(f);
}

/// The literal fragments of the data cells are plain narrow text.
proof fn lemma_fragments_plain()
    ensures
        plain_text(" - "@),
        plain_text(" \u{b0}C         "@),
        plain_text(" \u{b0}C             "@),
        plain_text(" km/h      "@),
        plain_text(" km"@),
        plain_text(" mm | "@),
        plain_text("%        "@),
        plain_text(" mm              "@),
        plain_text(seq![' ']),
{
    reveal_strlit(" - ");
    reveal_strlit(" \u{b0}C         ");
    reveal_strlit(" \u{b0}C             ");
    reveal_strlit(" km/h      ");
    reveal_strlit(" km");
    reveal_strlit(" mm | ");
    reveal_strlit("%        ");
    reveal_strlit(" mm              ");
    assert forall|k: int| 0 <= k < " - "@.len() implies " - "@[k] != '\u{1b}' && !is_wide_char(
        " - "@[k],
    ) by {}
    assert forall|k: int|
        0 <= k < " \u{b0}C         "@.len() implies " \u{b0}C         "@[k] != '\u{1b}'
            && !is_wide_char(" \u{b0}C         "@[k]) by {}
    assert forall|k: int|
        0 <= k < " \u{b0}C             "@.len() implies " \u{b0}C             "@[k] != '\u{1b}'
            && !is_wide_char(" \u{b0}C             "@[k]) by {}
    assert forall|k: int|
        0 <= k < " km/h      "@.len() implies " km/h      "@[k] != '\u{1b}' && !is_wide_char(
            " km/h      "@[k],
        ) by {}
    assert forall|k: int| 0 <= k < " km"@.len() implies " km"@[k] != '\u{1b}' && !is_wide_char(
        " km"@[k],
    ) by {}
    assert forall|k: int| 0 <= k < " mm | "@.len() implies " mm | "@[k] != '\u{1b}'
        && !is_wide_char(" mm | "@[k]) by {}
    assert forall|k: int| 0 <= k < "%        "@.len() implies "%        "@[k] != '\u{1b}'
        && !is_wide_char("%        "@[k]) by {}
    assert forall|k: int|
        0 <= k < " mm              "@.len() implies " mm              "@[k] != '\u{1b}'
            && !is_wide_char(" mm              "@[k]) by {}
    assert(seq![' '].len() == 1 && seq![' '][0] == ' ');
}

impl WeatherCondition {
    /// The data line of each of the five cells: description, temperature,
    /// wind, visibility, precipitation.
    pub open spec fn field_line_spec(&self, use_zh: bool, i: int) -> Seq<char> {
        if i == 0 {
            desc_field_spec(self.desc_text_spec(use_zh))
        } else if i == 1 {
            self.temp_line_spec()
        } else if i == 2 {
            self.wind_line_spec()
        } else if i == 3 {
            self.visibility_line_spec()
        } else {
            self.rain_line_spec()
        }
    }

    /// Cell `i` of this observation: one art line of the icon chosen by
    /// the condition code, a space, and the matching data line, fitted to
    /// the cell width.
    pub open spec fn cell_spec(&self, use_zh: bool, i: int) -> Seq<char> {
        fit_spec(
            icon_spec(self.weather_code as int)[i] + seq![' '] + self.field_line_spec(use_zh, i),
            CELL_WIDTH as int,
        )
    }

    /// Every data field line leaves no style directive open.
    pub proof fn lemma_lines_well_styled(&self)
        ensures
            well_styled(self.visibility_line_spec()),
            well_styled(self.wind_line_spec()),
            well_styled(self.temp_line_spec()),
            well_styled(self.rain_line_spec()),
    {
        lemma_fragments_plain();
        let spd = self.windspeed_kmph as int;
        let gust = self.gust_spec();
        let a = self.temp_in_c_spec();
        let f = self.feels_like_c as int;
        let vis = self.visibility as int;
        let tenths = self.precip_mm_tenths as nat;
        lemma_dec_int_plain(vis);
        lemma_dec_int_plain(spd);
        lemma_dec_int_plain(gust);
        lemma_dec_int_plain(a);
        lemma_dec_int_plain(f);
        lemma_tenths_plain(tenths);
        lemma_plain_text_width(dec_int(vis));
        lemma_plain_text_width(" km"@);
        lemma_well_styled_concat(dec_int(vis), " km"@);
        lemma_colorize_width(wind_color(spd), dec_int(spd));
        lemma_colorize_width(wind_color(gust), dec_int(gust));
        lemma_colorize_width(temp_color(a), dec_int(a));
        lemma_colorize_width(temp_color(f), dec_int(f));
        lemma_wind_icon_wf(self.winddir_16_point@);
        let arrow = wind_icon_spec(self.winddir_16_point@);
        lemma_plain_text_width(seq![' ']);
        lemma_plain_text_width(" - "@);
        lemma_plain_text_width(" km/h      "@);
        lemma_plain_text_width(" \u{b0}C         "@);
        lemma_plain_text_width(" \u{b0}C             "@);
        lemma_plain_text_width(" mm | "@);
        lemma_plain_text_width("%        "@);
        lemma_plain_text_width(" mm              "@);
        let c1 = colorize(wind_color(spd), dec_int(spd));
        let c2 = colorize(wind_color(gust), dec_int(gust));
        lemma_well_styled_concat(arrow, seq![' ']);
        lemma_well_styled_concat(arrow + seq![' '], c1);
        if gust > spd {
            lemma_well_styled_concat(arrow + seq![' '] + c1, " - "@);
            lemma_well_styled_concat(arrow + seq![' '] + c1 + " - "@, c2);
            lemma_well_styled_concat(arrow + seq![' '] + c1 + " - "@ + c2, " km/h      "@);
        } else {
            lemma_well_styled_concat(arrow + seq![' '] + c1, " km/h      "@);
        }
        let t1 = colorize(temp_color(a), dec_int(a));
        let t2 = colorize(temp_color(f), dec_int(f));
        if f < a {
            lemma_well_styled_concat(t2, " - "@);
            lemma_well_styled_concat(t2 + " - "@, t1);
            lemma_well_styled_concat(t2 + " - "@ + t1, " \u{b0}C         "@);
        } else if f > a {
            lemma_well_styled_concat(t1, " - "@);
            lemma_well_styled_concat(t1 + " - "@, t2);
            lemma_well_styled_concat(t1 + " - "@ + t2, " \u{b0}C         "@);
        } else {
            lemma_well_styled_concat(t2, " \u{b0}C             "@);
        }
        let ts = tenths_str(tenths);
        lemma_plain_text_width(ts);
        match self.chanceofrain {
            Some(ratio) => {
                lemma_dec_int_plain(ratio as int);
                lemma_plain_text_width(dec_int(ratio as int));
                lemma_well_styled_concat(ts, " mm | "@);
                lemma_well_styled_concat(ts + " mm | "@, dec_int(ratio as int));
                lemma_well_styled_concat(ts + " mm | "@ + dec_int(ratio as int), "%        "@);
            },
            None => {
                lemma_well_styled_concat(ts, " mm              "@);
            },
        }
    }

    /// The five cells for this observation, each one icon art line plus the
    /// matching data field, fitted to the cell width.
    pub fn format_cells(&self, icon: [&'static str; 5], use_zh: bool) -> (r: Vec<String>)
        requires
            self.wf(),
            icon_lines_ok(icon),
        ensures
            r@.len() == 5,
            r@[0]@ == fit_spec(
                icon@[0]@ + seq![' '] + desc_field_spec(self.desc_text_spec(use_zh)),
                CELL_WIDTH as int,
            ),
            r@[1]@ == fit_spec(
                icon@[1]@ + seq![' '] + self.temp_line_spec(),
                CELL_WIDTH as int,
            ),
            r@[2]@ == fit_spec(
                icon@[2]@ + seq![' '] + self.wind_line_spec(),
                CELL_WIDTH as int,
            ),
            r@[3]@ == fit_spec(
                icon@[3]@ + seq![' '] + self.visibility_line_spec(),
                CELL_WIDTH as int,
            ),
            r@[4]@ == fit_spec(
                icon@[4]@ + seq![' '] + self.rain_line_spec(),
                CELL_WIDTH as int,
            ),
            forall|i: int| 0 <= i < 5 ==> visible_width(#[trigger] r@[i]@) == CELL_WIDTH as int,
            forall|i: int| 0 <= i < 5 ==> well_styled(#[trigger] r@[i]@),
    {
        proof {
            self.lemma_lines_well_styled();
            lemma_fragments_plain();
            lemma_plain_text_width(seq![' ']);
            lemma_desc_field_no_escape(self.desc_text_spec(use_zh));
        }
        let d = if use_zh && self.lang_zh.len() > 0 {
            desc_field(self.lang_zh[0].value.as_str())
        } else {
            desc_field(self.weather_desc[0].value.as_str())
        };
        let cell0 = fit_icon_line(icon[0], d.as_str());
        let t = self.format_temp();
        let cell1 = fit_icon_line(icon[1], t.as_str());
        let wnd = self.format_wind();
        let cell2 = fit_icon_line(icon[2], wnd.as_str());
        let v = self.format_visibility();
        let cell3 = fit_icon_line(icon[3], v.as_str());
        let rn = self.format_rain();
        let cell4 = fit_icon_line(icon[4], rn.as_str());
        let mut r: Vec<String> = Vec::new();
        r.push(cell0);
        r.push(cell1);
        r.push(cell2);
        r.push(cell3);
        r.push(cell4);
        r
    }

    /// The five cells for this observation, with the icon chosen by the
    /// condition code; each cell is the icon art line plus its data field,
    /// and occupies exactly the cell width.
    pub fn format(&self, use_zh: bool) -> (r: Vec<String>)
        requires
            self.wf(),
        ensures
            r@.len() == 5,
            forall|i: int| 0 <= i < 5 ==> (#[trigger] r@[i]@) == self.cell_spec(use_zh, i),
            forall|i: int| 0 <= i < 5 ==> visible_width(#[trigger] r@[i]@) == CELL_WIDTH as int,
            forall|i: int| 0 <= i < 5 ==> well_styled(#[trigger] r@[i]@),
    {
        let icon = code_to_icon(self.weather_code);
        let r = self.format_cells(icon, use_zh);
        proof {
            let code = self.weather_code as int;
            assert(icon@[0]@ == icon_spec(code)[0]);
            assert(icon@[1]@ == icon_spec(code)[1]);
            assert(icon@[2]@ == icon_spec(code)[2]);
            assert(icon@[3]@ == icon_spec(code)[3]);
            assert(icon@[4]@ == icon_spec(code)[4]);
            assert(r@[0]@ == self.cell_spec(use_zh, 0));
            assert(r@[1]@ == self.cell_spec(use_zh, 1));
            assert(r@[2]@ == self.cell_spec(use_zh, 2));
            assert(r@[3]@ == self.cell_spec(use_zh, 3));
            assert(r@[4]@ == self.cell_spec(use_zh, 4));
        }
        r
    }
}

/// One cell: an icon art line, a space, a data line, fitted to the width.
fn fit_icon_line(icon_line: &str, body: &str) -> (r: String)
    requires
        well_styled(icon_line@),
        well_styled(body@),
    ensures
        r@ == fit_spec(icon_line@ + seq![' '] + body@, CELL_WIDTH as int),
        visible_width(r@) == CELL_WIDTH as int,
        well_styled(r@),
{
    let mut line = String::from_str(icon_line);
    push_char(&mut line, ' ');
    line.append(body);
    proof {
        assert(line@ =~= icon_line@ + seq![' '] + body@);
        lemma_fragments_plain();
        lemma_plain_text_width(seq![' ']);
        lemma_well_styled_concat(icon_line@, seq![' ']);
        lemma_well_styled_concat(icon_line@ + seq![' '], body@);
        lemma_fit_width(icon_line@ + seq![' '] + body@, CELL_WIDTH as int);
        crate::width::lemma_fit_well_styled(icon_line@ + seq![' '] + body@, CELL_WIDTH as int);
    }
    line.fit_to_term_len(CELL_WIDTH)
}

} // verus!
