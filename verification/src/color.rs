//! Value colorizers: temperature and wind speed each select one palette
//! color by fixed bands, and the number is wrapped in a pair of zero-width
//! style directives carrying that color.

use vstd::prelude::*;
use crate::numfmt::{
    dec_int, pad3, decimal_chars, lemma_dec_digits_decimal, format_i32, format_u32_pad3,
};
use crate::width::{
    visible_width, width_from, inside_after, well_styled, no_escape, push_char, next_inside,
    step_width, lemma_width_from_concat, lemma_inside_after_concat, lemma_inside_stays,
    lemma_no_escape_well_styled,
};

verus! {

/// A complete style directive: the escape character, a body, and the
/// closing `m`.
pub open spec fn directive(mid: Seq<char>) -> Seq<char> {
    seq!['\u{1b}'] + mid + seq!['m']
}

/// Palette indices are never negative; the spec clamps for totality.
pub open spec fn clamp_nat(col: int) -> nat {
    if col >= 0 {
        col as nat
    } else {
        0
    }
}

/// The body of the color-selecting directive.
pub open spec fn open_mid(col: int) -> Seq<char> {
    seq!['[', '3', '8', ';', '5', ';'] + pad3(clamp_nat(col))
}

/// The directive selecting 256-color palette entry `col`.
pub open spec fn color_open(col: int) -> Seq<char> {
    directive(open_mid(col))
}

/// The directive restoring default style.
pub open spec fn color_reset() -> Seq<char> {
    directive(seq!['[', '0'])
}

/// `body` wrapped in a color directive pair for palette entry `col`.
pub open spec fn colorize(col: int, body: Seq<char>) -> Seq<char> {
    color_open(col) + body + color_reset()
}

/// A complete directive occupies no columns and leaves the latch
/// disengaged.
pub proof fn lemma_directive_zero(mid: Seq<char>)
    requires
        forall|i: int| 0 <= i < mid.len() ==> mid[i] != 'm',
    ensures
        width_from(directive(mid), false) == 0,
        !inside_after(directive(mid), false),
{
    let e = seq!['\u{1b}'];
    let m = seq!['m'];
    assert(e.len() == 1 && e[0] == '\u{1b}');
    assert(m.len() == 1 && m[0] == 'm');
    assert(e.drop_first() =~= Seq::<char>::empty());
    assert(m.drop_first() =~= Seq::<char>::empty());
    assert(width_from(Seq::<char>::empty(), true) == 0);
    assert(inside_after(Seq::<char>::empty(), true));
    assert(width_from(e, false) == step_width('\u{1b}', false) + width_from(
        e.drop_first(),
        next_inside('\u{1b}', false),
    ));
    assert(width_from(e, false) == 0);
    assert(inside_after(e, false) == inside_after(e.drop_first(), next_inside('\u{1b}', false)));
    assert(inside_after(e, false));
    lemma_inside_stays(mid);
    assert(width_from(m, true) == step_width('m', true) + width_from(
        m.drop_first(),
        next_inside('m', true),
    ));
    assert(width_from(m, true) == 0);
    assert(!inside_after(Seq::<char>::empty(), false));
    assert(inside_after(m, true) == inside_after(m.drop_first(), next_inside('m', true)));
    assert(!inside_after(m, true));
    lemma_width_from_concat(e + mid, m, false);
    lemma_width_from_concat(e, mid, false);
    lemma_inside_after_concat(e + mid, m, false);
    lemma_inside_after_concat(e, mid, false);
}

/// Wrapping a color directive pair around escape-free text changes neither
/// its visible width nor its well-styledness: the directives are
/// zero-width.
pub proof fn lemma_colorize_width(col: int, body: Seq<char>)
    requires
        no_escape(body),
    ensures
        visible_width(colorize(col, body)) == visible_width(body),
        well_styled(colorize(col, body)),
{
    let o = color_open(col);
    let r = color_reset();
    lemma_open_mid_no_m(col);
    lemma_directive_zero(open_mid(col));
    lemma_directive_zero(seq!['[', '0']);
    lemma_no_escape_well_styled(body);
    lemma_width_from_concat(o + body, r, false);
    lemma_width_from_concat(o, body, false);
    lemma_inside_after_concat(o + body, r, false);
    lemma_inside_after_concat(o, body, false);
}

proof fn lemma_open_mid_no_m(col: int)
    ensures
        forall|i: int| 0 <= i < open_mid(col).len() ==> open_mid(col)[i] != 'm',
{
    let n: nat = clamp_nat(col);
    let head = seq!['[', '3', '8', ';', '5', ';'];
    let mid = open_mid(col);
    lemma_dec_digits_decimal(n);
    assert(decimal_chars(pad3(n))) by {
        assert forall|i: int| 0 <= i < pad3(n).len() implies 48 <= (#[trigger] pad3(n)[i]) as u32
            <= 57 by {
            lemma_pad3_decimal_at(n, i);
        }
    }
    assert forall|i: int| 0 <= i < mid.len() implies mid[i] != 'm' by {
        if i >= head.len() {
            assert(mid[i] == pad3(n)[i - head.len()]);
            assert(48 <= mid[i] as u32 <= 57);
        }
    }
}

proof fn lemma_pad3_decimal_at(n: nat, i: int)
    requires
        0 <= i < pad3(n).len(),
    ensures
        48 <= pad3(n)[i] as u32 <= 57,
{
    lemma_dec_digits_decimal(n);
    let d = crate::numfmt::dec_digits(n);
    if n < 10 {
        if i >= 2 {
            assert(pad3(n)[i] == d[i - 2]);
        }
    } else if n < 100 {
        if i >= 1 {
            assert(pad3(n)[i] == d[i - 1]);
        }
    } else {
        assert(pad3(n) == d);
    }
}

/// The palette entry for a temperature band, coldest first.
pub open spec fn temp_palette(band: int) -> int {
    if band <= 0 {
        21
    } else if band == 1 {
        27
    } else if band == 2 {
        33
    } else if band == 3 {
        39
    } else if band == 4 {
        45
    } else if band == 5 {
        51
    } else if band == 6 {
        50
    } else if band == 7 {
        49
    } else if band == 8 {
        48
    } else if band == 9 {
        47
    } else if band == 10 {
        46
    } else if band == 11 {
        82
    } else if band == 12 {
        118
    } else if band == 13 {
        154
    } else if band == 14 {
        190
    } else if band == 15 {
        226
    } else if band == 16 {
        220
    } else if band == 17 {
        214
    } else if band == 18 {
        208
    } else if band == 19 {
        202
    } else {
        196
    }
}

/// The temperature band of `t` degrees Celsius: band 0 below -15, then
/// fixed intervals up to +36, band 20 above.
pub open spec fn temp_band(t: int) -> int {
    if t < -15 {
        0
    } else if t <= -13 {
        1
    } else if t <= -10 {
        2
    } else if t <= -7 {
        3
    } else if t <= -4 {
        4
    } else if t <= -1 {
        5
    } else if t <= 1 {
        6
    } else if t <= 3 {
        7
    } else if t <= 5 {
        8
    } else if t <= 7 {
        9
    } else if t <= 9 {
        10
    } else if t <= 12 {
        11
    } else if t <= 15 {
        12
    } else if t <= 18 {
        13
    } else if t <= 21 {
        14
    } else if t <= 24 {
        15
    } else if t <= 27 {
        16
    } else if t <= 30 {
        17
    } else if t <= 33 {
        18
    } else if t <= 36 {
        19
    } else {
        20
    }
}

/// The palette color shown for `t` degrees Celsius.
pub open spec fn temp_color(t: int) -> int {
    temp_palette(temp_band(t))
}

/// The palette entry for a wind band, calm first.
pub open spec fn wind_palette(band: int) -> int {
    if band <= 0 {
        46
    } else if band == 1 {
        82
    } else if band == 2 {
        118
    } else if band == 3 {
        154
    } else if band == 4 {
        190
    } else if band == 5 {
        226
    } else if band == 6 {
        220
    } else if band == 7 {
        214
    } else if band == 8 {
        208
    } else if band == 9 {
        202
    } else {
        196
    }
}

/// The wind band of `v` km/h: band 0 for calm, then fixed intervals up to
/// 31 km/h, band 10 above.
pub open spec fn wind_band(v: int) -> int {
    if v <= 0 {
        0
    } else if v <= 3 {
        1
    } else if v <= 6 {
        2
    } else if v <= 9 {
        3
    } else if v <= 12 {
        4
    } else if v <= 15 {
        5
    } else if v <= 19 {
        6
    } else if v <= 23 {
        7
    } else if v <= 27 {
        8
    } else if v <= 31 {
        9
    } else {
        10
    }
}

/// The palette color shown for `v` km/h of wind.
pub open spec fn wind_color(v: int) -> int {
    wind_palette(wind_band(v))
}

/// Every temperature falls in exactly one band: the band mapping is total
/// and monotone, so the bands partition the integers into intervals.
pub proof fn lemma_temp_bands_partition(t1: int, t2: int)
    requires
        t1 <= t2,
    ensures
        0 <= temp_band(t1) <= 20,
        temp_band(t1) <= temp_band(t2),
{
}

/// Every wind speed falls in exactly one band, and the bands are ordered
/// intervals.
pub proof fn lemma_wind_bands_partition(v1: int, v2: int)
    requires
        v1 <= v2,
    ensures
        0 <= wind_band(v1) <= 10,
        wind_band(v1) <= wind_band(v2),
{
}

/// Distinct temperature bands are shown in distinct colors.
pub proof fn lemma_temp_palette_injective(b1: int, b2: int)
    requires
        0 <= b1 <= 20,
        0 <= b2 <= 20,
        b1 != b2,
    ensures
        temp_palette(b1) != temp_palette(b2),
{
}

/// Distinct wind bands are shown in distinct colors.
pub proof fn lemma_wind_palette_injective(b1: int, b2: int)
    requires
        0 <= b1 <= 10,
        0 <= b2 <= 10,
        b1 != b2,
    ensures
        wind_palette(b1) != wind_palette(b2),
{
}

/// Wrap `body` in the directive pair for palette entry `col`.
fn paint(col: u32, body: &str) -> (r: String)
    ensures
        r@ == colorize(col as int, body@),
{
    let mut s = String::new();
    push_char(&mut s, '\u{1b}');
    s.append("[38;5;");
    let p = format_u32_pad3(col);
    s.append(p.as_str());
    push_char(&mut s, 'm');
    s.append(body);
    push_char(&mut s, '\u{1b}');
    s.append("[0m");
    proof {
        reveal_strlit("[38;5;");
        reveal_strlit("[0m");
        assert(s@ =~= colorize(col as int, body@));
    }
    s
}

/// The exec band selector for temperatures.
fn temp_color_of(t: i32) -> (c: u32)
    ensures
        c as int == temp_color(t as int),
{
    if t < -15 {
        21
    } else if t <= -13 {
        27
    } else if t <= -10 {
        33
    } else if t <= -7 {
        39
    } else if t <= -4 {
        45
    } else if t <= -1 {
        51
    } else if t <= 1 {
        50
    } else if t <= 3 {
        49
    } else if t <= 5 {
        48
    } else if t <= 7 {
        47
    } else if t <= 9 {
        46
    } else if t <= 12 {
        82
    } else if t <= 15 {
        118
    } else if t <= 18 {
        154
    } else if t <= 21 {
        190
    } else if t <= 24 {
        226
    } else if t <= 27 {
        220
    } else if t <= 30 {
        214
    } else if t <= 33 {
        208
    } else if t <= 36 {
        202
    } else {
        196
    }
}

/// The exec band selector for wind speeds.
fn wind_color_of(v: i32) -> (c: u32)
    ensures
        c as int == wind_color(v as int),
{
    if v <= 0 {
        46
    } else if v <= 3 {
        82
    } else if v <= 6 {
        118
    } else if v <= 9 {
        154
    } else if v <= 12 {
        190
    } else if v <= 15 {
        226
    } else if v <= 19 {
        220
    } else if v <= 23 {
        214
    } else if v <= 27 {
        208
    } else if v <= 31 {
        202
    } else {
        196
    }
}

/// The colored text for a temperature, a total function of the value.
pub fn colorized_temp(temp: i32) -> (r: String)
    ensures
        r@ == colorize(temp_color(temp as int), dec_int(temp as int)),
        visible_width(r@) == dec_int(temp as int).len(),
        well_styled(r@),
{
    let col = temp_color_of(temp);
    let body = format_i32(temp);
    let r = paint(col, body.as_str());
    proof {
        crate::numfmt::lemma_dec_int_plain(temp as int);
        lemma_colorize_width(col as int, body@);
        crate::width::lemma_plain_text_width(body@);
    }
    r
}

/// The colored text for a wind speed, a total function of the value.
pub fn colorized_wind(spd: i32) -> (r: String)
    ensures
        r@ == colorize(wind_color(spd as int), dec_int(spd as int)),
        visible_width(r@) == dec_int(spd as int).len(),
        well_styled(r@),
{
    let col = wind_color_of(spd);
    let body = format_i32(spd);
    let r = paint(col, body.as_str());
    proof {
        crate::numfmt::lemma_dec_int_plain(spd as int);
        lemma_colorize_width(col as int, body@);
        crate::width::lemma_plain_text_width(body@);
    }
    r
}

} // verus!
