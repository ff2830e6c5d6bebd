//! One forecast day rendered as a bordered table: a date header, the four
//! period captions, and five data rows assembled from the retained hourly
//! samples.

use vstd::prelude::*;
use crate::condition::{WeatherCondition, CELL_WIDTH};
use crate::numfmt::{dec_digits, digit_char, format_u32};
use crate::width::{
    visible_width, well_styled, plain_text, push_char, str_eq, lemma_plain_text_width,
    lemma_well_styled_concat,
};

verus! {

/// Sun and moon times for one day, as delivered by the decoder.
pub struct Astronomy {
    pub moonrise: String,
    pub moonset: String,
    pub sunrise: String,
    pub sunset: String,
}

/// One forecast day: a date, its hourly samples, and the day's extremes.
pub struct Weather {
    pub astronomy: Vec<Astronomy>,
    pub date: String,
    pub hourly: Vec<WeatherCondition>,
    pub maxtemp_c: i32,
    pub mintemp_c: i32,
    pub uv_index: i32,
}

/// A decimal digit character.
pub open spec fn is_digit(c: char) -> bool {
    48 <= c as u32 <= 57
}

/// The numeric value of a digit character.
pub open spec fn digit_val(c: char) -> int {
    c as u32 - 48
}

/// The date field has the shape `YYYY-MM-DD`.
pub open spec fn date_shape(s: Seq<char>) -> bool {
    &&& s.len() == 10
    &&& is_digit(s[0])
    &&& is_digit(s[1])
    &&& is_digit(s[2])
    &&& is_digit(s[3])
    &&& s[4] == '-'
    &&& is_digit(s[5])
    &&& is_digit(s[6])
    &&& s[7] == '-'
    &&& is_digit(s[8])
    &&& is_digit(s[9])
}

pub open spec fn parsed_year(s: Seq<char>) -> int {
    digit_val(s[0]) * 1000 + digit_val(s[1]) * 100 + digit_val(s[2]) * 10 + digit_val(s[3])
}

pub open spec fn parsed_month(s: Seq<char>) -> int {
    digit_val(s[5]) * 10 + digit_val(s[6])
}

pub open spec fn parsed_day(s: Seq<char>) -> int {
    digit_val(s[8]) * 10 + digit_val(s[9])
}

/// A leap year in the proleptic Gregorian calendar.
pub open spec fn leap_year(y: int) -> bool {
    y % 4 == 0 && (y % 100 != 0 || y % 400 == 0)
}

/// The number of days in a month.
pub open spec fn days_in_month(y: int, m: int) -> int {
    if m == 2 {
        if leap_year(y) {
            29
        } else {
            28
        }
    } else if m == 4 || m == 6 || m == 9 || m == 11 {
        30
    } else {
        31
    }
}

/// A calendar date the date library accepts.
pub open spec fn valid_date(y: int, m: int, d: int) -> bool {
    &&& -9999 <= y <= 9999
    &&& 1 <= m <= 12
    &&& 1 <= d <= days_in_month(y, m)
}

/// What the weekday of a calendar date is, as days since Sunday; a pure
/// function of the date.
pub uninterp spec fn weekday_of(y: int, m: int, d: int) -> int;

/// Relies on time's `Month::try_from`, `Date::from_calendar_date` and
/// `Date::weekday`: construction succeeds exactly for valid calendar dates
/// in the supported year range, and the weekday is a function of the date
/// alone, counted from Sunday.
#[verifier::external_body]
fn weekday_from_date(y: i32, m: u8, d: u8) -> (r: Option<u8>)
    ensures
        r is Some <==> valid_date(y as int, m as int, d as int),
        r matches Some(w) ==> w < 7 && w as int == weekday_of(y as int, m as int, d as int),
{
    match time::Month::try_from(m) {
        Ok(month) => match time::Date::from_calendar_date(y, month, d) {
            Ok(date) => Some(date.weekday().number_days_from_sunday()),
            Err(_) => None,
        },
        Err(_) => None,
    }
}

fn digit_of(c: char) -> (r: Option<u32>)
    ensures
        r is Some <==> is_digit(c),
        r matches Some(v) ==> v as int == digit_val(c) && v < 10,
{
    let u = c as u32;
    if 48 <= u && u <= 57 {
        Some(u - 48)
    } else {
        None
    }
}

/// Parse a `YYYY-MM-DD` date field into year, month and day.
pub fn parse_date(s: &str) -> (r: Option<(i32, u8, u8)>)
    ensures
        r is Some <==> date_shape(s@),
        r matches Some(t) ==> t.0 as int == parsed_year(s@) && t.1 as int == parsed_month(s@)
            && t.2 as int == parsed_day(s@),
{
    if s.unicode_len() != 10 {
        return None;
    }
    let d0 = digit_of(s.get_char(0));
    let d1 = digit_of(s.get_char(1));
    let d2 = digit_of(s.get_char(2));
    let d3 = digit_of(s.get_char(3));
    if s.get_char(4) != '-' {
        return None;
    }
    let d5 = digit_of(s.get_char(5));
    let d6 = digit_of(s.get_char(6));
    if s.get_char(7) != '-' {
        return None;
    }
    let d8 = digit_of(s.get_char(8));
    let d9 = digit_of(s.get_char(9));
    match (d0, d1, d2, d3, d5, d6, d8, d9) {
        (
            Some(v0),
            Some(v1),
            Some(v2),
            Some(v3),
            Some(v5),
            Some(v6),
            Some(v8),
            Some(v9),
        ) => {
            let y = v0 * 1000 + v1 * 100 + v2 * 10 + v3;
            let m = v5 * 10 + v6;
            let d = v8 * 10 + v9;
            Some(((y as i32), (m as u8), (d as u8)))
        },
        _ => None,
    }
}

/// The three-letter weekday label, Sunday first.
pub open spec fn weekday_name(w: int) -> Seq<char> {
    if w == 0 {
        "Sun"@
    } else if w == 1 {
        "Mon"@
    } else if w == 2 {
        "Tue"@
    } else if w == 3 {
        "Wed"@
    } else if w == 4 {
        "Thu"@
    } else if w == 5 {
        "Fri"@
    } else {
        "Sat"@
    }
}

/// The three-letter month label.
pub open spec fn month_name(m: int) -> Seq<char> {
    if m == 1 {
        "Jan"@
    } else if m == 2 {
        "Feb"@
    } else if m == 3 {
        "Mar"@
    } else if m == 4 {
        "Apr"@
    } else if m == 5 {
        "May"@
    } else if m == 6 {
        "Jun"@
    } else if m == 7 {
        "Jul"@
    } else if m == 8 {
        "Aug"@
    } else if m == 9 {
        "Sep"@
    } else if m == 10 {
        "Oct"@
    } else if m == 11 {
        "Nov"@
    } else {
        "Dec"@
    }
}

fn weekday_name_str(w: u8) -> (r: &'static str)
    ensures
        r@ == weekday_name(w as int),
{
    if w == 0 {
        "Sun"
    } else if w == 1 {
        "Mon"
    } else if w == 2 {
        "Tue"
    } else if w == 3 {
        "Wed"
    } else if w == 4 {
        "Thu"
    } else if w == 5 {
        "Fri"
    } else {
        "Sat"
    }
}

fn month_name_str(m: u8) -> (r: &'static str)
    ensures
        r@ == month_name(m as int),
{
    if m == 1 {
        "Jan"
    } else if m == 2 {
        "Feb"
    } else if m == 3 {
        "Mar"
    } else if m == 4 {
        "Apr"
    } else if m == 5 {
        "May"
    } else if m == 6 {
        "Jun"
    } else if m == 7 {
        "Jul"
    } else if m == 8 {
        "Aug"
    } else if m == 9 {
        "Sep"
    } else if m == 10 {
        "Oct"
    } else if m == 11 {
        "Nov"
    } else {
        "Dec"
    }
}

/// A day number zero-padded to two characters.
pub open spec fn pad2(n: int) -> Seq<char> {
    if 0 <= n < 10 {
        seq!['0', digit_char(n)]
    } else if n >= 0 {
        dec_digits(n as nat)
    } else {
        dec_digits(0)
    }
}

fn format_pad2(n: u32) -> (r: String)
    ensures
        r@ == pad2(n as int),
{
    let mut s = String::new();
    if n < 10 {
        push_char(&mut s, '0');
    }
    let d = format_u32(n);
    s.append(d.as_str());
    proof {
        assert(s@ =~= pad2(n as int));
    }
    s
}

/// The short date header: weekday, zero-padded day, month.
pub open spec fn date_label_spec(y: int, m: int, d: int) -> Seq<char> {
    weekday_name(weekday_of(y, m, d)) + seq![' '] + pad2(d) + ". "@ + month_name(m)
}

/// The hourly timestamps excluded from the table by the fixed
/// downsampling policy.
pub open spec fn excluded_hour(t: Seq<char>) -> bool {
    ||| t == "0"@
    ||| t == "100"@
    ||| t == "200"@
    ||| t == "300"@
    ||| t == "400"@
    ||| t == "500"@
    ||| t == "600"@
    ||| t == "700"@
    ||| t == "1400"@
    ||| t == "1500"@
    ||| t == "1600"@
    ||| t == "2300"@
}

/// Decide the downsampling policy for one timestamp label.
pub fn excluded_time(t: &str) -> (r: bool)
    ensures
        r == excluded_hour(t@),
{
    str_eq(t, "0") || str_eq(t, "100") || str_eq(t, "200") || str_eq(t, "300") || str_eq(
        t,
        "400",
    ) || str_eq(t, "500") || str_eq(t, "600") || str_eq(t, "700") || str_eq(t, "1400") || str_eq(
        t,
        "1500",
    ) || str_eq(t, "1600") || str_eq(t, "2300")
}

/// Whether a sample is shown in the day table.
pub open spec fn retained(h: WeatherCondition) -> bool {
    h.time is Some && !excluded_hour(h.time->0@)
}

/// How many samples of the sequence the table shows.
pub open spec fn retained_count(hours: Seq<WeatherCondition>) -> int
    decreases hours.len(),
{
    if hours.len() == 0 {
        0
    } else {
        (if retained(hours[0]) {
            1int
        } else {
            0int
        }) + retained_count(hours.drop_first())
    }
}

pub proof fn lemma_retained_count_snoc(hours: Seq<WeatherCondition>, h: WeatherCondition)
    ensures
        retained_count(hours.push(h)) == retained_count(hours) + (if retained(h) {
            1int
        } else {
            0int
        }),
    decreases hours.len(),
{
    let p = hours.push(h);
    assert(p.len() == hours.len() + 1);
    assert(retained_count(p) == (if retained(p[0]) {
        1int
    } else {
        0int
    }) + retained_count(p.drop_first()));
    if hours.len() == 0 {
        assert(p[0] == h);
        assert(p.drop_first() =~= Seq::<WeatherCondition>::empty());
        assert(retained_count(Seq::<WeatherCondition>::empty()) == 0);
        assert(retained_count(hours) == 0);
    } else {
        assert(p[0] == hours[0]);
        assert(p.drop_first() =~= hours.drop_first().push(h));
        lemma_retained_count_snoc(hours.drop_first(), h);
        assert(retained_count(hours) == (if retained(hours[0]) {
            1int
        } else {
            0int
        }) + retained_count(hours.drop_first()));
    }
}

/// Accumulator row `i` of the day table: a separator glyph, then, for
/// each retained sample in original order, its cell followed by another
/// separator.
pub open spec fn day_row_spec(hours: Seq<WeatherCondition>, use_zh: bool, i: int) -> Seq<char>
    decreases hours.len(),
{
    if hours.len() == 0 {
        seq!['|']
    } else {
        let prev = day_row_spec(hours.drop_last(), use_zh, i);
        let h = hours.last();
        if retained(h) {
            prev + h.cell_spec(use_zh, i) + seq!['|']
        } else {
            prev
        }
    }
}

pub proof fn lemma_retained_count_nonneg(hours: Seq<WeatherCondition>)
    ensures
        retained_count(hours) >= 0,
    decreases hours.len(),
{
    if hours.len() > 0 {
        lemma_retained_count_nonneg(hours.drop_first());
    }
}

/// A day whose samples are all excluded by the policy shows no columns.
///
/// This is the downsampling law: the five accumulator rows then hold
/// nothing but their initial separator glyph.
pub proof fn lemma_all_excluded_no_columns(hours: Seq<WeatherCondition>)
    requires
        forall|i: int| 0 <= i < hours.len() ==> !retained(#[trigger] hours[i]),
    ensures
        retained_count(hours) == 0,
    decreases hours.len(),
{
    if hours.len() > 0 {
        assert(forall|i: int|
            0 <= i < hours.drop_first().len() ==> hours.drop_first()[i] == hours[i + 1]);
        lemma_all_excluded_no_columns(hours.drop_first());
    }
}

impl Weather {
    /// What the decoder guarantees of a day: a well-shaped, valid date and
    /// well-formed hourly samples, each carrying its timestamp label.
    pub open spec fn wf(&self) -> bool {
        &&& date_shape(self.date@)
        &&& valid_date(parsed_year(self.date@), parsed_month(self.date@), parsed_day(self.date@))
        &&& forall|i: int|
            0 <= i < self.hourly@.len() ==> (#[trigger] self.hourly@[i]).wf()
                && self.hourly@[i].time is Some
    }

    /// The date header label for this day.
    pub fn date_label(&self) -> (r: String)
        requires
            self.wf(),
        ensures
            r@ == date_label_spec(
                parsed_year(self.date@),
                parsed_month(self.date@),
                parsed_day(self.date@),
            ),
    {
        let parsed = parse_date(self.date.as_str());
        let (y, m, d) = parsed.unwrap();
        let wd = weekday_from_date(y, m, d);
        let w = wd.unwrap();
        let mut s = String::from_str(weekday_name_str(w));
        push_char(&mut s, ' ');
        let dd = format_pad2(d as u32);
        s.append(dd.as_str());
        s.append(". ");
        s.append(month_name_str(m));
        proof {
            assert(s@ =~= date_label_spec(
                parsed_year(self.date@),
                parsed_month(self.date@),
                parsed_day(self.date@),
            ));
        }
        s
    }

    /// The five data rows of the day table: a separator glyph, then one
    /// cell and separator for each retained hourly sample.
    pub fn format_day(&self, use_zh: bool) -> (r: Vec<String>)
        requires
            self.wf(),
        ensures
            r@.len() == 5,
            forall|i: int| 0 <= i < 5 ==> (#[trigger] r@[i]@) == day_row_spec(
                self.hourly@,
                use_zh,
                i,
            ),
            forall|i: int|
                0 <= i < 5 ==> visible_width(#[trigger] r@[i]@) == 1 + 31 * retained_count(
                    self.hourly@,
                ),
            forall|i: int| 0 <= i < 5 ==> well_styled(#[trigger] r@[i]@),
            retained_count(self.hourly@) == 0 ==> forall|i: int|
                0 <= i < 5 ==> #[trigger] r@[i]@ == seq!['|'],
    {
        let mut row0 = String::from_str("|");
        let mut row1 = String::from_str("|");
        let mut row2 = String::from_str("|");
        let mut row3 = String::from_str("|");
        let mut row4 = String::from_str("|");
        proof {
            reveal_strlit("|");
            assert("|"@ =~= seq!['|']);
            lemma_bar_plain();
            lemma_plain_text_width(seq!['|']);
        }
        let n = self.hourly.len();
        let mut i: usize = 0;
        proof {
            assert(self.hourly@.take(0) =~= Seq::<WeatherCondition>::empty());
        }
        while i < n
            invariant
                self.wf(),
                n == self.hourly@.len(),
                i <= n,
                row0@ == day_row_spec(self.hourly@.take(i as int), use_zh, 0),
                row1@ == day_row_spec(self.hourly@.take(i as int), use_zh, 1),
                row2@ == day_row_spec(self.hourly@.take(i as int), use_zh, 2),
                row3@ == day_row_spec(self.hourly@.take(i as int), use_zh, 3),
                row4@ == day_row_spec(self.hourly@.take(i as int), use_zh, 4),
                visible_width(row0@) == 1 + 31 * retained_count(self.hourly@.take(i as int)),
                visible_width(row1@) == 1 + 31 * retained_count(self.hourly@.take(i as int)),
                visible_width(row2@) == 1 + 31 * retained_count(self.hourly@.take(i as int)),
                visible_width(row3@) == 1 + 31 * retained_count(self.hourly@.take(i as int)),
                visible_width(row4@) == 1 + 31 * retained_count(self.hourly@.take(i as int)),
                well_styled(row0@),
                well_styled(row1@),
                well_styled(row2@),
                well_styled(row3@),
                well_styled(row4@),
                retained_count(self.hourly@.take(i as int)) == 0 ==> row0@ == seq!['|']
                    && row1@ == seq!['|'] && row2@ == seq!['|'] && row3@ == seq!['|'] && row4@
                    == seq!['|'],
            decreases n - i,
        {
            let ghost prefix = self.hourly@.take(i as int);
            let h = &self.hourly[i];
            let excl = match &h.time {
                Some(t) => excluded_time(t.as_str()),
                None => true,
            };
            if !excl {
                let cells = h.format(use_zh);
                append_cell(&mut row0, cells[0].as_str());
                append_cell(&mut row1, cells[1].as_str());
                append_cell(&mut row2, cells[2].as_str());
                append_cell(&mut row3, cells[3].as_str());
                append_cell(&mut row4, cells[4].as_str());
            }
            proof {
                assert(self.hourly@.take(i + 1) =~= prefix.push(self.hourly@[i as int]));
                lemma_retained_count_snoc(prefix, self.hourly@[i as int]);
                lemma_retained_count_nonneg(prefix);
                assert(self.hourly@.take(i + 1).drop_last() =~= prefix);
                assert(self.hourly@.take(i + 1).last() == self.hourly@[i as int]);
            }
            i = i + 1;
        }
        proof {
            assert(self.hourly@.take(n as int) =~= self.hourly@);
        }
        let mut r: Vec<String> = Vec::new();
        r.push(row0);
        r.push(row1);
        r.push(row2);
        r.push(row3);
        r.push(row4);
        r
    }
}

/// The second border line: the date label boxed into the top border.
pub open spec fn header_line_spec(w: Weather) -> Seq<char> {
    "┌──────────────────────────────┬───────────────────────"@ + "┤ "@ + date_label_spec(
        parsed_year(w.date@),
        parsed_month(w.date@),
        parsed_day(w.date@),
    ) + " ├"@ + "───────────────────────┬──────────────────────────────┐"@
}

/// The whole table block for one day: four border and caption lines, the
/// five data rows, and the closing rule.
pub open spec fn day_block_ok(s: Seq<String>, use_zh: bool, w: Weather) -> bool {
    &&& s.len() == 10
    &&& s[0]@
        == "                                                       ┌─────────────┐                                                       "@
    &&& s[1]@ == header_line_spec(w)
    &&& s[2]@
        == "│           Morning            │             Noon      └──────┬──────┘    Evening            │            Night             │"@
    &&& s[3]@
        == "├──────────────────────────────┼──────────────────────────────┼──────────────────────────────┼──────────────────────────────┤"@
    &&& (forall|j: int| 0 <= j < 5 ==> (#[trigger] s[4 + j]@) == day_row_spec(
        w.hourly@,
        use_zh,
        j,
    ))
    &&& (forall|j: int|
        4 <= j < 9 ==> visible_width(#[trigger] s[j]@) == 1 + 31 * retained_count(w.hourly@)
            && well_styled(s[j]@))
    &&& (retained_count(w.hourly@) == 0 ==> forall|j: int|
        4 <= j < 9 ==> #[trigger] s[j]@ == seq!['|'])
    &&& s[9]@
        == "└──────────────────────────────┴──────────────────────────────┴──────────────────────────────┴──────────────────────────────┘"@
}

impl Weather {
    /// The printable lines of this day's table: borders, captions, date
    /// header and the five data rows.
    pub fn day_lines(&self, use_zh: bool) -> (r: Vec<String>)
        requires
            self.wf(),
        ensures
            day_block_ok(r@, use_zh, *self),
    {
        let mut r: Vec<String> = Vec::new();
        r.push(
            String::from_str(
                "                                                       ┌─────────────┐                                                       ",
            ),
        );
        let mut h = String::from_str(
            "┌──────────────────────────────┬───────────────────────",
        );
        h.append("┤ ");
        let lbl = self.date_label();
        h.append(lbl.as_str());
        h.append(" ├");
        h.append("───────────────────────┬──────────────────────────────┐");
        r.push(h);
        r.push(
            String::from_str(
                "│           Morning            │             Noon      └──────┬──────┘    Evening            │            Night             │",
            ),
        );
        r.push(
            String::from_str(
                "├──────────────────────────────┼──────────────────────────────┼──────────────────────────────┼──────────────────────────────┤",
            ),
        );
        let rows = self.format_day(use_zh);
        r.push(rows[0].clone());
        r.push(rows[1].clone());
        r.push(rows[2].clone());
        r.push(rows[3].clone());
        r.push(rows[4].clone());
        r.push(
            String::from_str(
                "└──────────────────────────────┴──────────────────────────────┴──────────────────────────────┴──────────────────────────────┘",
            ),
        );
        r
    }
}

/// The separator glyph is plain narrow text.
proof fn lemma_bar_plain()
    ensures
        plain_text(seq!['|']),
{
    assert(seq!['|'].len() == 1 && seq!['|'][0] == '|');
}

/// Append one fitted cell and a trailing separator to an accumulator row.
fn append_cell(row: &mut String, cell: &str)
    requires
        well_styled(old(row)@),
        well_styled(cell@),
        visible_width(cell@) == CELL_WIDTH as int,
    ensures
        final(row)@ == old(row)@ + cell@ + seq!['|'],
        well_styled(final(row)@),
        visible_width(final(row)@) == visible_width(old(row)@) + 31,
{
    row.append(cell);
    push_char(row, '|');
    proof {
        lemma_bar_plain();
        lemma_plain_text_width(seq!['|']);
        lemma_well_styled_concat(old(row)@, cell@);
        lemma_well_styled_concat(old(row)@ + cell@, seq!['|']);
        assert(row@ =~= old(row)@ + cell@ + seq!['|']);
    }
}

} // verus!
