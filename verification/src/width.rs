//! Display-width accounting for styled terminal text.
//!
//! A styled string interleaves visible glyphs with zero-width color
//! directives.  A directive starts with the escape character and runs up to
//! the next `m`; nothing inside it occupies a terminal column.  Visible
//! glyphs occupy one column, or two for the East-Asian wide ranges.

use vstd::prelude::*;

verus! {

/// A glyph in one of the recognized East-Asian ranges occupies two columns.
pub open spec fn is_wide_char(c: char) -> bool {
    let u = c as u32;
    ||| (0x3400 <= u && u <= 0x4DB5)
    ||| (0x4E00 <= u && u <= 0x9FA5)
    ||| (0x9FA6 <= u && u <= 0x9FBB)
    ||| (0xF900 <= u && u <= 0xFA2D)
    ||| (0xFA30 <= u && u <= 0xFA6A)
    ||| (0xFA70 <= u && u <= 0xFAD9)
    ||| (0x20000 <= u && u <= 0x2A6D6)
    ||| (0x2F800 <= u && u <= 0x2FA1D)
    ||| (0xFF00 <= u && u <= 0xFFEF)
    ||| (0x2E80 <= u && u <= 0x2EFF)
    ||| (0x3000 <= u && u <= 0x303F)
    ||| (0x31C0 <= u && u <= 0x31EF)
}

/// Columns taken by one visible glyph.
pub open spec fn glyph_width(c: char) -> int {
    if is_wide_char(c) {
        2
    } else {
        1
    }
}

/// The "inside a style directive" latch after reading `c` in state `inside`.
pub open spec fn next_inside(c: char, inside: bool) -> bool {
    if inside {
        c != 'm'
    } else {
        c == '\u{1b}'
    }
}

/// Columns contributed by `c` when read in state `inside`.
pub open spec fn step_width(c: char, inside: bool) -> int {
    if inside || c == '\u{1b}' {
        0
    } else {
        glyph_width(c)
    }
}

/// Total columns of `s` when scanning starts in state `inside`.
pub open spec fn width_from(s: Seq<char>, inside: bool) -> int
    decreases s.len(),
{
    if s.len() == 0 {
        0
    } else {
        step_width(s[0], inside) + width_from(s.drop_first(), next_inside(s[0], inside))
    }
}

/// The number of terminal columns `s` occupies.
pub open spec fn visible_width(s: Seq<char>) -> int {
    width_from(s, false)
}

/// The latch state after scanning all of `s`, having started in `inside`.
pub open spec fn inside_after(s: Seq<char>, inside: bool) -> bool
    decreases s.len(),
{
    if s.len() == 0 {
        inside
    } else {
        inside_after(s.drop_first(), next_inside(s[0], inside))
    }
}

/// Every style directive opened in `s` is closed in `s`.
pub open spec fn well_styled(s: Seq<char>) -> bool {
    !inside_after(s, false)
}

/// `s` holds no escape character at all: plain visible text.
pub open spec fn no_escape(s: Seq<char>) -> bool {
    forall|i: int| 0 <= i < s.len() ==> s[i] != '\u{1b}'
}

/// `s` is plain narrow text: no escapes and no wide glyphs.
pub open spec fn plain_text(s: Seq<char>) -> bool {
    forall|i: int| 0 <= i < s.len() ==> s[i] != '\u{1b}' && !is_wide_char(s[i])
}

pub proof fn lemma_width_from_nonneg(s: Seq<char>, inside: bool)
    ensures
        width_from(s, inside) >= 0,
    decreases s.len(),
{
    if s.len() > 0 {
        lemma_width_from_nonneg(s.drop_first(), next_inside(s[0], inside));
    }
}

/// Scanning a concatenation: widths add, with the latch carried across.
pub proof fn lemma_width_from_concat(a: Seq<char>, b: Seq<char>, inside: bool)
    ensures
        width_from(a + b, inside) == width_from(a, inside) + width_from(b, inside_after(a, inside)),
    decreases a.len(),
{
    if a.len() == 0 {
        assert(a + b =~= b);
    } else {
        assert((a + b).drop_first() =~= a.drop_first() + b);
        lemma_width_from_concat(a.drop_first(), b, next_inside(a[0], inside));
    }
}

pub proof fn lemma_inside_after_concat(a: Seq<char>, b: Seq<char>, inside: bool)
    ensures
        inside_after(a + b, inside) == inside_after(b, inside_after(a, inside)),
    decreases a.len(),
{
    if a.len() == 0 {
        assert(a + b =~= b);
    } else {
        assert((a + b).drop_first() =~= a.drop_first() + b);
        lemma_inside_after_concat(a.drop_first(), b, next_inside(a[0], inside));
    }
}

/// Appending one character to a scanned prefix.
pub proof fn lemma_width_from_push(s: Seq<char>, c: char, inside: bool)
    ensures
        width_from(s.push(c), inside) == width_from(s, inside) + step_width(
            c,
            inside_after(s, inside),
        ),
        inside_after(s.push(c), inside) == next_inside(c, inside_after(s, inside)),
{
    let one = seq![c];
    assert(s.push(c) =~= s + one);
    lemma_width_from_concat(s, one, inside);
    lemma_inside_after_concat(s, one, inside);
    let st = inside_after(s, inside);
    assert(one.drop_first() =~= Seq::<char>::empty());
    assert(width_from(one, st) == step_width(c, st) + width_from(one.drop_first(), next_inside(c, st)));
    assert(inside_after(one, st) == inside_after(one.drop_first(), next_inside(c, st)));
}

/// Plain narrow text is one column per character and leaves no directive open.
pub proof fn lemma_plain_text_width(s: Seq<char>)
    requires
        plain_text(s),
    ensures
        visible_width(s) == s.len(),
        well_styled(s),
{
    lemma_no_escape_from(s, false);
    lemma_plain_width_from(s);
}

/// Text without escapes never engages the latch.
pub proof fn lemma_no_escape_well_styled(s: Seq<char>)
    requires
        no_escape(s),
    ensures
        well_styled(s),
{
    lemma_no_escape_from(s, false);
}

proof fn lemma_no_escape_from(s: Seq<char>, inside: bool)
    requires
        no_escape(s),
        !inside,
    ensures
        !inside_after(s, inside),
        width_from(s, inside) == width_from(s, false),
    decreases s.len(),
{
    if s.len() > 0 {
        assert(no_escape(s.drop_first())) by {
            assert(forall|i: int|
                0 <= i < s.drop_first().len() ==> s.drop_first()[i] == s[i + 1]);
        }
        lemma_no_escape_from(s.drop_first(), next_inside(s[0], inside));
    }
}

proof fn lemma_plain_width_from(s: Seq<char>)
    requires
        plain_text(s),
    ensures
        width_from(s, false) == s.len(),
    decreases s.len(),
{
    if s.len() > 0 {
        assert(plain_text(s.drop_first())) by {
            assert(forall|i: int|
                0 <= i < s.drop_first().len() ==> s.drop_first()[i] == s[i + 1]);
        }
        assert(!next_inside(s[0], false));
        lemma_plain_width_from(s.drop_first());
    }
}

/// While the latch is engaged, text without an `m` stays inside the
/// directive and contributes no columns.
pub proof fn lemma_inside_stays(s: Seq<char>)
    requires
        forall|i: int| 0 <= i < s.len() ==> s[i] != 'm',
    ensures
        inside_after(s, true),
        width_from(s, true) == 0,
    decreases s.len(),
{
    if s.len() > 0 {
        assert(forall|i: int| 0 <= i < s.drop_first().len() ==> s.drop_first()[i] == s[i + 1]);
        lemma_inside_stays(s.drop_first());
    }
}

/// Well-styledness is preserved by concatenation.
pub proof fn lemma_well_styled_concat(a: Seq<char>, b: Seq<char>)
    requires
        well_styled(a),
        well_styled(b),
    ensures
        well_styled(a + b),
        visible_width(a + b) == visible_width(a) + visible_width(b),
{
    lemma_width_from_concat(a, b, false);
    lemma_inside_after_concat(a, b, false);
}

/// The longest prefix of `s` that fits in `budget` columns, scanning in
/// state `inside`.  Zero-width characters (directive contents) are always
/// kept; the walk stops just before the first visible glyph that would
/// exceed the budget, so a cut never lands inside a style directive.
pub open spec fn kept_prefix(s: Seq<char>, inside: bool, budget: int) -> Seq<char>
    decreases s.len(),
{
    if s.len() == 0 {
        s
    } else {
        let d = step_width(s[0], inside);
        if d <= budget {
            seq![s[0]] + kept_prefix(s.drop_first(), next_inside(s[0], inside), budget - d)
        } else {
            Seq::empty()
        }
    }
}

/// `n` single-column space glyphs (none when `n` is negative).
pub open spec fn space_pad(n: int) -> Seq<char> {
    Seq::new(
        if n >= 0 {
            n as nat
        } else {
            0
        },
        |i: int| ' ',
    )
}

/// The cell formatter: the kept prefix of `s`, padded with spaces up to
/// `target` columns.
pub open spec fn fit_spec(s: Seq<char>, target: int) -> Seq<char> {
    let p = kept_prefix(s, false, target);
    p + space_pad(target - visible_width(p))
}

/// What the kept prefix guarantees: it is a prefix of `s`, it fits the
/// budget, anything cut off was cut at a directive boundary, and a string
/// that fits whole is kept whole.
pub proof fn lemma_kept_prefix_props(s: Seq<char>, inside: bool, budget: int)
    requires
        budget >= 0,
    ensures
        ({
            let p = kept_prefix(s, inside, budget);
            &&& p.len() <= s.len()
            &&& p == s.take(p.len() as int)
            &&& width_from(p, inside) <= budget
            &&& (p.len() < s.len() ==> !inside_after(p, inside) && width_from(p, inside)
                >= budget - 1)
            &&& (width_from(s, inside) <= budget ==> p == s)
            &&& (width_from(s, inside) > budget ==> p.len() < s.len())
        }),
    decreases s.len(),
{
    let p = kept_prefix(s, inside, budget);
    if s.len() == 0 {
        assert(p == s.take(p.len() as int));
    } else {
        let d = step_width(s[0], inside);
        let rest = s.drop_first();
        let ni = next_inside(s[0], inside);
        lemma_width_from_nonneg(rest, ni);
        if d <= budget {
            let p1 = kept_prefix(rest, ni, budget - d);
            lemma_kept_prefix_props(rest, ni, budget - d);
            assert(p == seq![s[0]] + p1);
            assert(p.drop_first() =~= p1);
            assert(width_from(p, inside) == d + width_from(p1, ni));
            assert(inside_after(p, inside) == inside_after(p1, ni));
            assert(p == s.take(p.len() as int)) by {
                assert(p1 == rest.take(p1.len() as int));
                assert(p =~= s.take(p.len() as int));
            }
            if width_from(s, inside) <= budget {
                assert(width_from(rest, ni) <= budget - d);
                assert(p1 == rest);
                assert(p =~= s);
            }
            if width_from(s, inside) > budget {
                assert(width_from(rest, ni) > budget - d);
            }
        } else {
            assert(p =~= Seq::<char>::empty());
            assert(p == s.take(p.len() as int)) by {
                assert(p =~= s.take(0));
            }
            assert(d > 0);
            assert(!inside);
            assert(width_from(s, inside) == d + width_from(rest, ni));
        }
    }
}

/// Space padding is plain narrow text.
pub proof fn lemma_space_pad_plain(n: int)
    ensures
        plain_text(space_pad(n)),
        n >= 0 ==> space_pad(n).len() == n,
{
    assert(!is_wide_char(' '));
}

/// The padded or truncated string occupies exactly the target number of
/// columns, whenever the input either leaves no directive dangling or is
/// at least as wide as the target.
pub proof fn lemma_fit_width(s: Seq<char>, target: int)
    requires
        target >= 0,
        well_styled(s) || visible_width(s) >= target,
    ensures
        visible_width(fit_spec(s, target)) == target,
{
    let p = kept_prefix(s, false, target);
    lemma_kept_prefix_props(s, false, target);
    let k = target - width_from(p, false);
    let pad = space_pad(k);
    lemma_space_pad_plain(k);
    lemma_width_from_concat(p, pad, false);
    if p.len() < s.len() {
        assert(!inside_after(p, false));
        lemma_plain_width_from_pub(pad);
        assert(width_from(pad, inside_after(p, false)) == k);
    } else {
        assert(p == s);
        if visible_width(s) == target {
            assert(k == 0);
            assert(pad =~= Seq::<char>::empty());
            assert(width_from(pad, inside_after(p, false)) == 0);
        } else {
            assert(visible_width(s) < target);
            assert(well_styled(s));
            assert(!inside_after(p, false));
            lemma_plain_width_from_pub(pad);
            assert(width_from(pad, inside_after(p, false)) == k);
        }
    }
}

proof fn lemma_plain_width_from_pub(s: Seq<char>)
    requires
        plain_text(s),
    ensures
        width_from(s, false) == s.len(),
{
    lemma_plain_width_from(s);
}

/// Widening to a larger target only appends spaces: the input is kept
/// whole, so in particular no style directive is split.
pub proof fn lemma_fit_pads(s: Seq<char>, target: int)
    requires
        well_styled(s),
        visible_width(s) <= target,
    ensures
        fit_spec(s, target) == s + space_pad(target - visible_width(s)),
        visible_width(fit_spec(s, target)) == target,
{
    lemma_width_from_nonneg(s, false);
    lemma_kept_prefix_props(s, false, target);
    lemma_fit_width(s, target);
}

/// Narrowing to a smaller target still lands exactly on the target width.
pub proof fn lemma_fit_truncates(s: Seq<char>, target: int)
    requires
        0 <= target <= visible_width(s),
    ensures
        visible_width(fit_spec(s, target)) == target,
{
    lemma_fit_width(s, target);
}

/// Fitting keeps a well-styled string well styled.
pub proof fn lemma_fit_well_styled(s: Seq<char>, target: int)
    requires
        target >= 0,
        well_styled(s),
    ensures
        well_styled(fit_spec(s, target)),
{
    let p = kept_prefix(s, false, target);
    lemma_kept_prefix_props(s, false, target);
    let k = target - width_from(p, false);
    let pad = space_pad(k);
    lemma_space_pad_plain(k);
    assert(no_escape(pad));
    lemma_no_escape_well_styled(pad);
    lemma_inside_after_concat(p, pad, false);
    if p.len() == s.len() {
        assert(s.take(p.len() as int) =~= s);
        assert(p == s);
    }
    assert(!inside_after(p, false));
    lemma_no_escape_latch(pad);
}

proof fn lemma_no_escape_latch(s: Seq<char>)
    requires
        no_escape(s),
    ensures
        !inside_after(s, false),
{
    lemma_no_escape_from(s, false);
}

/// Fitting a string to its own width returns it unchanged.
pub proof fn lemma_fit_identity(s: Seq<char>)
    ensures
        fit_spec(s, visible_width(s)) == s,
{
    lemma_width_from_nonneg(s, false);
    lemma_kept_prefix_props(s, false, visible_width(s));
    let p = kept_prefix(s, false, visible_width(s));
    assert(p == s);
    assert(space_pad(0) =~= Seq::<char>::empty());
    assert(fit_spec(s, visible_width(s)) =~= s);
}

/// The cut made by the formatter is always a whole-unit cut: the result is
/// a prefix of `s` plus spaces, and when anything was dropped the prefix
/// ends outside any style directive.
pub proof fn lemma_fit_no_split(s: Seq<char>, target: int)
    requires
        target >= 0,
    ensures
        ({
            let p = kept_prefix(s, false, target);
            &&& fit_spec(s, target) == p + space_pad(target - visible_width(p))
            &&& p == s.take(p.len() as int)
            &&& (p.len() < s.len() ==> !inside_after(p, false))
        }),
{
    lemma_kept_prefix_props(s, false, target);
}

/// Relies on std's `String::push`: it appends exactly the given character.
#[verifier::external_body]
pub(crate) fn push_char(s: &mut String, c: char)
    ensures
        final(s)@ == old(s)@.push(c),
{
    s.push(c);
}

/// Measuring and refitting a string by its on-screen column count.
pub trait HasTerminalDisplayLength {
    /// The character sequence the display rules are applied to.
    spec fn text(&self) -> Seq<char>;

    /// The number of terminal columns the text occupies.
    fn len_on_term(&self) -> (r: usize)
        requires
            visible_width(self.text()) <= usize::MAX,
        ensures
            r == visible_width(self.text()),
    ;

    /// Pad or truncate the text so that it occupies exactly `new_len`
    /// columns, never cutting inside a style directive.
    fn fit_to_term_len(&self, new_len: usize) -> (r: String)
        ensures
            r@ == fit_spec(self.text(), new_len as int),
    ;
}

impl HasTerminalDisplayLength for String {
    open spec fn text(&self) -> Seq<char> {
        self@
    }

    fn len_on_term(&self) -> (r: usize) {
        let s = self.as_str();
        let n = s.unicode_len();
        let mut ret: usize = 0;
        let mut inside = false;
        let mut i: usize = 0;
        while i < n
            invariant
                n == s@.len(),
                s@ == self@,
                i <= n,
                visible_width(self@) <= usize::MAX,
                ret == width_from(self@.take(i as int), false),
                inside == inside_after(self@.take(i as int), false),
            decreases n - i,
        {
            let c = s.get_char(i);
            proof {
                assert(self@.take(i + 1) =~= self@.take(i as int).push(self@[i as int]));
                lemma_width_from_push(self@.take(i as int), self@[i as int], false);
                lemma_prefix_width_bound(self@, i + 1);
            }
            if c == '\u{1b}' && !inside {
                inside = true;
            } else if c == 'm' && inside {
                inside = false;
            } else if !inside {
                if is_wide(c) {
                    ret = ret + 2;
                } else {
                    ret = ret + 1;
                }
            }
            i = i + 1;
        }
        proof {
            assert(self@.take(n as int) =~= self@);
        }
        ret
    }

    fn fit_to_term_len(&self, new_len: usize) -> (r: String) {
        let s = self.as_str();
        let n = s.unicode_len();
        let t = new_len;
        let mut out = String::new();
        let mut w: usize = 0;
        let mut inside = false;
        let mut i: usize = 0;
        proof {
            assert(self@.take(0) =~= Seq::<char>::empty());
            assert(self@.skip(0) =~= self@);
            assert(out@ + kept_prefix(self@, false, t as int) =~= kept_prefix(
                self@,
                false,
                t as int,
            ));
        }
        loop
            invariant
                n == s@.len(),
                s@ == self@,
                i <= n,
                w <= t,
                out@ == self@.take(i as int),
                w == width_from(out@, false),
                inside == inside_after(out@, false),
                kept_prefix(self@, false, t as int) == out@ + kept_prefix(
                    self@.skip(i as int),
                    inside,
                    t as int - w as int,
                ),
            ensures
                out@ == kept_prefix(self@, false, t as int),
                w == width_from(out@, false),
                w <= t,
            decreases n - i,
        {
            if i == n {
                proof {
                    let tail = self@.skip(i as int);
                    assert(tail =~= Seq::<char>::empty());
                    assert(kept_prefix(tail, inside, t as int - w as int) =~= Seq::<
                        char,
                    >::empty());
                    assert(out@ + Seq::<char>::empty() =~= out@);
                }
                break ;
            }
            let c = s.get_char(i);
            let d: usize = if inside || c == '\u{1b}' {
                0
            } else if is_wide(c) {
                2
            } else {
                1
            };
            proof {
                assert(self@.skip(i as int)[0] == self@[i as int]);
                assert(d == step_width(self@[i as int], inside));
            }
            if d > t - w {
                proof {
                    let tail = self@.skip(i as int);
                    assert(tail.len() > 0);
                    assert(step_width(tail[0], inside) > t as int - w as int);
                    assert(kept_prefix(tail, inside, t as int - w as int) =~= Seq::<
                        char,
                    >::empty());
                    assert(out@ + Seq::<char>::empty() =~= out@);
                }
                break ;
            }
            let ghost old_out = out@;
            push_char(&mut out, c);
            let ni = if inside {
                c != 'm'
            } else {
                c == '\u{1b}'
            };
            proof {
                let tail = self@.skip(i as int);
                let bw = t as int - w as int;
                lemma_width_from_push(old_out, c, false);
                assert(out@ =~= self@.take(i + 1));
                assert(tail.drop_first() =~= self@.skip(i + 1));
                assert(kept_prefix(tail, inside, bw) == seq![c] + kept_prefix(
                    self@.skip(i + 1),
                    next_inside(c, inside),
                    bw - d,
                ));
                assert(out@ + kept_prefix(self@.skip(i + 1), next_inside(c, inside), bw - d)
                    =~= old_out + kept_prefix(tail, inside, bw));
            }
            w = w + d;
            inside = ni;
            i = i + 1;
        }
        let ghost p = kept_prefix(self@, false, t as int);
        let pad = t - w;
        let mut j: usize = 0;
        proof {
            assert(space_pad(0) =~= Seq::<char>::empty());
            assert(out@ + space_pad(0) =~= out@);
        }
        while j < pad
            invariant
                j <= pad,
                out@ == p + space_pad(j as int),
            decreases pad - j,
        {
            push_char(&mut out, ' ');
            proof {
                assert(space_pad(j + 1) =~= space_pad(j as int).push(' '));
                assert(out@ =~= p + space_pad(j + 1));
            }
            j = j + 1;
        }
        proof {
            assert(out@ == fit_spec(self@, t as int));
        }
        out
    }
}

/// A scanned prefix never occupies more columns than the whole string.
proof fn lemma_prefix_width_bound(s: Seq<char>, i: int)
    requires
        0 <= i <= s.len(),
    ensures
        width_from(s.take(i), false) <= width_from(s, false),
{
    assert(s =~= s.take(i) + s.skip(i));
    lemma_width_from_concat(s.take(i), s.skip(i), false);
    lemma_width_from_nonneg(s.skip(i), inside_after(s.take(i), false));
}

/// Character-wise string equality, decided without trusting any impl.
pub fn str_eq(a: &str, b: &str) -> (r: bool)
    ensures
        r == (a@ == b@),
{
    let na = a.unicode_len();
    let nb = b.unicode_len();
    if na != nb {
        return false;
    }
    let mut i: usize = 0;
    while i < na
        invariant
            na == a@.len(),
            nb == b@.len(),
            na == nb,
            i <= na,
            forall|j: int| 0 <= j < i ==> a@[j] == b@[j],
        decreases na - i,
    {
        if a.get_char(i) != b.get_char(i) {
            return false;
        }
        i = i + 1;
    }
    proof {
        assert(a@ =~= b@);
    }
    true
}

/// Executable test for the wide-glyph ranges.
pub fn is_wide(c: char) -> (r: bool)
    ensures
        r == is_wide_char(c),
{
    let u = c as u32;
    (0x3400 <= u && u <= 0x4DB5) || (0x4E00 <= u && u <= 0x9FA5) || (0x9FA6 <= u && u <= 0x9FBB)
        || (0xF900 <= u && u <= 0xFA2D) || (0xFA30 <= u && u <= 0xFA6A) || (0xFA70 <= u && u
        <= 0xFAD9) || (0x20000 <= u && u <= 0x2A6D6) || (0x2F800 <= u && u <= 0x2FA1D) || (0xFF00
        <= u && u <= 0xFFEF) || (0x2E80 <= u && u <= 0x2EFF) || (0x3000 <= u && u <= 0x303F) || (
    0x31C0 <= u && u <= 0x31EF)
}

} // verus!
