//! The pictorial weather icons: five fixed art lines per condition,
//! each line occupying exactly thirteen columns, with every color
//! directive closed on the line that opens it.

use vstd::prelude::*;
use crate::color::{directive, lemma_directive_zero};
use crate::width::{
    well_styled, visible_width, is_wide_char, plain_text, lemma_plain_text_width,
    lemma_well_styled_concat, str_eq,
};

verus! {

/// Five art lines, each well styled and thirteen columns wide.
pub open spec fn icon_lines_ok(r: [&str; 5]) -> bool {
    forall|i: int|
        0 <= i < 5 ==> #[trigger] well_styled(r@[i]@) && visible_width(r@[i]@) == 13
}

/// The art lines of this icon.
pub open spec fn icon_unknown_spec() -> Seq<Seq<char>> {
    seq![
        "    .-.      "@,
        "     __)     "@,
        "    (        "@,
        "     `-\u{2019}     "@,
        "      \u{2022}      "@,
    ]
}

fn icon_unknown() -> (r: [&'static str; 5])
    ensures
        icon_lines_ok(r),
        forall|i: int| 0 <= i < 5 ==> (#[trigger] r@[i]@) == icon_unknown_spec()[i],
{
    let r = [
        "    .-.      ",
        "     __)     ",
        "    (        ",
        "     `-\u{2019}     ",
        "      \u{2022}      ",
    ];
    proof {
        reveal_strlit("    .-.      ");
        reveal_strlit("     __)     ");
        reveal_strlit("    (        ");
        reveal_strlit("     `-\u{2019}     ");
        reveal_strlit("      \u{2022}      ");
        assert forall|k: int| 0 <= k < "    .-.      "@.len() implies "    .-.      "@[k] != '\u{1b}'
            && !is_wide_char("    .-.      "@[k]) by {}
        assert(plain_text("    .-.      "@));
        lemma_plain_text_width("    .-.      "@);
        assert forall|k: int| 0 <= k < "     __)     "@.len() implies "     __)     "@[k] != '\u{1b}'
            && !is_wide_char("     __)     "@[k]) by {}
        assert(plain_text("     __)     "@));
        lemma_plain_text_width("     __)     "@);
        assert forall|k: int| 0 <= k < "    (        "@.len() implies "    (        "@[k] != '\u{1b}'
            && !is_wide_char("    (        "@[k]) by {}
        assert(plain_text("    (        "@));
        lemma_plain_text_width("    (        "@);
        assert forall|k: int| 0 <= k < "     `-\u{2019}     "@.len() implies "     `-\u{2019}     "@[k] != '\u{1b}'
            && !is_wide_char("     `-\u{2019}     "@[k]) by {}
        assert(plain_text("     `-\u{2019}     "@));
        lemma_plain_text_width("     `-\u{2019}     "@);
        assert forall|k: int| 0 <= k < "      \u{2022}      "@.len() implies "      \u{2022}      "@[k] != '\u{1b}'
            && !is_wide_char("      \u{2022}      "@[k]) by {}
        assert(plain_text("      \u{2022}      "@));
        lemma_plain_text_width("      \u{2022}      "@);
        assert forall|i: int|
            0 <= i < 5 implies #[trigger] well_styled(r@[i]@) && visible_width(r@[i]@)
            == 13 by {
            assert(r@[0] == "    .-.      ");
            assert(r@[1] == "     __)     ");
            assert(r@[2] == "    (        ");
            assert(r@[3] == "     `-\u{2019}     ");
            assert(r@[4] == "      \u{2022}      ");
        }
        assert forall|i: int| 0 <= i < 5 implies (#[trigger] r@[i]@) == icon_unknown_spec()[i] by {
            assert(r@[0] == "    .-.      ");
            assert(icon_unknown_spec()[0] == "    .-.      "@);
            assert(r@[1] == "     __)     ");
            assert(icon_unknown_spec()[1] == "     __)     "@);
            assert(r@[2] == "    (        ");
            assert(icon_unknown_spec()[2] == "    (        "@);
            assert(r@[3] == "     `-\u{2019}     ");
            assert(icon_unknown_spec()[3] == "     `-\u{2019}     "@);
            assert(r@[4] == "      \u{2022}      ");
            assert(icon_unknown_spec()[4] == "      \u{2022}      "@);
        }
    }
    r
}

/// The art lines of this icon.
pub open spec fn icon_sunny_spec() -> Seq<Seq<char>> {
    seq![
        "\u{1b}[38;5;226m    \\   /    \u{1b}[0m"@,
        "\u{1b}[38;5;226m     .-.     \u{1b}[0m"@,
        "\u{1b}[38;5;226m  \u{2015} (   ) \u{2015}  \u{1b}[0m"@,
        "\u{1b}[38;5;226m     `-\u{2019}     \u{1b}[0m"@,
        "\u{1b}[38;5;226m    /   \\    \u{1b}[0m"@,
    ]
}

fn icon_sunny() -> (r: [&'static str; 5])
    ensures
        icon_lines_ok(r),
        forall|i: int| 0 <= i < 5 ==> (#[trigger] r@[i]@) == icon_sunny_spec()[i],
{
    let r = [
        "\u{1b}[38;5;226m    \\   /    \u{1b}[0m",
        "\u{1b}[38;5;226m     .-.     \u{1b}[0m",
        "\u{1b}[38;5;226m  \u{2015} (   ) \u{2015}  \u{1b}[0m",
        "\u{1b}[38;5;226m     `-\u{2019}     \u{1b}[0m",
        "\u{1b}[38;5;226m    /   \\    \u{1b}[0m",
    ];
    proof {
        reveal_strlit("\u{1b}[38;5;226m    \\   /    \u{1b}[0m");
        reveal_strlit("    \\   /    ");
        reveal_strlit("\u{1b}[38;5;226m     .-.     \u{1b}[0m");
        reveal_strlit("     .-.     ");
        reveal_strlit("\u{1b}[38;5;226m  \u{2015} (   ) \u{2015}  \u{1b}[0m");
        reveal_strlit("  \u{2015} (   ) \u{2015}  ");
        reveal_strlit("\u{1b}[38;5;226m     `-\u{2019}     \u{1b}[0m");
        reveal_strlit("     `-\u{2019}     ");
        reveal_strlit("\u{1b}[38;5;226m    /   \\    \u{1b}[0m");
        reveal_strlit("    /   \\    ");
        let m0 = seq!['[', '3', '8', ';', '5', ';', '2', '2', '6'];
        assert forall|k: int| 0 <= k < m0.len() implies m0[k] != 'm' by {}
        lemma_directive_zero(m0);
        let m1 = seq!['[', '0'];
        assert forall|k: int| 0 <= k < m1.len() implies m1[k] != 'm' by {}
        lemma_directive_zero(m1);
        assert forall|k: int| 0 <= k < "    \\   /    "@.len() implies "    \\   /    "@[k] != '\u{1b}'
            && !is_wide_char("    \\   /    "@[k]) by {}
        assert(plain_text("    \\   /    "@));
        lemma_plain_text_width("    \\   /    "@);
        assert forall|k: int| 0 <= k < "     .-.     "@.len() implies "     .-.     "@[k] != '\u{1b}'
            && !is_wide_char("     .-.     "@[k]) by {}
        assert(plain_text("     .-.     "@));
        lemma_plain_text_width("     .-.     "@);
        assert forall|k: int| 0 <= k < "  \u{2015} (   ) \u{2015}  "@.len() implies "  \u{2015} (   ) \u{2015}  "@[k] != '\u{1b}'
            && !is_wide_char("  \u{2015} (   ) \u{2015}  "@[k]) by {}
        assert(plain_text("  \u{2015} (   ) \u{2015}  "@));
        lemma_plain_text_width("  \u{2015} (   ) \u{2015}  "@);
        assert forall|k: int| 0 <= k < "     `-\u{2019}     "@.len() implies "     `-\u{2019}     "@[k] != '\u{1b}'
            && !is_wide_char("     `-\u{2019}     "@[k]) by {}
        assert(plain_text("     `-\u{2019}     "@));
        lemma_plain_text_width("     `-\u{2019}     "@);
        assert forall|k: int| 0 <= k < "    /   \\    "@.len() implies "    /   \\    "@[k] != '\u{1b}'
            && !is_wide_char("    /   \\    "@[k]) by {}
        assert(plain_text("    /   \\    "@));
        lemma_plain_text_width("    /   \\    "@);
        assert("\u{1b}[38;5;226m    \\   /    \u{1b}[0m"@ =~= directive(m0) + "    \\   /    "@ + directive(m1));
        lemma_well_styled_concat(directive(m0), "    \\   /    "@);
        lemma_well_styled_concat((directive(m0) + "    \\   /    "@), directive(m1));
        assert(well_styled("\u{1b}[38;5;226m    \\   /    \u{1b}[0m"@) && visible_width("\u{1b}[38;5;226m    \\   /    \u{1b}[0m"@) == 13);
        assert("\u{1b}[38;5;226m     .-.     \u{1b}[0m"@ =~= directive(m0) + "     .-.     "@ + directive(m1));
        lemma_well_styled_concat(directive(m0), "     .-.     "@);
        lemma_well_styled_concat((directive(m0) + "     .-.     "@), directive(m1));
        assert(well_styled("\u{1b}[38;5;226m     .-.     \u{1b}[0m"@) && visible_width("\u{1b}[38;5;226m     .-.     \u{1b}[0m"@) == 13);
        assert("\u{1b}[38;5;226m  \u{2015} (   ) \u{2015}  \u{1b}[0m"@ =~= directive(m0) + "  \u{2015} (   ) \u{2015}  "@ + directive(m1));
        lemma_well_styled_concat(directive(m0), "  \u{2015} (   ) \u{2015}  "@);
        lemma_well_styled_concat((directive(m0) + "  \u{2015} (   ) \u{2015}  "@), directive(m1));
        assert(well_styled("\u{1b}[38;5;226m  \u{2015} (   ) \u{2015}  \u{1b}[0m"@) && visible_width("\u{1b}[38;5;226m  \u{2015} (   ) \u{2015}  \u{1b}[0m"@) == 13);
        assert("\u{1b}[38;5;226m     `-\u{2019}     \u{1b}[0m"@ =~= directive(m0) + "     `-\u{2019}     "@ + directive(m1));
        lemma_well_styled_concat(directive(m0), "     `-\u{2019}     "@);
        lemma_well_styled_concat((directive(m0) + "     `-\u{2019}     "@), directive(m1));
        assert(well_styled("\u{1b}[38;5;226m     `-\u{2019}     \u{1b}[0m"@) && visible_width("\u{1b}[38;5;226m     `-\u{2019}     \u{1b}[0m"@) == 13);
        assert("\u{1b}[38;5;226m    /   \\    \u{1b}[0m"@ =~= directive(m0) + "    /   \\    "@ + directive(m1));
        lemma_well_styled_concat(directive(m0), "    /   \\    "@);
        lemma_well_styled_concat((directive(m0) + "    /   \\    "@), directive(m1));
        assert(well_styled("\u{1b}[38;5;226m    /   \\    \u{1b}[0m"@) && visible_width("\u{1b}[38;5;226m    /   \\    \u{1b}[0m"@) == 13);
        assert forall|i: int|
            0 <= i < 5 implies #[trigger] well_styled(r@[i]@) && visible_width(r@[i]@)
            == 13 by {
            assert(r@[0] == "\u{1b}[38;5;226m    \\   /    \u{1b}[0m");
            assert(r@[1] == "\u{1b}[38;5;226m     .-.     \u{1b}[0m");
            assert(r@[2] == "\u{1b}[38;5;226m  \u{2015} (   ) \u{2015}  \u{1b}[0m");
            assert(r@[3] == "\u{1b}[38;5;226m     `-\u{2019}     \u{1b}[0m");
            assert(r@[4] == "\u{1b}[38;5;226m    /   \\    \u{1b}[0m");
        }
        assert forall|i: int| 0 <= i < 5 implies (#[trigger] r@[i]@) == icon_sunny_spec()[i] by {
            assert(r@[0] == "\u{1b}[38;5;226m    \\   /    \u{1b}[0m");
            assert(icon_sunny_spec()[0] == "\u{1b}[38;5;226m    \\   /    \u{1b}[0m"@);
            assert(r@[1] == "\u{1b}[38;5;226m     .-.     \u{1b}[0m");
            assert(icon_sunny_spec()[1] == "\u{1b}[38;5;226m     .-.     \u{1b}[0m"@);
            assert(r@[2] == "\u{1b}[38;5;226m  \u{2015} (   ) \u{2015}  \u{1b}[0m");
            assert(icon_sunny_spec()[2] == "\u{1b}[38;5;226m  \u{2015} (   ) \u{2015}  \u{1b}[0m"@);
            assert(r@[3] == "\u{1b}[38;5;226m     `-\u{2019}     \u{1b}[0m");
            assert(icon_sunny_spec()[3] == "\u{1b}[38;5;226m     `-\u{2019}     \u{1b}[0m"@);
            assert(r@[4] == "\u{1b}[38;5;226m    /   \\    \u{1b}[0m");
            assert(icon_sunny_spec()[4] == "\u{1b}[38;5;226m    /   \\    \u{1b}[0m"@);
        }
    }
    r
}

/// The art lines of this icon.
pub open spec fn icon_partly_cloudy_spec() -> Seq<Seq<char>> {
    seq![
        "\u{1b}[38;5;226m   \\  /\u{1b}[0m      "@,
        "\u{1b}[38;5;226m _ /\"\"\u{1b}[38;5;250m.-.    \u{1b}[0m"@,
        "\u{1b}[38;5;226m   \\_\u{1b}[38;5;250m(   ).  \u{1b}[0m"@,
        "\u{1b}[38;5;226m   /\u{1b}[38;5;250m(___(__) \u{1b}[0m"@,
        "             "@,
    ]
}

fn icon_partly_cloudy() -> (r: [&'static str; 5])
    ensures
        icon_lines_ok(r),
        forall|i: int| 0 <= i < 5 ==> (#[trigger] r@[i]@) == icon_partly_cloudy_spec()[i],
{
    let r = [
        "\u{1b}[38;5;226m   \\  /\u{1b}[0m      ",
        "\u{1b}[38;5;226m _ /\"\"\u{1b}[38;5;250m.-.    \u{1b}[0m",
        "\u{1b}[38;5;226m   \\_\u{1b}[38;5;250m(   ).  \u{1b}[0m",
        "\u{1b}[38;5;226m   /\u{1b}[38;5;250m(___(__) \u{1b}[0m",
        "             ",
    ];
    proof {
        reveal_strlit("\u{1b}[38;5;226m   \\  /\u{1b}[0m      ");
        reveal_strlit("   \\  /");
        reveal_strlit("      ");
        reveal_strlit("\u{1b}[38;5;226m _ /\"\"\u{1b}[38;5;250m.-.    \u{1b}[0m");
        reveal_strlit(" _ /\"\"");
        reveal_strlit(".-.    ");
        reveal_strlit("\u{1b}[38;5;226m   \\_\u{1b}[38;5;250m(   ).  \u{1b}[0m");
        reveal_strlit("   \\_");
        reveal_strlit("(   ).  ");
        reveal_strlit("\u{1b}[38;5;226m   /\u{1b}[38;5;250m(___(__) \u{1b}[0m");
        reveal_strlit("   /");
        reveal_strlit("(___(__) ");
        reveal_strlit("             ");
        let m0 = seq!['[', '3', '8', ';', '5', ';', '2', '2', '6'];
        assert forall|k: int| 0 <= k < m0.len() implies m0[k] != 'm' by {}
        lemma_directive_zero(m0);
        let m1 = seq!['[', '0'];
        assert forall|k: int| 0 <= k < m1.len() implies m1[k] != 'm' by {}
        lemma_directive_zero(m1);
        let m2 = seq!['[', '3', '8', ';', '5', ';', '2', '5', '0'];
        assert forall|k: int| 0 <= k < m2.len() implies m2[k] != 'm' by {}
        lemma_directive_zero(m2);
        assert forall|k: int| 0 <= k < "   \\  /"@.len() implies "   \\  /"@[k] != '\u{1b}'
            && !is_wide_char("   \\  /"@[k]) by {}
        assert(plain_text("   \\  /"@));
        lemma_plain_text_width("   \\  /"@);
        assert forall|k: int| 0 <= k < "      "@.len() implies "      "@[k] != '\u{1b}'
            && !is_wide_char("      "@[k]) by {}
        assert(plain_text("      "@));
        lemma_plain_text_width("      "@);
        assert forall|k: int| 0 <= k < " _ /\"\""@.len() implies " _ /\"\""@[k] != '\u{1b}'
            && !is_wide_char(" _ /\"\""@[k]) by {}
        assert(plain_text(" _ /\"\""@));
        lemma_plain_text_width(" _ /\"\""@);
        assert forall|k: int| 0 <= k < ".-.    "@.len() implies ".-.    "@[k] != '\u{1b}'
            && !is_wide_char(".-.    "@[k]) by {}
        assert(plain_text(".-.    "@));
        lemma_plain_text_width(".-.    "@);
        assert forall|k: int| 0 <= k < "   \\_"@.len() implies "   \\_"@[k] != '\u{1b}'
            && !is_wide_char("   \\_"@[k]) by {}
        assert(plain_text("   \\_"@));
        lemma_plain_text_width("   \\_"@);
        assert forall|k: int| 0 <= k < "(   ).  "@.len() implies "(   ).  "@[k] != '\u{1b}'
            && !is_wide_char("(   ).  "@[k]) by {}
        assert(plain_text("(   ).  "@));
        lemma_plain_text_width("(   ).  "@);
        assert forall|k: int| 0 <= k < "   /"@.len() implies "   /"@[k] != '\u{1b}'
            && !is_wide_char("   /"@[k]) by {}
        assert(plain_text("   /"@));
        lemma_plain_text_width("   /"@);
        assert forall|k: int| 0 <= k < "(___(__) "@.len() implies "(___(__) "@[k] != '\u{1b}'
            && !is_wide_char("(___(__) "@[k]) by {}
        assert(plain_text("(___(__) "@));
        lemma_plain_text_width("(___(__) "@);
        assert forall|k: int| 0 <= k < "             "@.len() implies "             "@[k] != '\u{1b}'
            && !is_wide_char("             "@[k]) by {}
        assert(plain_text("             "@));
        lemma_plain_text_width("             "@);
        assert("\u{1b}[38;5;226m   \\  /\u{1b}[0m      "@ =~= directive(m0) + "   \\  /"@ + directive(m1) + "      "@);
        lemma_well_styled_concat(directive(m0), "   \\  /"@);
        lemma_well_styled_concat((directive(m0) + "   \\  /"@), directive(m1));
        lemma_well_styled_concat(((directive(m0) + "   \\  /"@) + directive(m1)), "      "@);
        assert(well_styled("\u{1b}[38;5;226m   \\  /\u{1b}[0m      "@) && visible_width("\u{1b}[38;5;226m   \\  /\u{1b}[0m      "@) == 13);
        assert("\u{1b}[38;5;226m _ /\"\"\u{1b}[38;5;250m.-.    \u{1b}[0m"@ =~= directive(m0) + " _ /\"\""@ + directive(m2) + ".-.    "@ + directive(m1));
        lemma_well_styled_concat(directive(m0), " _ /\"\""@);
        lemma_well_styled_concat((directive(m0) + " _ /\"\""@), directive(m2));
        lemma_well_styled_concat(((directive(m0) + " _ /\"\""@) + directive(m2)), ".-.    "@);
        lemma_well_styled_concat((((directive(m0) + " _ /\"\""@) + directive(m2)) + ".-.    "@), directive(m1));
        assert(well_styled("\u{1b}[38;5;226m _ /\"\"\u{1b}[38;5;250m.-.    \u{1b}[0m"@) && visible_width("\u{1b}[38;5;226m _ /\"\"\u{1b}[38;5;250m.-.    \u{1b}[0m"@) == 13);
        assert("\u{1b}[38;5;226m   \\_\u{1b}[38;5;250m(   ).  \u{1b}[0m"@ =~= directive(m0) + "   \\_"@ + directive(m2) + "(   ).  "@ + directive(m1));
        lemma_well_styled_concat(directive(m0), "   \\_"@);
        lemma_well_styled_concat((directive(m0) + "   \\_"@), directive(m2));
        lemma_well_styled_concat(((directive(m0) + "   \\_"@) + directive(m2)), "(   ).  "@);
        lemma_well_styled_concat((((directive(m0) + "   \\_"@) + directive(m2)) + "(   ).  "@), directive(m1));
        assert(well_styled("\u{1b}[38;5;226m   \\_\u{1b}[38;5;250m(   ).  \u{1b}[0m"@) && visible_width("\u{1b}[38;5;226m   \\_\u{1b}[38;5;250m(   ).  \u{1b}[0m"@) == 13);
        assert("\u{1b}[38;5;226m   /\u{1b}[38;5;250m(___(__) \u{1b}[0m"@ =~= directive(m0) + "   /"@ + directive(m2) + "(___(__) "@ + directive(m1));
        lemma_well_styled_concat(directive(m0), "   /"@);
        lemma_well_styled_concat((directive(m0) + "   /"@), directive(m2));
        lemma_well_styled_concat(((directive(m0) + "   /"@) + directive(m2)), "(___(__) "@);
        lemma_well_styled_concat((((directive(m0) + "   /"@) + directive(m2)) + "(___(__) "@), directive(m1));
        assert(well_styled("\u{1b}[38;5;226m   /\u{1b}[38;5;250m(___(__) \u{1b}[0m"@) && visible_width("\u{1b}[38;5;226m   /\u{1b}[38;5;250m(___(__) \u{1b}[0m"@) == 13);
        assert forall|i: int|
            0 <= i < 5 implies #[trigger] well_styled(r@[i]@) && visible_width(r@[i]@)
            == 13 by {
            assert(r@[0] == "\u{1b}[38;5;226m   \\  /\u{1b}[0m      ");
            assert(r@[1] == "\u{1b}[38;5;226m _ /\"\"\u{1b}[38;5;250m.-.    \u{1b}[0m");
            assert(r@[2] == "\u{1b}[38;5;226m   \\_\u{1b}[38;5;250m(   ).  \u{1b}[0m");
            assert(r@[3] == "\u{1b}[38;5;226m   /\u{1b}[38;5;250m(___(__) \u{1b}[0m");
            assert(r@[4] == "             ");
        }
        assert forall|i: int| 0 <= i < 5 implies (#[trigger] r@[i]@) == icon_partly_cloudy_spec()[i] by {
            assert(r@[0] == "\u{1b}[38;5;226m   \\  /\u{1b}[0m      ");
            assert(icon_partly_cloudy_spec()[0] == "\u{1b}[38;5;226m   \\  /\u{1b}[0m      "@);
            assert(r@[1] == "\u{1b}[38;5;226m _ /\"\"\u{1b}[38;5;250m.-.    \u{1b}[0m");
            assert(icon_partly_cloudy_spec()[1] == "\u{1b}[38;5;226m _ /\"\"\u{1b}[38;5;250m.-.    \u{1b}[0m"@);
            assert(r@[2] == "\u{1b}[38;5;226m   \\_\u{1b}[38;5;250m(   ).  \u{1b}[0m");
            assert(icon_partly_cloudy_spec()[2] == "\u{1b}[38;5;226m   \\_\u{1b}[38;5;250m(   ).  \u{1b}[0m"@);
            assert(r@[3] == "\u{1b}[38;5;226m   /\u{1b}[38;5;250m(___(__) \u{1b}[0m");
            assert(icon_partly_cloudy_spec()[3] == "\u{1b}[38;5;226m   /\u{1b}[38;5;250m(___(__) \u{1b}[0m"@);
            assert(r@[4] == "             ");
            assert(icon_partly_cloudy_spec()[4] == "             "@);
        }
    }
    r
}

/// The art lines of this icon.
pub open spec fn icon_cloudy_spec() -> Seq<Seq<char>> {
    seq![
        "             "@,
        "\u{1b}[38;5;250m     .--.    \u{1b}[0m"@,
        "\u{1b}[38;5;250m  .-(    ).  \u{1b}[0m"@,
        "\u{1b}[38;5;250m (___.__)__) \u{1b}[0m"@,
        "             "@,
    ]
}

fn icon_cloudy() -> (r: [&'static str; 5])
    ensures
        icon_lines_ok(r),
        forall|i: int| 0 <= i < 5 ==> (#[trigger] r@[i]@) == icon_cloudy_spec()[i],
{
    let r = [
        "             ",
        "\u{1b}[38;5;250m     .--.    \u{1b}[0m",
        "\u{1b}[38;5;250m  .-(    ).  \u{1b}[0m",
        "\u{1b}[38;5;250m (___.__)__) \u{1b}[0m",
        "             ",
    ];
    proof {
        reveal_strlit("             ");
        reveal_strlit("\u{1b}[38;5;250m     .--.    \u{1b}[0m");
        reveal_strlit("     .--.    ");
        reveal_strlit("\u{1b}[38;5;250m  .-(    ).  \u{1b}[0m");
        reveal_strlit("  .-(    ).  ");
        reveal_strlit("\u{1b}[38;5;250m (___.__)__) \u{1b}[0m");
        reveal_strlit(" (___.__)__) ");
        let m0 = seq!['[', '3', '8', ';', '5', ';', '2', '5', '0'];
        assert forall|k: int| 0 <= k < m0.len() implies m0[k] != 'm' by {}
        lemma_directive_zero(m0);
        let m1 = seq!['[', '0'];
        assert forall|k: int| 0 <= k < m1.len() implies m1[k] != 'm' by {}
        lemma_directive_zero(m1);
        assert forall|k: int| 0 <= k < "             "@.len() implies "             "@[k] != '\u{1b}'
            && !is_wide_char("             "@[k]) by {}
        assert(plain_text("             "@));
        lemma_plain_text_width("             "@);
        assert forall|k: int| 0 <= k < "     .--.    "@.len() implies "     .--.    "@[k] != '\u{1b}'
            && !is_wide_char("     .--.    "@[k]) by {}
        assert(plain_text("     .--.    "@));
        lemma_plain_text_width("     .--.    "@);
        assert forall|k: int| 0 <= k < "  .-(    ).  "@.len() implies "  .-(    ).  "@[k] != '\u{1b}'
            && !is_wide_char("  .-(    ).  "@[k]) by {}
        assert(plain_text("  .-(    ).  "@));
        lemma_plain_text_width("  .-(    ).  "@);
        assert forall|k: int| 0 <= k < " (___.__)__) "@.len() implies " (___.__)__) "@[k] != '\u{1b}'
            && !is_wide_char(" (___.__)__) "@[k]) by {}
        assert(plain_text(" (___.__)__) "@));
        lemma_plain_text_width(" (___.__)__) "@);
        assert("\u{1b}[38;5;250m     .--.    \u{1b}[0m"@ =~= directive(m0) + "     .--.    "@ + directive(m1));
        lemma_well_styled_concat(directive(m0), "     .--.    "@);
        lemma_well_styled_concat((directive(m0) + "     .--.    "@), directive(m1));
        assert(well_styled("\u{1b}[38;5;250m     .--.    \u{1b}[0m"@) && visible_width("\u{1b}[38;5;250m     .--.    \u{1b}[0m"@) == 13);
        assert("\u{1b}[38;5;250m  .-(    ).  \u{1b}[0m"@ =~= directive(m0) + "  .-(    ).  "@ + directive(m1));
        lemma_well_styled_concat(directive(m0), "  .-(    ).  "@);
        lemma_well_styled_concat((directive(m0) + "  .-(    ).  "@), directive(m1));
        assert(well_styled("\u{1b}[38;5;250m  .-(    ).  \u{1b}[0m"@) && visible_width("\u{1b}[38;5;250m  .-(    ).  \u{1b}[0m"@) == 13);
        assert("\u{1b}[38;5;250m (___.__)__) \u{1b}[0m"@ =~= directive(m0) + " (___.__)__) "@ + directive(m1));
        lemma_well_styled_concat(directive(m0), " (___.__)__) "@);
        lemma_well_styled_concat((directive(m0) + " (___.__)__) "@), directive(m1));
        assert(well_styled("\u{1b}[38;5;250m (___.__)__) \u{1b}[0m"@) && visible_width("\u{1b}[38;5;250m (___.__)__) \u{1b}[0m"@) == 13);
        assert forall|i: int|
            0 <= i < 5 implies #[trigger] well_styled(r@[i]@) && visible_width(r@[i]@)
            == 13 by {
            assert(r@[0] == "             ");
            assert(r@[1] == "\u{1b}[38;5;250m     .--.    \u{1b}[0m");
            assert(r@[2] == "\u{1b}[38;5;250m  .-(    ).  \u{1b}[0m");
            assert(r@[3] == "\u{1b}[38;5;250m (___.__)__) \u{1b}[0m");
            assert(r@[4] == "             ");
        }
        assert forall|i: int| 0 <= i < 5 implies (#[trigger] r@[i]@) == icon_cloudy_spec()[i] by {
            assert(r@[0] == "             ");
            assert(icon_cloudy_spec()[0] == "             "@);
            assert(r@[1] == "\u{1b}[38;5;250m     .--.    \u{1b}[0m");
            assert(icon_cloudy_spec()[1] == "\u{1b}[38;5;250m     .--.    \u{1b}[0m"@);
            assert(r@[2] == "\u{1b}[38;5;250m  .-(    ).  \u{1b}[0m");
            assert(icon_cloudy_spec()[2] == "\u{1b}[38;5;250m  .-(    ).  \u{1b}[0m"@);
            assert(r@[3] == "\u{1b}[38;5;250m (___.__)__) \u{1b}[0m");
            assert(icon_cloudy_spec()[3] == "\u{1b}[38;5;250m (___.__)__) \u{1b}[0m"@);
            assert(r@[4] == "             ");
            assert(icon_cloudy_spec()[4] == "             "@);
        }
    }
    r
}

/// The art lines of this icon.
pub open spec fn icon_very_cloudy_spec() -> Seq<Seq<char>> {
    seq![
        "             "@,
        "\u{1b}[38;5;240;1m     .--.    \u{1b}[0m"@,
        "\u{1b}[38;5;240;1m  .-(    ).  \u{1b}[0m"@,
        "\u{1b}[38;5;240;1m (___.__)__) \u{1b}[0m"@,
        "             "@,
    ]
}

fn icon_very_cloudy() -> (r: [&'static str; 5])
    ensures
        icon_lines_ok(r),
        forall|i: int| 0 <= i < 5 ==> (#[trigger] r@[i]@) == icon_very_cloudy_spec()[i],
{
    let r = [
        "             ",
        "\u{1b}[38;5;240;1m     .--.    \u{1b}[0m",
        "\u{1b}[38;5;240;1m  .-(    ).  \u{1b}[0m",
        "\u{1b}[38;5;240;1m (___.__)__) \u{1b}[0m",
        "             ",
    ];
    proof {
        reveal_strlit("             ");
        reveal_strlit("\u{1b}[38;5;240;1m     .--.    \u{1b}[0m");
        reveal_strlit("     .--.    ");
        reveal_strlit("\u{1b}[38;5;240;1m  .-(    ).  \u{1b}[0m");
        reveal_strlit("  .-(    ).  ");
        reveal_strlit("\u{1b}[38;5;240;1m (___.__)__) \u{1b}[0m");
        reveal_strlit(" (___.__)__) ");
        let m0 = seq!['[', '3', '8', ';', '5', ';', '2', '4', '0', ';', '1'];
        assert forall|k: int| 0 <= k < m0.len() implies m0[k] != 'm' by {}
        lemma_directive_zero(m0);
        let m1 = seq!['[', '0'];
        assert forall|k: int| 0 <= k < m1.len() implies m1[k] != 'm' by {}
        lemma_directive_zero(m1);
        assert forall|k: int| 0 <= k < "             "@.len() implies "             "@[k] != '\u{1b}'
            && !is_wide_char("             "@[k]) by {}
        assert(plain_text("             "@));
        lemma_plain_text_width("             "@);
        assert forall|k: int| 0 <= k < "     .--.    "@.len() implies "     .--.    "@[k] != '\u{1b}'
            && !is_wide_char("     .--.    "@[k]) by {}
        assert(plain_text("     .--.    "@));
        lemma_plain_text_width("     .--.    "@);
        assert forall|k: int| 0 <= k < "  .-(    ).  "@.len() implies "  .-(    ).  "@[k] != '\u{1b}'
            && !is_wide_char("  .-(    ).  "@[k]) by {}
        assert(plain_text("  .-(    ).  "@));
        lemma_plain_text_width("  .-(    ).  "@);
        assert forall|k: int| 0 <= k < " (___.__)__) "@.len() implies " (___.__)__) "@[k] != '\u{1b}'
            && !is_wide_char(" (___.__)__) "@[k]) by {}
        assert(plain_text(" (___.__)__) "@));
        lemma_plain_text_width(" (___.__)__) "@);
        assert("\u{1b}[38;5;240;1m     .--.    \u{1b}[0m"@ =~= directive(m0) + "     .--.    "@ + directive(m1));
        lemma_well_styled_concat(directive(m0), "     .--.    "@);
        lemma_well_styled_concat((directive(m0) + "     .--.    "@), directive(m1));
        assert(well_styled("\u{1b}[38;5;240;1m     .--.    \u{1b}[0m"@) && visible_width("\u{1b}[38;5;240;1m     .--.    \u{1b}[0m"@) == 13);
        assert("\u{1b}[38;5;240;1m  .-(    ).  \u{1b}[0m"@ =~= directive(m0) + "  .-(    ).  "@ + directive(m1));
        lemma_well_styled_concat(directive(m0), "  .-(    ).  "@);
        lemma_well_styled_concat((directive(m0) + "  .-(    ).  "@), directive(m1));
        assert(well_styled("\u{1b}[38;5;240;1m  .-(    ).  \u{1b}[0m"@) && visible_width("\u{1b}[38;5;240;1m  .-(    ).  \u{1b}[0m"@) == 13);
        assert("\u{1b}[38;5;240;1m (___.__)__) \u{1b}[0m"@ =~= directive(m0) + " (___.__)__) "@ + directive(m1));
        lemma_well_styled_concat(directive(m0), " (___.__)__) "@);
        lemma_well_styled_concat((directive(m0) + " (___.__)__) "@), directive(m1));
        assert(well_styled("\u{1b}[38;5;240;1m (___.__)__) \u{1b}[0m"@) && visible_width("\u{1b}[38;5;240;1m (___.__)__) \u{1b}[0m"@) == 13);
        assert forall|i: int|
            0 <= i < 5 implies #[trigger] well_styled(r@[i]@) && visible_width(r@[i]@)
            == 13 by {
            assert(r@[0] == "             ");
            assert(r@[1] == "\u{1b}[38;5;240;1m     .--.    \u{1b}[0m");
            assert(r@[2] == "\u{1b}[38;5;240;1m  .-(    ).  \u{1b}[0m");
            assert(r@[3] == "\u{1b}[38;5;240;1m (___.__)__) \u{1b}[0m");
            assert(r@[4] == "             ");
        }
        assert forall|i: int| 0 <= i < 5 implies (#[trigger] r@[i]@) == icon_very_cloudy_spec()[i] by {
            assert(r@[0] == "             ");
            assert(icon_very_cloudy_spec()[0] == "             "@);
            assert(r@[1] == "\u{1b}[38;5;240;1m     .--.    \u{1b}[0m");
            assert(icon_very_cloudy_spec()[1] == "\u{1b}[38;5;240;1m     .--.    \u{1b}[0m"@);
            assert(r@[2] == "\u{1b}[38;5;240;1m  .-(    ).  \u{1b}[0m");
            assert(icon_very_cloudy_spec()[2] == "\u{1b}[38;5;240;1m  .-(    ).  \u{1b}[0m"@);
            assert(r@[3] == "\u{1b}[38;5;240;1m (___.__)__) \u{1b}[0m");
            assert(icon_very_cloudy_spec()[3] == "\u{1b}[38;5;240;1m (___.__)__) \u{1b}[0m"@);
            assert(r@[4] == "             ");
            assert(icon_very_cloudy_spec()[4] == "             "@);
        }
    }
    r
}

/// The art lines of this icon.
pub open spec fn icon_light_showers_spec() -> Seq<Seq<char>> {
    seq![
        "\u{1b}[38;5;226m _`/\"\"\u{1b}[38;5;250m.-.    \u{1b}[0m"@,
        "\u{1b}[38;5;226m  ,\\_\u{1b}[38;5;250m(   ).  \u{1b}[0m"@,
        "\u{1b}[38;5;226m   /\u{1b}[38;5;250m(___(__) \u{1b}[0m"@,
        "\u{1b}[38;5;111m     \u{2018} \u{2018} \u{2018} \u{2018} \u{1b}[0m"@,
        "\u{1b}[38;5;111m    \u{2018} \u{2018} \u{2018} \u{2018}  \u{1b}[0m"@,
    ]
}

fn icon_light_showers() -> (r: [&'static str; 5])
    ensures
        icon_lines_ok(r),
        forall|i: int| 0 <= i < 5 ==> (#[trigger] r@[i]@) == icon_light_showers_spec()[i],
{
    let r = [
        "\u{1b}[38;5;226m _`/\"\"\u{1b}[38;5;250m.-.    \u{1b}[0m",
        "\u{1b}[38;5;226m  ,\\_\u{1b}[38;5;250m(   ).  \u{1b}[0m",
        "\u{1b}[38;5;226m   /\u{1b}[38;5;250m(___(__) \u{1b}[0m",
        "\u{1b}[38;5;111m     \u{2018} \u{2018} \u{2018} \u{2018} \u{1b}[0m",
        "\u{1b}[38;5;111m    \u{2018} \u{2018} \u{2018} \u{2018}  \u{1b}[0m",
    ];
    proof {
        reveal_strlit("\u{1b}[38;5;226m _`/\"\"\u{1b}[38;5;250m.-.    \u{1b}[0m");
        reveal_strlit(" _`/\"\"");
        reveal_strlit(".-.    ");
        reveal_strlit("\u{1b}[38;5;226m  ,\\_\u{1b}[38;5;250m(   ).  \u{1b}[0m");
        reveal_strlit("  ,\\_");
        reveal_strlit("(   ).  ");
        reveal_strlit("\u{1b}[38;5;226m   /\u{1b}[38;5;250m(___(__) \u{1b}[0m");
        reveal_strlit("   /");
        reveal_strlit("(___(__) ");
        reveal_strlit("\u{1b}[38;5;111m     \u{2018} \u{2018} \u{2018} \u{2018} \u{1b}[0m");
        reveal_strlit("     \u{2018} \u{2018} \u{2018} \u{2018} ");
        reveal_strlit("\u{1b}[38;5;111m    \u{2018} \u{2018} \u{2018} \u{2018}  \u{1b}[0m");
        reveal_strlit("    \u{2018} \u{2018} \u{2018} \u{2018}  ");
        let m0 = seq!['[', '3', '8', ';', '5', ';', '2', '2', '6'];
        assert forall|k: int| 0 <= k < m0.len() implies m0[k] != 'm' by {}
        lemma_directive_zero(m0);
        let m1 = seq!['[', '3', '8', ';', '5', ';', '2', '5', '0'];
        assert forall|k: int| 0 <= k < m1.len() implies m1[k] != 'm' by {}
        lemma_directive_zero(m1);
        let m2 = seq!['[', '0'];
        assert forall|k: int| 0 <= k < m2.len() implies m2[k] != 'm' by {}
        lemma_directive_zero(m2);
        let m3 = seq!['[', '3', '8', ';', '5', ';', '1', '1', '1'];
        assert forall|k: int| 0 <= k < m3.len() implies m3[k] != 'm' by {}
        lemma_directive_zero(m3);
        assert forall|k: int| 0 <= k < " _`/\"\""@.len() implies " _`/\"\""@[k] != '\u{1b}'
            && !is_wide_char(" _`/\"\""@[k]) by {}
        assert(plain_text(" _`/\"\""@));
        lemma_plain_text_width(" _`/\"\""@);
        assert forall|k: int| 0 <= k < ".-.    "@.len() implies ".-.    "@[k] != '\u{1b}'
            && !is_wide_char(".-.    "@[k]) by {}
        assert(plain_text(".-.    "@));
        lemma_plain_text_width(".-.    "@);
        assert forall|k: int| 0 <= k < "  ,\\_"@.len() implies "  ,\\_"@[k] != '\u{1b}'
            && !is_wide_char("  ,\\_"@[k]) by {}
        assert(plain_text("  ,\\_"@));
        lemma_plain_text_width("  ,\\_"@);
        assert forall|k: int| 0 <= k < "(   ).  "@.len() implies "(   ).  "@[k] != '\u{1b}'
            && !is_wide_char("(   ).  "@[k]) by {}
        assert(plain_text("(   ).  "@));
        lemma_plain_text_width("(   ).  "@);
        assert forall|k: int| 0 <= k < "   /"@.len() implies "   /"@[k] != '\u{1b}'
            && !is_wide_char("   /"@[k]) by {}
        assert(plain_text("   /"@));
        lemma_plain_text_width("   /"@);
        assert forall|k: int| 0 <= k < "(___(__) "@.len() implies "(___(__) "@[k] != '\u{1b}'
            && !is_wide_char("(___(__) "@[k]) by {}
        assert(plain_text("(___(__) "@));
        lemma_plain_text_width("(___(__) "@);
        assert forall|k: int| 0 <= k < "     \u{2018} \u{2018} \u{2018} \u{2018} "@.len() implies "     \u{2018} \u{2018} \u{2018} \u{2018} "@[k] != '\u{1b}'
            && !is_wide_char("     \u{2018} \u{2018} \u{2018} \u{2018} "@[k]) by {}
        assert(plain_text("     \u{2018} \u{2018} \u{2018} \u{2018} "@));
        lemma_plain_text_width("     \u{2018} \u{2018} \u{2018} \u{2018} "@);
        assert forall|k: int| 0 <= k < "    \u{2018} \u{2018} \u{2018} \u{2018}  "@.len() implies "    \u{2018} \u{2018} \u{2018} \u{2018}  "@[k] != '\u{1b}'
            && !is_wide_char("    \u{2018} \u{2018} \u{2018} \u{2018}  "@[k]) by {}
        assert(plain_text("    \u{2018} \u{2018} \u{2018} \u{2018}  "@));
        lemma_plain_text_width("    \u{2018} \u{2018} \u{2018} \u{2018}  "@);
        assert("\u{1b}[38;5;226m _`/\"\"\u{1b}[38;5;250m.-.    \u{1b}[0m"@ =~= directive(m0) + " _`/\"\""@ + directive(m1) + ".-.    "@ + directive(m2));
        lemma_well_styled_concat(directive(m0), " _`/\"\""@);
        lemma_well_styled_concat((directive(m0) + " _`/\"\""@), directive(m1));
        lemma_well_styled_concat(((directive(m0) + " _`/\"\""@) + directive(m1)), ".-.    "@);
        lemma_well_styled_concat((((directive(m0) + " _`/\"\""@) + directive(m1)) + ".-.    "@), directive(m2));
        assert(well_styled("\u{1b}[38;5;226m _`/\"\"\u{1b}[38;5;250m.-.    \u{1b}[0m"@) && visible_width("\u{1b}[38;5;226m _`/\"\"\u{1b}[38;5;250m.-.    \u{1b}[0m"@) == 13);
        assert("\u{1b}[38;5;226m  ,\\_\u{1b}[38;5;250m(   ).  \u{1b}[0m"@ =~= directive(m0) + "  ,\\_"@ + directive(m1) + "(   ).  "@ + directive(m2));
        lemma_well_styled_concat(directive(m0), "  ,\\_"@);
        lemma_well_styled_concat((directive(m0) + "  ,\\_"@), directive(m1));
        lemma_well_styled_concat(((directive(m0) + "  ,\\_"@) + directive(m1)), "(   ).  "@);
        lemma_well_styled_concat((((directive(m0) + "  ,\\_"@) + directive(m1)) + "(   ).  "@), directive(m2));
        assert(well_styled("\u{1b}[38;5;226m  ,\\_\u{1b}[38;5;250m(   ).  \u{1b}[0m"@) && visible_width("\u{1b}[38;5;226m  ,\\_\u{1b}[38;5;250m(   ).  \u{1b}[0m"@) == 13);
        assert("\u{1b}[38;5;226m   /\u{1b}[38;5;250m(___(__) \u{1b}[0m"@ =~= directive(m0) + "   /"@ + directive(m1) + "(___(__) "@ + directive(m2));
        lemma_well_styled_concat(directive(m0), "   /"@);
        lemma_well_styled_concat((directive(m0) + "   /"@), directive(m1));
        lemma_well_styled_concat(((directive(m0) + "   /"@) + directive(m1)), "(___(__) "@);
        lemma_well_styled_concat((((directive(m0) + "   /"@) + directive(m1)) + "(___(__) "@), directive(m2));
        assert(well_styled("\u{1b}[38;5;226m   /\u{1b}[38;5;250m(___(__) \u{1b}[0m"@) && visible_width("\u{1b}[38;5;226m   /\u{1b}[38;5;250m(___(__) \u{1b}[0m"@) == 13);
        assert("\u{1b}[38;5;111m     \u{2018} \u{2018} \u{2018} \u{2018} \u{1b}[0m"@ =~= directive(m3) + "     \u{2018} \u{2018} \u{2018} \u{2018} "@ + directive(m2));
        lemma_well_styled_concat(directive(m3), "     \u{2018} \u{2018} \u{2018} \u{2018} "@);
        lemma_well_styled_concat((directive(m3) + "     \u{2018} \u{2018} \u{2018} \u{2018} "@), directive(m2));
        assert(well_styled("\u{1b}[38;5;111m     \u{2018} \u{2018} \u{2018} \u{2018} \u{1b}[0m"@) && visible_width("\u{1b}[38;5;111m     \u{2018} \u{2018} \u{2018} \u{2018} \u{1b}[0m"@) == 13);
        assert("\u{1b}[38;5;111m    \u{2018} \u{2018} \u{2018} \u{2018}  \u{1b}[0m"@ =~= directive(m3) + "    \u{2018} \u{2018} \u{2018} \u{2018}  "@ + directive(m2));
        lemma_well_styled_concat(directive(m3), "    \u{2018} \u{2018} \u{2018} \u{2018}  "@);
        lemma_well_styled_concat((directive(m3) + "    \u{2018} \u{2018} \u{2018} \u{2018}  "@), directive(m2));
        assert(well_styled("\u{1b}[38;5;111m    \u{2018} \u{2018} \u{2018} \u{2018}  \u{1b}[0m"@) && visible_width("\u{1b}[38;5;111m    \u{2018} \u{2018} \u{2018} \u{2018}  \u{1b}[0m"@) == 13);
        assert forall|i: int|
            0 <= i < 5 implies #[trigger] well_styled(r@[i]@) && visible_width(r@[i]@)
            == 13 by {
            assert(r@[0] == "\u{1b}[38;5;226m _`/\"\"\u{1b}[38;5;250m.-.    \u{1b}[0m");
            assert(r@[1] == "\u{1b}[38;5;226m  ,\\_\u{1b}[38;5;250m(   ).  \u{1b}[0m");
            assert(r@[2] == "\u{1b}[38;5;226m   /\u{1b}[38;5;250m(___(__) \u{1b}[0m");
            assert(r@[3] == "\u{1b}[38;5;111m     \u{2018} \u{2018} \u{2018} \u{2018} \u{1b}[0m");
            assert(r@[4] == "\u{1b}[38;5;111m    \u{2018} \u{2018} \u{2018} \u{2018}  \u{1b}[0m");
        }
        assert forall|i: int| 0 <= i < 5 implies (#[trigger] r@[i]@) == icon_light_showers_spec()[i] by {
            assert(r@[0] == "\u{1b}[38;5;226m _`/\"\"\u{1b}[38;5;250m.-.    \u{1b}[0m");
            assert(icon_light_showers_spec()[0] == "\u{1b}[38;5;226m _`/\"\"\u{1b}[38;5;250m.-.    \u{1b}[0m"@);
            assert(r@[1] == "\u{1b}[38;5;226m  ,\\_\u{1b}[38;5;250m(   ).  \u{1b}[0m");
            assert(icon_light_showers_spec()[1] == "\u{1b}[38;5;226m  ,\\_\u{1b}[38;5;250m(   ).  \u{1b}[0m"@);
            assert(r@[2] == "\u{1b}[38;5;226m   /\u{1b}[38;5;250m(___(__) \u{1b}[0m");
            assert(icon_light_showers_spec()[2] == "\u{1b}[38;5;226m   /\u{1b}[38;5;250m(___(__) \u{1b}[0m"@);
            assert(r@[3] == "\u{1b}[38;5;111m     \u{2018} \u{2018} \u{2018} \u{2018} \u{1b}[0m");
            assert(icon_light_showers_spec()[3] == "\u{1b}[38;5;111m     \u{2018} \u{2018} \u{2018} \u{2018} \u{1b}[0m"@);
            assert(r@[4] == "\u{1b}[38;5;111m    \u{2018} \u{2018} \u{2018} \u{2018}  \u{1b}[0m");
            assert(icon_light_showers_spec()[4] == "\u{1b}[38;5;111m    \u{2018} \u{2018} \u{2018} \u{2018}  \u{1b}[0m"@);
        }
    }
    r
}

/// The art lines of this icon.
pub open spec fn icon_heavy_showers_spec() -> Seq<Seq<char>> {
    seq![
        "\u{1b}[38;5;226m _`/\"\"\u{1b}[38;5;240;1m.-.    \u{1b}[0m"@,
        "\u{1b}[38;5;226m  ,\\_\u{1b}[38;5;240;1m(   ).  \u{1b}[0m"@,
        "\u{1b}[38;5;226m   /\u{1b}[38;5;240;1m(___(__) \u{1b}[0m"@,
        "\u{1b}[38;5;21;1m   \u{201a}\u{2018}\u{201a}\u{2018}\u{201a}\u{2018}\u{201a}\u{2018}  \u{1b}[0m"@,
        "\u{1b}[38;5;21;1m   \u{201a}\u{2019}\u{201a}\u{2019}\u{201a}\u{2019}\u{201a}\u{2019}  \u{1b}[0m"@,
    ]
}

fn icon_heavy_showers() -> (r: [&'static str; 5])
    ensures
        icon_lines_ok(r),
        forall|i: int| 0 <= i < 5 ==> (#[trigger] r@[i]@) == icon_heavy_showers_spec()[i],
{
    let r = [
        "\u{1b}[38;5;226m _`/\"\"\u{1b}[38;5;240;1m.-.    \u{1b}[0m",
        "\u{1b}[38;5;226m  ,\\_\u{1b}[38;5;240;1m(   ).  \u{1b}[0m",
        "\u{1b}[38;5;226m   /\u{1b}[38;5;240;1m(___(__) \u{1b}[0m",
        "\u{1b}[38;5;21;1m   \u{201a}\u{2018}\u{201a}\u{2018}\u{201a}\u{2018}\u{201a}\u{2018}  \u{1b}[0m",
        "\u{1b}[38;5;21;1m   \u{201a}\u{2019}\u{201a}\u{2019}\u{201a}\u{2019}\u{201a}\u{2019}  \u{1b}[0m",
    ];
    proof {
        reveal_strlit("\u{1b}[38;5;226m _`/\"\"\u{1b}[38;5;240;1m.-.    \u{1b}[0m");
        reveal_strlit(" _`/\"\"");
        reveal_strlit(".-.    ");
        reveal_strlit("\u{1b}[38;5;226m  ,\\_\u{1b}[38;5;240;1m(   ).  \u{1b}[0m");
        reveal_strlit("  ,\\_");
        reveal_strlit("(   ).  ");
        reveal_strlit("\u{1b}[38;5;226m   /\u{1b}[38;5;240;1m(___(__) \u{1b}[0m");
        reveal_strlit("   /");
        reveal_strlit("(___(__) ");
        reveal_strlit("\u{1b}[38;5;21;1m   \u{201a}\u{2018}\u{201a}\u{2018}\u{201a}\u{2018}\u{201a}\u{2018}  \u{1b}[0m");
        reveal_strlit("   \u{201a}\u{2018}\u{201a}\u{2018}\u{201a}\u{2018}\u{201a}\u{2018}  ");
        reveal_strlit("\u{1b}[38;5;21;1m   \u{201a}\u{2019}\u{201a}\u{2019}\u{201a}\u{2019}\u{201a}\u{2019}  \u{1b}[0m");
        reveal_strlit("   \u{201a}\u{2019}\u{201a}\u{2019}\u{201a}\u{2019}\u{201a}\u{2019}  ");
        let m0 = seq!['[', '3', '8', ';', '5', ';', '2', '2', '6'];
        assert forall|k: int| 0 <= k < m0.len() implies m0[k] != 'm' by {}
        lemma_directive_zero(m0);
        let m1 = seq!['[', '3', '8', ';', '5', ';', '2', '4', '0', ';', '1'];
        assert forall|k: int| 0 <= k < m1.len() implies m1[k] != 'm' by {}
        lemma_directive_zero(m1);
        let m2 = seq!['[', '0'];
        assert forall|k: int| 0 <= k < m2.len() implies m2[k] != 'm' by {}
        lemma_directive_zero(m2);
        let m3 = seq!['[', '3', '8', ';', '5', ';', '2', '1', ';', '1'];
        assert forall|k: int| 0 <= k < m3.len() implies m3[k] != 'm' by {}
        lemma_directive_zero(m3);
        assert forall|k: int| 0 <= k < " _`/\"\""@.len() implies " _`/\"\""@[k] != '\u{1b}'
            && !is_wide_char(" _`/\"\""@[k]) by {}
        assert(plain_text(" _`/\"\""@));
        lemma_plain_text_width(" _`/\"\""@);
        assert forall|k: int| 0 <= k < ".-.    "@.len() implies ".-.    "@[k] != '\u{1b}'
            && !is_wide_char(".-.    "@[k]) by {}
        assert(plain_text(".-.    "@));
        lemma_plain_text_width(".-.    "@);
        assert forall|k: int| 0 <= k < "  ,\\_"@.len() implies "  ,\\_"@[k] != '\u{1b}'
            && !is_wide_char("  ,\\_"@[k]) by {}
        assert(plain_text("  ,\\_"@));
        lemma_plain_text_width("  ,\\_"@);
        assert forall|k: int| 0 <= k < "(   ).  "@.len() implies "(   ).  "@[k] != '\u{1b}'
            && !is_wide_char("(   ).  "@[k]) by {}
        assert(plain_text("(   ).  "@));
        lemma_plain_text_width("(   ).  "@);
        assert forall|k: int| 0 <= k < "   /"@.len() implies "   /"@[k] != '\u{1b}'
            && !is_wide_char("   /"@[k]) by {}
        assert(plain_text("   /"@));
        lemma_plain_text_width("   /"@);
        assert forall|k: int| 0 <= k < "(___(__) "@.len() implies "(___(__) "@[k] != '\u{1b}'
            && !is_wide_char("(___(__) "@[k]) by {}
        assert(plain_text("(___(__) "@));
        lemma_plain_text_width("(___(__) "@);
        assert forall|k: int| 0 <= k < "   \u{201a}\u{2018}\u{201a}\u{2018}\u{201a}\u{2018}\u{201a}\u{2018}  "@.len() implies "   \u{201a}\u{2018}\u{201a}\u{2018}\u{201a}\u{2018}\u{201a}\u{2018}  "@[k] != '\u{1b}'
            && !is_wide_char("   \u{201a}\u{2018}\u{201a}\u{2018}\u{201a}\u{2018}\u{201a}\u{2018}  "@[k]) by {}
        assert(plain_text("   \u{201a}\u{2018}\u{201a}\u{2018}\u{201a}\u{2018}\u{201a}\u{2018}  "@));
        lemma_plain_text_width("   \u{201a}\u{2018}\u{201a}\u{2018}\u{201a}\u{2018}\u{201a}\u{2018}  "@);
        assert forall|k: int| 0 <= k < "   \u{201a}\u{2019}\u{201a}\u{2019}\u{201a}\u{2019}\u{201a}\u{2019}  "@.len() implies "   \u{201a}\u{2019}\u{201a}\u{2019}\u{201a}\u{2019}\u{201a}\u{2019}  "@[k] != '\u{1b}'
            && !is_wide_char("   \u{201a}\u{2019}\u{201a}\u{2019}\u{201a}\u{2019}\u{201a}\u{2019}  "@[k]) by {}
        assert(plain_text("   \u{201a}\u{2019}\u{201a}\u{2019}\u{201a}\u{2019}\u{201a}\u{2019}  "@));
        lemma_plain_text_width("   \u{201a}\u{2019}\u{201a}\u{2019}\u{201a}\u{2019}\u{201a}\u{2019}  "@);
        assert("\u{1b}[38;5;226m _`/\"\"\u{1b}[38;5;240;1m.-.    \u{1b}[0m"@ =~= directive(m0) + " _`/\"\""@ + directive(m1) + ".-.    "@ + directive(m2));
        lemma_well_styled_concat(directive(m0), " _`/\"\""@);
        lemma_well_styled_concat((directive(m0) + " _`/\"\""@), directive(m1));
        lemma_well_styled_concat(((directive(m0) + " _`/\"\""@) + directive(m1)), ".-.    "@);
        lemma_well_styled_concat((((directive(m0) + " _`/\"\""@) + directive(m1)) + ".-.    "@), directive(m2));
        assert(well_styled("\u{1b}[38;5;226m _`/\"\"\u{1b}[38;5;240;1m.-.    \u{1b}[0m"@) && visible_width("\u{1b}[38;5;226m _`/\"\"\u{1b}[38;5;240;1m.-.    \u{1b}[0m"@) == 13);
        assert("\u{1b}[38;5;226m  ,\\_\u{1b}[38;5;240;1m(   ).  \u{1b}[0m"@ =~= directive(m0) + "  ,\\_"@ + directive(m1) + "(   ).  "@ + directive(m2));
        lemma_well_styled_concat(directive(m0), "  ,\\_"@);
        lemma_well_styled_concat((directive(m0) + "  ,\\_"@), directive(m1));
        lemma_well_styled_concat(((directive(m0) + "  ,\\_"@) + directive(m1)), "(   ).  "@);
        lemma_well_styled_concat((((directive(m0) + "  ,\\_"@) + directive(m1)) + "(   ).  "@), directive(m2));
        assert(well_styled("\u{1b}[38;5;226m  ,\\_\u{1b}[38;5;240;1m(   ).  \u{1b}[0m"@) && visible_width("\u{1b}[38;5;226m  ,\\_\u{1b}[38;5;240;1m(   ).  \u{1b}[0m"@) == 13);
        assert("\u{1b}[38;5;226m   /\u{1b}[38;5;240;1m(___(__) \u{1b}[0m"@ =~= directive(m0) + "   /"@ + directive(m1) + "(___(__) "@ + directive(m2));
        lemma_well_styled_concat(directive(m0), "   /"@);
        lemma_well_styled_concat((directive(m0) + "   /"@), directive(m1));
        lemma_well_styled_concat(((directive(m0) + "   /"@) + directive(m1)), "(___(__) "@);
        lemma_well_styled_concat((((directive(m0) + "   /"@) + directive(m1)) + "(___(__) "@), directive(m2));
        assert(well_styled("\u{1b}[38;5;226m   /\u{1b}[38;5;240;1m(___(__) \u{1b}[0m"@) && visible_width("\u{1b}[38;5;226m   /\u{1b}[38;5;240;1m(___(__) \u{1b}[0m"@) == 13);
        assert("\u{1b}[38;5;21;1m   \u{201a}\u{2018}\u{201a}\u{2018}\u{201a}\u{2018}\u{201a}\u{2018}  \u{1b}[0m"@ =~= directive(m3) + "   \u{201a}\u{2018}\u{201a}\u{2018}\u{201a}\u{2018}\u{201a}\u{2018}  "@ + directive(m2));
        lemma_well_styled_concat(directive(m3), "   \u{201a}\u{2018}\u{201a}\u{2018}\u{201a}\u{2018}\u{201a}\u{2018}  "@);
        lemma_well_styled_concat((directive(m3) + "   \u{201a}\u{2018}\u{201a}\u{2018}\u{201a}\u{2018}\u{201a}\u{2018}  "@), directive(m2));
        assert(well_styled("\u{1b}[38;5;21;1m   \u{201a}\u{2018}\u{201a}\u{2018}\u{201a}\u{2018}\u{201a}\u{2018}  \u{1b}[0m"@) && visible_width("\u{1b}[38;5;21;1m   \u{201a}\u{2018}\u{201a}\u{2018}\u{201a}\u{2018}\u{201a}\u{2018}  \u{1b}[0m"@) == 13);
        assert("\u{1b}[38;5;21;1m   \u{201a}\u{2019}\u{201a}\u{2019}\u{201a}\u{2019}\u{201a}\u{2019}  \u{1b}[0m"@ =~= directive(m3) + "   \u{201a}\u{2019}\u{201a}\u{2019}\u{201a}\u{2019}\u{201a}\u{2019}  "@ + directive(m2));
        lemma_well_styled_concat(directive(m3), "   \u{201a}\u{2019}\u{201a}\u{2019}\u{201a}\u{2019}\u{201a}\u{2019}  "@);
        lemma_well_styled_concat((directive(m3) + "   \u{201a}\u{2019}\u{201a}\u{2019}\u{201a}\u{2019}\u{201a}\u{2019}  "@), directive(m2));
        assert(well_styled("\u{1b}[38;5;21;1m   \u{201a}\u{2019}\u{201a}\u{2019}\u{201a}\u{2019}\u{201a}\u{2019}  \u{1b}[0m"@) && visible_width("\u{1b}[38;5;21;1m   \u{201a}\u{2019}\u{201a}\u{2019}\u{201a}\u{2019}\u{201a}\u{2019}  \u{1b}[0m"@) == 13);
        assert forall|i: int|
            0 <= i < 5 implies #[trigger] well_styled(r@[i]@) && visible_width(r@[i]@)
            == 13 by {
            assert(r@[0] == "\u{1b}[38;5;226m _`/\"\"\u{1b}[38;5;240;1m.-.    \u{1b}[0m");
            assert(r@[1] == "\u{1b}[38;5;226m  ,\\_\u{1b}[38;5;240;1m(   ).  \u{1b}[0m");
            assert(r@[2] == "\u{1b}[38;5;226m   /\u{1b}[38;5;240;1m(___(__) \u{1b}[0m");
            assert(r@[3] == "\u{1b}[38;5;21;1m   \u{201a}\u{2018}\u{201a}\u{2018}\u{201a}\u{2018}\u{201a}\u{2018}  \u{1b}[0m");
            assert(r@[4] == "\u{1b}[38;5;21;1m   \u{201a}\u{2019}\u{201a}\u{2019}\u{201a}\u{2019}\u{201a}\u{2019}  \u{1b}[0m");
        }
        assert forall|i: int| 0 <= i < 5 implies (#[trigger] r@[i]@) == icon_heavy_showers_spec()[i] by {
            assert(r@[0] == "\u{1b}[38;5;226m _`/\"\"\u{1b}[38;5;240;1m.-.    \u{1b}[0m");
            assert(icon_heavy_showers_spec()[0] == "\u{1b}[38;5;226m _`/\"\"\u{1b}[38;5;240;1m.-.    \u{1b}[0m"@);
            assert(r@[1] == "\u{1b}[38;5;226m  ,\\_\u{1b}[38;5;240;1m(   ).  \u{1b}[0m");
            assert(icon_heavy_showers_spec()[1] == "\u{1b}[38;5;226m  ,\\_\u{1b}[38;5;240;1m(   ).  \u{1b}[0m"@);
            assert(r@[2] == "\u{1b}[38;5;226m   /\u{1b}[38;5;240;1m(___(__) \u{1b}[0m");
            assert(icon_heavy_showers_spec()[2] == "\u{1b}[38;5;226m   /\u{1b}[38;5;240;1m(___(__) \u{1b}[0m"@);
            assert(r@[3] == "\u{1b}[38;5;21;1m   \u{201a}\u{2018}\u{201a}\u{2018}\u{201a}\u{2018}\u{201a}\u{2018}  \u{1b}[0m");
            assert(icon_heavy_showers_spec()[3] == "\u{1b}[38;5;21;1m   \u{201a}\u{2018}\u{201a}\u{2018}\u{201a}\u{2018}\u{201a}\u{2018}  \u{1b}[0m"@);
            assert(r@[4] == "\u{1b}[38;5;21;1m   \u{201a}\u{2019}\u{201a}\u{2019}\u{201a}\u{2019}\u{201a}\u{2019}  \u{1b}[0m");
            assert(icon_heavy_showers_spec()[4] == "\u{1b}[38;5;21;1m   \u{201a}\u{2019}\u{201a}\u{2019}\u{201a}\u{2019}\u{201a}\u{2019}  \u{1b}[0m"@);
        }
    }
    r
}

/// The art lines of this icon.
pub open spec fn icon_light_snow_showers_spec() -> Seq<Seq<char>> {
    seq![
        "\u{1b}[38;5;226m _`/\"\"\u{1b}[38;5;250m.-.    \u{1b}[0m"@,
        "\u{1b}[38;5;226m  ,\\_\u{1b}[38;5;250m(   ).  \u{1b}[0m"@,
        "\u{1b}[38;5;226m   /\u{1b}[38;5;250m(___(__) \u{1b}[0m"@,
        "\u{1b}[38;5;255m     *  *  * \u{1b}[0m"@,
        "\u{1b}[38;5;255m    *  *  *  \u{1b}[0m"@,
    ]
}

fn icon_light_snow_showers() -> (r: [&'static str; 5])
    ensures
        icon_lines_ok(r),
        forall|i: int| 0 <= i < 5 ==> (#[trigger] r@[i]@) == icon_light_snow_showers_spec()[i],
{
    let r = [
        "\u{1b}[38;5;226m _`/\"\"\u{1b}[38;5;250m.-.    \u{1b}[0m",
        "\u{1b}[38;5;226m  ,\\_\u{1b}[38;5;250m(   ).  \u{1b}[0m",
        "\u{1b}[38;5;226m   /\u{1b}[38;5;250m(___(__) \u{1b}[0m",
        "\u{1b}[38;5;255m     *  *  * \u{1b}[0m",
        "\u{1b}[38;5;255m    *  *  *  \u{1b}[0m",
    ];
    proof {
        reveal_strlit("\u{1b}[38;5;226m _`/\"\"\u{1b}[38;5;250m.-.    \u{1b}[0m");
        reveal_strlit(" _`/\"\"");
        reveal_strlit(".-.    ");
        reveal_strlit("\u{1b}[38;5;226m  ,\\_\u{1b}[38;5;250m(   ).  \u{1b}[0m");
        reveal_strlit("  ,\\_");
        reveal_strlit("(   ).  ");
        reveal_strlit("\u{1b}[38;5;226m   /\u{1b}[38;5;250m(___(__) \u{1b}[0m");
        reveal_strlit("   /");
        reveal_strlit("(___(__) ");
        reveal_strlit("\u{1b}[38;5;255m     *  *  * \u{1b}[0m");
        reveal_strlit("     *  *  * ");
        reveal_strlit("\u{1b}[38;5;255m    *  *  *  \u{1b}[0m");
        reveal_strlit("    *  *  *  ");
        let m0 = seq!['[', '3', '8', ';', '5', ';', '2', '2', '6'];
        assert forall|k: int| 0 <= k < m0.len() implies m0[k] != 'm' by {}
        lemma_directive_zero(m0);
        let m1 = seq!['[', '3', '8', ';', '5', ';', '2', '5', '0'];
        assert forall|k: int| 0 <= k < m1.len() implies m1[k] != 'm' by {}
        lemma_directive_zero(m1);
        let m2 = seq!['[', '0'];
        assert forall|k: int| 0 <= k < m2.len() implies m2[k] != 'm' by {}
        lemma_directive_zero(m2);
        let m3 = seq!['[', '3', '8', ';', '5', ';', '2', '5', '5'];
        assert forall|k: int| 0 <= k < m3.len() implies m3[k] != 'm' by {}
        lemma_directive_zero(m3);
        assert forall|k: int| 0 <= k < " _`/\"\""@.len() implies " _`/\"\""@[k] != '\u{1b}'
            && !is_wide_char(" _`/\"\""@[k]) by {}
        assert(plain_text(" _`/\"\""@));
        lemma_plain_text_width(" _`/\"\""@);
        assert forall|k: int| 0 <= k < ".-.    "@.len() implies ".-.    "@[k] != '\u{1b}'
            && !is_wide_char(".-.    "@[k]) by {}
        assert(plain_text(".-.    "@));
        lemma_plain_text_width(".-.    "@);
        assert forall|k: int| 0 <= k < "  ,\\_"@.len() implies "  ,\\_"@[k] != '\u{1b}'
            && !is_wide_char("  ,\\_"@[k]) by {}
        assert(plain_text("  ,\\_"@));
        lemma_plain_text_width("  ,\\_"@);
        assert forall|k: int| 0 <= k < "(   ).  "@.len() implies "(   ).  "@[k] != '\u{1b}'
            && !is_wide_char("(   ).  "@[k]) by {}
        assert(plain_text("(   ).  "@));
        lemma_plain_text_width("(   ).  "@);
        assert forall|k: int| 0 <= k < "   /"@.len() implies "   /"@[k] != '\u{1b}'
            && !is_wide_char("   /"@[k]) by {}
        assert(plain_text("   /"@));
        lemma_plain_text_width("   /"@);
        assert forall|k: int| 0 <= k < "(___(__) "@.len() implies "(___(__) "@[k] != '\u{1b}'
            && !is_wide_char("(___(__) "@[k]) by {}
        assert(plain_text("(___(__) "@));
        lemma_plain_text_width("(___(__) "@);
        assert forall|k: int| 0 <= k < "     *  *  * "@.len() implies "     *  *  * "@[k] != '\u{1b}'
            && !is_wide_char("     *  *  * "@[k]) by {}
        assert(plain_text("     *  *  * "@));
        lemma_plain_text_width("     *  *  * "@);
        assert forall|k: int| 0 <= k < "    *  *  *  "@.len() implies "    *  *  *  "@[k] != '\u{1b}'
            && !is_wide_char("    *  *  *  "@[k]) by {}
        assert(plain_text("    *  *  *  "@));
        lemma_plain_text_width("    *  *  *  "@);
        assert("\u{1b}[38;5;226m _`/\"\"\u{1b}[38;5;250m.-.    \u{1b}[0m"@ =~= directive(m0) + " _`/\"\""@ + directive(m1) + ".-.    "@ + directive(m2));
        lemma_well_styled_concat(directive(m0), " _`/\"\""@);
        lemma_well_styled_concat((directive(m0) + " _`/\"\""@), directive(m1));
        lemma_well_styled_concat(((directive(m0) + " _`/\"\""@) + directive(m1)), ".-.    "@);
        lemma_well_styled_concat((((directive(m0) + " _`/\"\""@) + directive(m1)) + ".-.    "@), directive(m2));
        assert(well_styled("\u{1b}[38;5;226m _`/\"\"\u{1b}[38;5;250m.-.    \u{1b}[0m"@) && visible_width("\u{1b}[38;5;226m _`/\"\"\u{1b}[38;5;250m.-.    \u{1b}[0m"@) == 13);
        assert("\u{1b}[38;5;226m  ,\\_\u{1b}[38;5;250m(   ).  \u{1b}[0m"@ =~= directive(m0) + "  ,\\_"@ + directive(m1) + "(   ).  "@ + directive(m2));
        lemma_well_styled_concat(directive(m0), "  ,\\_"@);
        lemma_well_styled_concat((directive(m0) + "  ,\\_"@), directive(m1));
        lemma_well_styled_concat(((directive(m0) + "  ,\\_"@) + directive(m1)), "(   ).  "@);
        lemma_well_styled_concat((((directive(m0) + "  ,\\_"@) + directive(m1)) + "(   ).  "@), directive(m2));
        assert(well_styled("\u{1b}[38;5;226m  ,\\_\u{1b}[38;5;250m(   ).  \u{1b}[0m"@) && visible_width("\u{1b}[38;5;226m  ,\\_\u{1b}[38;5;250m(   ).  \u{1b}[0m"@) == 13);
        assert("\u{1b}[38;5;226m   /\u{1b}[38;5;250m(___(__) \u{1b}[0m"@ =~= directive(m0) + "   /"@ + directive(m1) + "(___(__) "@ + directive(m2));
        lemma_well_styled_concat(directive(m0), "   /"@);
        lemma_well_styled_concat((directive(m0) + "   /"@), directive(m1));
        lemma_well_styled_concat(((directive(m0) + "   /"@) + directive(m1)), "(___(__) "@);
        lemma_well_styled_concat((((directive(m0) + "   /"@) + directive(m1)) + "(___(__) "@), directive(m2));
        assert(well_styled("\u{1b}[38;5;226m   /\u{1b}[38;5;250m(___(__) \u{1b}[0m"@) && visible_width("\u{1b}[38;5;226m   /\u{1b}[38;5;250m(___(__) \u{1b}[0m"@) == 13);
        assert("\u{1b}[38;5;255m     *  *  * \u{1b}[0m"@ =~= directive(m3) + "     *  *  * "@ + directive(m2));
        lemma_well_styled_concat(directive(m3), "     *  *  * "@);
        lemma_well_styled_concat((directive(m3) + "     *  *  * "@), directive(m2));
        assert(well_styled("\u{1b}[38;5;255m     *  *  * \u{1b}[0m"@) && visible_width("\u{1b}[38;5;255m     *  *  * \u{1b}[0m"@) == 13);
        assert("\u{1b}[38;5;255m    *  *  *  \u{1b}[0m"@ =~= directive(m3) + "    *  *  *  "@ + directive(m2));
        lemma_well_styled_concat(directive(m3), "    *  *  *  "@);
        lemma_well_styled_concat((directive(m3) + "    *  *  *  "@), directive(m2));
        assert(well_styled("\u{1b}[38;5;255m    *  *  *  \u{1b}[0m"@) && visible_width("\u{1b}[38;5;255m    *  *  *  \u{1b}[0m"@) == 13);
        assert forall|i: int|
            0 <= i < 5 implies #[trigger] well_styled(r@[i]@) && visible_width(r@[i]@)
            == 13 by {
            assert(r@[0] == "\u{1b}[38;5;226m _`/\"\"\u{1b}[38;5;250m.-.    \u{1b}[0m");
            assert(r@[1] == "\u{1b}[38;5;226m  ,\\_\u{1b}[38;5;250m(   ).  \u{1b}[0m");
            assert(r@[2] == "\u{1b}[38;5;226m   /\u{1b}[38;5;250m(___(__) \u{1b}[0m");
            assert(r@[3] == "\u{1b}[38;5;255m     *  *  * \u{1b}[0m");
            assert(r@[4] == "\u{1b}[38;5;255m    *  *  *  \u{1b}[0m");
        }
        assert forall|i: int| 0 <= i < 5 implies (#[trigger] r@[i]@) == icon_light_snow_showers_spec()[i] by {
            assert(r@[0] == "\u{1b}[38;5;226m _`/\"\"\u{1b}[38;5;250m.-.    \u{1b}[0m");
            assert(icon_light_snow_showers_spec()[0] == "\u{1b}[38;5;226m _`/\"\"\u{1b}[38;5;250m.-.    \u{1b}[0m"@);
            assert(r@[1] == "\u{1b}[38;5;226m  ,\\_\u{1b}[38;5;250m(   ).  \u{1b}[0m");
            assert(icon_light_snow_showers_spec()[1] == "\u{1b}[38;5;226m  ,\\_\u{1b}[38;5;250m(   ).  \u{1b}[0m"@);
            assert(r@[2] == "\u{1b}[38;5;226m   /\u{1b}[38;5;250m(___(__) \u{1b}[0m");
            assert(icon_light_snow_showers_spec()[2] == "\u{1b}[38;5;226m   /\u{1b}[38;5;250m(___(__) \u{1b}[0m"@);
            assert(r@[3] == "\u{1b}[38;5;255m     *  *  * \u{1b}[0m");
            assert(icon_light_snow_showers_spec()[3] == "\u{1b}[38;5;255m     *  *  * \u{1b}[0m"@);
            assert(r@[4] == "\u{1b}[38;5;255m    *  *  *  \u{1b}[0m");
            assert(icon_light_snow_showers_spec()[4] == "\u{1b}[38;5;255m    *  *  *  \u{1b}[0m"@);
        }
    }
    r
}

/// The art lines of this icon.
pub open spec fn icon_heavy_snow_showers_spec() -> Seq<Seq<char>> {
    seq![
        "\u{1b}[38;5;226m _`/\"\"\u{1b}[38;5;240;1m.-.    \u{1b}[0m"@,
        "\u{1b}[38;5;226m  ,\\_\u{1b}[38;5;240;1m(   ).  \u{1b}[0m"@,
        "\u{1b}[38;5;226m   /\u{1b}[38;5;240;1m(___(__) \u{1b}[0m"@,
        "\u{1b}[38;5;255;1m    * * * *  \u{1b}[0m"@,
        "\u{1b}[38;5;255;1m   * * * *   \u{1b}[0m"@,
    ]
}

fn icon_heavy_snow_showers() -> (r: [&'static str; 5])
    ensures
        icon_lines_ok(r),
        forall|i: int| 0 <= i < 5 ==> (#[trigger] r@[i]@) == icon_heavy_snow_showers_spec()[i],
{
    let r = [
        "\u{1b}[38;5;226m _`/\"\"\u{1b}[38;5;240;1m.-.    \u{1b}[0m",
        "\u{1b}[38;5;226m  ,\\_\u{1b}[38;5;240;1m(   ).  \u{1b}[0m",
        "\u{1b}[38;5;226m   /\u{1b}[38;5;240;1m(___(__) \u{1b}[0m",
        "\u{1b}[38;5;255;1m    * * * *  \u{1b}[0m",
        "\u{1b}[38;5;255;1m   * * * *   \u{1b}[0m",
    ];
    proof {
        reveal_strlit("\u{1b}[38;5;226m _`/\"\"\u{1b}[38;5;240;1m.-.    \u{1b}[0m");
        reveal_strlit(" _`/\"\"");
        reveal_strlit(".-.    ");
        reveal_strlit("\u{1b}[38;5;226m  ,\\_\u{1b}[38;5;240;1m(   ).  \u{1b}[0m");
        reveal_strlit("  ,\\_");
        reveal_strlit("(   ).  ");
        reveal_strlit("\u{1b}[38;5;226m   /\u{1b}[38;5;240;1m(___(__) \u{1b}[0m");
        reveal_strlit("   /");
        reveal_strlit("(___(__) ");
        reveal_strlit("\u{1b}[38;5;255;1m    * * * *  \u{1b}[0m");
        reveal_strlit("    * * * *  ");
        reveal_strlit("\u{1b}[38;5;255;1m   * * * *   \u{1b}[0m");
        reveal_strlit("   * * * *   ");
        let m0 = seq!['[', '3', '8', ';', '5', ';', '2', '2', '6'];
        assert forall|k: int| 0 <= k < m0.len() implies m0[k] != 'm' by {}
        lemma_directive_zero(m0);
        let m1 = seq!['[', '3', '8', ';', '5', ';', '2', '4', '0', ';', '1'];
        assert forall|k: int| 0 <= k < m1.len() implies m1[k] != 'm' by {}
        lemma_directive_zero(m1);
        let m2 = seq!['[', '0'];
        assert forall|k: int| 0 <= k < m2.len() implies m2[k] != 'm' by {}
        lemma_directive_zero(m2);
        let m3 = seq!['[', '3', '8', ';', '5', ';', '2', '5', '5', ';', '1'];
        assert forall|k: int| 0 <= k < m3.len() implies m3[k] != 'm' by {}
        lemma_directive_zero(m3);
        assert forall|k: int| 0 <= k < " _`/\"\""@.len() implies " _`/\"\""@[k] != '\u{1b}'
            && !is_wide_char(" _`/\"\""@[k]) by {}
        assert(plain_text(" _`/\"\""@));
        lemma_plain_text_width(" _`/\"\""@);
        assert forall|k: int| 0 <= k < ".-.    "@.len() implies ".-.    "@[k] != '\u{1b}'
            && !is_wide_char(".-.    "@[k]) by {}
        assert(plain_text(".-.    "@));
        lemma_plain_text_width(".-.    "@);
        assert forall|k: int| 0 <= k < "  ,\\_"@.len() implies "  ,\\_"@[k] != '\u{1b}'
            && !is_wide_char("  ,\\_"@[k]) by {}
        assert(plain_text("  ,\\_"@));
        lemma_plain_text_width("  ,\\_"@);
        assert forall|k: int| 0 <= k < "(   ).  "@.len() implies "(   ).  "@[k] != '\u{1b}'
            && !is_wide_char("(   ).  "@[k]) by {}
        assert(plain_text("(   ).  "@));
        lemma_plain_text_width("(   ).  "@);
        assert forall|k: int| 0 <= k < "   /"@.len() implies "   /"@[k] != '\u{1b}'
            && !is_wide_char("   /"@[k]) by {}
        assert(plain_text("   /"@));
        lemma_plain_text_width("   /"@);
        assert forall|k: int| 0 <= k < "(___(__) "@.len() implies "(___(__) "@[k] != '\u{1b}'
            && !is_wide_char("(___(__) "@[k]) by {}
        assert(plain_text("(___(__) "@));
        lemma_plain_text_width("(___(__) "@);
        assert forall|k: int| 0 <= k < "    * * * *  "@.len() implies "    * * * *  "@[k] != '\u{1b}'
            && !is_wide_char("    * * * *  "@[k]) by {}
        assert(plain_text("    * * * *  "@));
        lemma_plain_text_width("    * * * *  "@);
        assert forall|k: int| 0 <= k < "   * * * *   "@.len() implies "   * * * *   "@[k] != '\u{1b}'
            && !is_wide_char("   * * * *   "@[k]) by {}
        assert(plain_text("   * * * *   "@));
        lemma_plain_text_width("   * * * *   "@);
        assert("\u{1b}[38;5;226m _`/\"\"\u{1b}[38;5;240;1m.-.    \u{1b}[0m"@ =~= directive(m0) + " _`/\"\""@ + directive(m1) + ".-.    "@ + directive(m2));
        lemma_well_styled_concat(directive(m0), " _`/\"\""@);
        lemma_well_styled_concat((directive(m0) + " _`/\"\""@), directive(m1));
        lemma_well_styled_concat(((directive(m0) + " _`/\"\""@) + directive(m1)), ".-.    "@);
        lemma_well_styled_concat((((directive(m0) + " _`/\"\""@) + directive(m1)) + ".-.    "@), directive(m2));
        assert(well_styled("\u{1b}[38;5;226m _`/\"\"\u{1b}[38;5;240;1m.-.    \u{1b}[0m"@) && visible_width("\u{1b}[38;5;226m _`/\"\"\u{1b}[38;5;240;1m.-.    \u{1b}[0m"@) == 13);
        assert("\u{1b}[38;5;226m  ,\\_\u{1b}[38;5;240;1m(   ).  \u{1b}[0m"@ =~= directive(m0) + "  ,\\_"@ + directive(m1) + "(   ).  "@ + directive(m2));
        lemma_well_styled_concat(directive(m0), "  ,\\_"@);
        lemma_well_styled_concat((directive(m0) + "  ,\\_"@), directive(m1));
        lemma_well_styled_concat(((directive(m0) + "  ,\\_"@) + directive(m1)), "(   ).  "@);
        lemma_well_styled_concat((((directive(m0) + "  ,\\_"@) + directive(m1)) + "(   ).  "@), directive(m2));
        assert(well_styled("\u{1b}[38;5;226m  ,\\_\u{1b}[38;5;240;1m(   ).  \u{1b}[0m"@) && visible_width("\u{1b}[38;5;226m  ,\\_\u{1b}[38;5;240;1m(   ).  \u{1b}[0m"@) == 13);
        assert("\u{1b}[38;5;226m   /\u{1b}[38;5;240;1m(___(__) \u{1b}[0m"@ =~= directive(m0) + "   /"@ + directive(m1) + "(___(__) "@ + directive(m2));
        lemma_well_styled_concat(directive(m0), "   /"@);
        lemma_well_styled_concat((directive(m0) + "   /"@), directive(m1));
        lemma_well_styled_concat(((directive(m0) + "   /"@) + directive(m1)), "(___(__) "@);
        lemma_well_styled_concat((((directive(m0) + "   /"@) + directive(m1)) + "(___(__) "@), directive(m2));
        assert(well_styled("\u{1b}[38;5;226m   /\u{1b}[38;5;240;1m(___(__) \u{1b}[0m"@) && visible_width("\u{1b}[38;5;226m   /\u{1b}[38;5;240;1m(___(__) \u{1b}[0m"@) == 13);
        assert("\u{1b}[38;5;255;1m    * * * *  \u{1b}[0m"@ =~= directive(m3) + "    * * * *  "@ + directive(m2));
        lemma_well_styled_concat(directive(m3), "    * * * *  "@);
        lemma_well_styled_concat((directive(m3) + "    * * * *  "@), directive(m2));
        assert(well_styled("\u{1b}[38;5;255;1m    * * * *  \u{1b}[0m"@) && visible_width("\u{1b}[38;5;255;1m    * * * *  \u{1b}[0m"@) == 13);
        assert("\u{1b}[38;5;255;1m   * * * *   \u{1b}[0m"@ =~= directive(m3) + "   * * * *   "@ + directive(m2));
        lemma_well_styled_concat(directive(m3), "   * * * *   "@);
        lemma_well_styled_concat((directive(m3) + "   * * * *   "@), directive(m2));
        assert(well_styled("\u{1b}[38;5;255;1m   * * * *   \u{1b}[0m"@) && visible_width("\u{1b}[38;5;255;1m   * * * *   \u{1b}[0m"@) == 13);
        assert forall|i: int|
            0 <= i < 5 implies #[trigger] well_styled(r@[i]@) && visible_width(r@[i]@)
            == 13 by {
            assert(r@[0] == "\u{1b}[38;5;226m _`/\"\"\u{1b}[38;5;240;1m.-.    \u{1b}[0m");
            assert(r@[1] == "\u{1b}[38;5;226m  ,\\_\u{1b}[38;5;240;1m(   ).  \u{1b}[0m");
            assert(r@[2] == "\u{1b}[38;5;226m   /\u{1b}[38;5;240;1m(___(__) \u{1b}[0m");
            assert(r@[3] == "\u{1b}[38;5;255;1m    * * * *  \u{1b}[0m");
            assert(r@[4] == "\u{1b}[38;5;255;1m   * * * *   \u{1b}[0m");
        }
        assert forall|i: int| 0 <= i < 5 implies (#[trigger] r@[i]@) == icon_heavy_snow_showers_spec()[i] by {
            assert(r@[0] == "\u{1b}[38;5;226m _`/\"\"\u{1b}[38;5;240;1m.-.    \u{1b}[0m");
            assert(icon_heavy_snow_showers_spec()[0] == "\u{1b}[38;5;226m _`/\"\"\u{1b}[38;5;240;1m.-.    \u{1b}[0m"@);
            assert(r@[1] == "\u{1b}[38;5;226m  ,\\_\u{1b}[38;5;240;1m(   ).  \u{1b}[0m");
            assert(icon_heavy_snow_showers_spec()[1] == "\u{1b}[38;5;226m  ,\\_\u{1b}[38;5;240;1m(   ).  \u{1b}[0m"@);
            assert(r@[2] == "\u{1b}[38;5;226m   /\u{1b}[38;5;240;1m(___(__) \u{1b}[0m");
            assert(icon_heavy_snow_showers_spec()[2] == "\u{1b}[38;5;226m   /\u{1b}[38;5;240;1m(___(__) \u{1b}[0m"@);
            assert(r@[3] == "\u{1b}[38;5;255;1m    * * * *  \u{1b}[0m");
            assert(icon_heavy_snow_showers_spec()[3] == "\u{1b}[38;5;255;1m    * * * *  \u{1b}[0m"@);
            assert(r@[4] == "\u{1b}[38;5;255;1m   * * * *   \u{1b}[0m");
            assert(icon_heavy_snow_showers_spec()[4] == "\u{1b}[38;5;255;1m   * * * *   \u{1b}[0m"@);
        }
    }
    r
}

/// The art lines of this icon.
pub open spec fn icon_light_sleet_showers_spec() -> Seq<Seq<char>> {
    seq![
        "\u{1b}[38;5;226m _`/\"\"\u{1b}[38;5;250m.-.    \u{1b}[0m"@,
        "\u{1b}[38;5;226m  ,\\_\u{1b}[38;5;250m(   ).  \u{1b}[0m"@,
        "\u{1b}[38;5;226m   /\u{1b}[38;5;250m(___(__) \u{1b}[0m"@,
        "\u{1b}[38;5;111m     \u{2018} \u{1b}[38;5;255m*\u{1b}[38;5;111m \u{2018} \u{1b}[38;5;255m* \u{1b}[0m"@,
        "\u{1b}[38;5;255m    *\u{1b}[38;5;111m \u{2018} \u{1b}[38;5;255m*\u{1b}[38;5;111m \u{2018}  \u{1b}[0m"@,
    ]
}

fn icon_light_sleet_showers() -> (r: [&'static str; 5])
    ensures
        icon_lines_ok(r),
        forall|i: int| 0 <= i < 5 ==> (#[trigger] r@[i]@) == icon_light_sleet_showers_spec()[i],
{
    let r = [
        "\u{1b}[38;5;226m _`/\"\"\u{1b}[38;5;250m.-.    \u{1b}[0m",
        "\u{1b}[38;5;226m  ,\\_\u{1b}[38;5;250m(   ).  \u{1b}[0m",
        "\u{1b}[38;5;226m   /\u{1b}[38;5;250m(___(__) \u{1b}[0m",
        "\u{1b}[38;5;111m     \u{2018} \u{1b}[38;5;255m*\u{1b}[38;5;111m \u{2018} \u{1b}[38;5;255m* \u{1b}[0m",
        "\u{1b}[38;5;255m    *\u{1b}[38;5;111m \u{2018} \u{1b}[38;5;255m*\u{1b}[38;5;111m \u{2018}  \u{1b}[0m",
    ];
    proof {
        reveal_strlit("\u{1b}[38;5;226m _`/\"\"\u{1b}[38;5;250m.-.    \u{1b}[0m");
        reveal_strlit(" _`/\"\"");
        reveal_strlit(".-.    ");
        reveal_strlit("\u{1b}[38;5;226m  ,\\_\u{1b}[38;5;250m(   ).  \u{1b}[0m");
        reveal_strlit("  ,\\_");
        reveal_strlit("(   ).  ");
        reveal_strlit("\u{1b}[38;5;226m   /\u{1b}[38;5;250m(___(__) \u{1b}[0m");
        reveal_strlit("   /");
        reveal_strlit("(___(__) ");
        reveal_strlit("\u{1b}[38;5;111m     \u{2018} \u{1b}[38;5;255m*\u{1b}[38;5;111m \u{2018} \u{1b}[38;5;255m* \u{1b}[0m");
        reveal_strlit("     \u{2018} ");
        reveal_strlit("*");
        reveal_strlit(" \u{2018} ");
        reveal_strlit("* ");
        reveal_strlit("\u{1b}[38;5;255m    *\u{1b}[38;5;111m \u{2018} \u{1b}[38;5;255m*\u{1b}[38;5;111m \u{2018}  \u{1b}[0m");
        reveal_strlit("    *");
        reveal_strlit(" \u{2018}  ");
        let m0 = seq!['[', '3', '8', ';', '5', ';', '2', '2', '6'];
        assert forall|k: int| 0 <= k < m0.len() implies m0[k] != 'm' by {}
        lemma_directive_zero(m0);
        let m1 = seq!['[', '3', '8', ';', '5', ';', '2', '5', '0'];
        assert forall|k: int| 0 <= k < m1.len() implies m1[k] != 'm' by {}
        lemma_directive_zero(m1);
        let m2 = seq!['[', '0'];
        assert forall|k: int| 0 <= k < m2.len() implies m2[k] != 'm' by {}
        lemma_directive_zero(m2);
        let m3 = seq!['[', '3', '8', ';', '5', ';', '1', '1', '1'];
        assert forall|k: int| 0 <= k < m3.len() implies m3[k] != 'm' by {}
        lemma_directive_zero(m3);
        let m4 = seq!['[', '3', '8', ';', '5', ';', '2', '5', '5'];
        assert forall|k: int| 0 <= k < m4.len() implies m4[k] != 'm' by {}
        lemma_directive_zero(m4);
        assert forall|k: int| 0 <= k < " _`/\"\""@.len() implies " _`/\"\""@[k] != '\u{1b}'
            && !is_wide_char(" _`/\"\""@[k]) by {}
        assert(plain_text(" _`/\"\""@));
        lemma_plain_text_width(" _`/\"\""@);
        assert forall|k: int| 0 <= k < ".-.    "@.len() implies ".-.    "@[k] != '\u{1b}'
            && !is_wide_char(".-.    "@[k]) by {}
        assert(plain_text(".-.    "@));
        lemma_plain_text_width(".-.    "@);
        assert forall|k: int| 0 <= k < "  ,\\_"@.len() implies "  ,\\_"@[k] != '\u{1b}'
            && !is_wide_char("  ,\\_"@[k]) by {}
        assert(plain_text("  ,\\_"@));
        lemma_plain_text_width("  ,\\_"@);
        assert forall|k: int| 0 <= k < "(   ).  "@.len() implies "(   ).  "@[k] != '\u{1b}'
            && !is_wide_char("(   ).  "@[k]) by {}
        assert(plain_text("(   ).  "@));
        lemma_plain_text_width("(   ).  "@);
        assert forall|k: int| 0 <= k < "   /"@.len() implies "   /"@[k] != '\u{1b}'
            && !is_wide_char("   /"@[k]) by {}
        assert(plain_text("   /"@));
        lemma_plain_text_width("   /"@);
        assert forall|k: int| 0 <= k < "(___(__) "@.len() implies "(___(__) "@[k] != '\u{1b}'
            && !is_wide_char("(___(__) "@[k]) by {}
        assert(plain_text("(___(__) "@));
        lemma_plain_text_width("(___(__) "@);
        assert forall|k: int| 0 <= k < "     \u{2018} "@.len() implies "     \u{2018} "@[k] != '\u{1b}'
            && !is_wide_char("     \u{2018} "@[k]) by {}
        assert(plain_text("     \u{2018} "@));
        lemma_plain_text_width("     \u{2018} "@);
        assert forall|k: int| 0 <= k < "*"@.len() implies "*"@[k] != '\u{1b}'
            && !is_wide_char("*"@[k]) by {}
        assert(plain_text("*"@));
        lemma_plain_text_width("*"@);
        assert forall|k: int| 0 <= k < " \u{2018} "@.len() implies " \u{2018} "@[k] != '\u{1b}'
            && !is_wide_char(" \u{2018} "@[k]) by {}
        assert(plain_text(" \u{2018} "@));
        lemma_plain_text_width(" \u{2018} "@);
        assert forall|k: int| 0 <= k < "* "@.len() implies "* "@[k] != '\u{1b}'
            && !is_wide_char("* "@[k]) by {}
        assert(plain_text("* "@));
        lemma_plain_text_width("* "@);
        assert forall|k: int| 0 <= k < "    *"@.len() implies "    *"@[k] != '\u{1b}'
            && !is_wide_char("    *"@[k]) by {}
        assert(plain_text("    *"@));
        lemma_plain_text_width("    *"@);
        assert forall|k: int| 0 <= k < " \u{2018}  "@.len() implies " \u{2018}  "@[k] != '\u{1b}'
            && !is_wide_char(" \u{2018}  "@[k]) by {}
        assert(plain_text(" \u{2018}  "@));
        lemma_plain_text_width(" \u{2018}  "@);
        assert("\u{1b}[38;5;226m _`/\"\"\u{1b}[38;5;250m.-.    \u{1b}[0m"@ =~= directive(m0) + " _`/\"\""@ + directive(m1) + ".-.    "@ + directive(m2));
        lemma_well_styled_concat(directive(m0), " _`/\"\""@);
        lemma_well_styled_concat((directive(m0) + " _`/\"\""@), directive(m1));
        lemma_well_styled_concat(((directive(m0) + " _`/\"\""@) + directive(m1)), ".-.    "@);
        lemma_well_styled_concat((((directive(m0) + " _`/\"\""@) + directive(m1)) + ".-.    "@), directive(m2));
        assert(well_styled("\u{1b}[38;5;226m _`/\"\"\u{1b}[38;5;250m.-.    \u{1b}[0m"@) && visible_width("\u{1b}[38;5;226m _`/\"\"\u{1b}[38;5;250m.-.    \u{1b}[0m"@) == 13);
        assert("\u{1b}[38;5;226m  ,\\_\u{1b}[38;5;250m(   ).  \u{1b}[0m"@ =~= directive(m0) + "  ,\\_"@ + directive(m1) + "(   ).  "@ + directive(m2));
        lemma_well_styled_concat(directive(m0), "  ,\\_"@);
        lemma_well_styled_concat((directive(m0) + "  ,\\_"@), directive(m1));
        lemma_well_styled_concat(((directive(m0) + "  ,\\_"@) + directive(m1)), "(   ).  "@);
        lemma_well_styled_concat((((directive(m0) + "  ,\\_"@) + directive(m1)) + "(   ).  "@), directive(m2));
        assert(well_styled("\u{1b}[38;5;226m  ,\\_\u{1b}[38;5;250m(   ).  \u{1b}[0m"@) && visible_width("\u{1b}[38;5;226m  ,\\_\u{1b}[38;5;250m(   ).  \u{1b}[0m"@) == 13);
        assert("\u{1b}[38;5;226m   /\u{1b}[38;5;250m(___(__) \u{1b}[0m"@ =~= directive(m0) + "   /"@ + directive(m1) + "(___(__) "@ + directive(m2));
        lemma_well_styled_concat(directive(m0), "   /"@);
        lemma_well_styled_concat((directive(m0) + "   /"@), directive(m1));
        lemma_well_styled_concat(((directive(m0) + "   /"@) + directive(m1)), "(___(__) "@);
        lemma_well_styled_concat((((directive(m0) + "   /"@) + directive(m1)) + "(___(__) "@), directive(m2));
        assert(well_styled("\u{1b}[38;5;226m   /\u{1b}[38;5;250m(___(__) \u{1b}[0m"@) && visible_width("\u{1b}[38;5;226m   /\u{1b}[38;5;250m(___(__) \u{1b}[0m"@) == 13);
        assert("\u{1b}[38;5;111m     \u{2018} \u{1b}[38;5;255m*\u{1b}[38;5;111m \u{2018} \u{1b}[38;5;255m* \u{1b}[0m"@ =~= directive(m3) + "     \u{2018} "@ + directive(m4) + "*"@ + directive(m3) + " \u{2018} "@ + directive(m4) + "* "@ + directive(m2));
        lemma_well_styled_concat(directive(m3), "     \u{2018} "@);
        lemma_well_styled_concat((directive(m3) + "     \u{2018} "@), directive(m4));
        lemma_well_styled_concat(((directive(m3) + "     \u{2018} "@) + directive(m4)), "*"@);
        lemma_well_styled_concat((((directive(m3) + "     \u{2018} "@) + directive(m4)) + "*"@), directive(m3));
        lemma_well_styled_concat(((((directive(m3) + "     \u{2018} "@) + directive(m4)) + "*"@) + directive(m3)), " \u{2018} "@);
        lemma_well_styled_concat((((((directive(m3) + "     \u{2018} "@) + directive(m4)) + "*"@) + directive(m3)) + " \u{2018} "@), directive(m4));
        lemma_well_styled_concat(((((((directive(m3) + "     \u{2018} "@) + directive(m4)) + "*"@) + directive(m3)) + " \u{2018} "@) + directive(m4)), "* "@);
        lemma_well_styled_concat((((((((directive(m3) + "     \u{2018} "@) + directive(m4)) + "*"@) + directive(m3)) + " \u{2018} "@) + directive(m4)) + "* "@), directive(m2));
        assert(well_styled("\u{1b}[38;5;111m     \u{2018} \u{1b}[38;5;255m*\u{1b}[38;5;111m \u{2018} \u{1b}[38;5;255m* \u{1b}[0m"@) && visible_width("\u{1b}[38;5;111m     \u{2018} \u{1b}[38;5;255m*\u{1b}[38;5;111m \u{2018} \u{1b}[38;5;255m* \u{1b}[0m"@) == 13);
        assert("\u{1b}[38;5;255m    *\u{1b}[38;5;111m \u{2018} \u{1b}[38;5;255m*\u{1b}[38;5;111m \u{2018}  \u{1b}[0m"@ =~= directive(m4) + "    *"@ + directive(m3) + " \u{2018} "@ + directive(m4) + "*"@ + directive(m3) + " \u{2018}  "@ + directive(m2));
        lemma_well_styled_concat(directive(m4), "    *"@);
        lemma_well_styled_concat((directive(m4) + "    *"@), directive(m3));
        lemma_well_styled_concat(((directive(m4) + "    *"@) + directive(m3)), " \u{2018} "@);
        lemma_well_styled_concat((((directive(m4) + "    *"@) + directive(m3)) + " \u{2018} "@), directive(m4));
        lemma_well_styled_concat(((((directive(m4) + "    *"@) + directive(m3)) + " \u{2018} "@) + directive(m4)), "*"@);
        lemma_well_styled_concat((((((directive(m4) + "    *"@) + directive(m3)) + " \u{2018} "@) + directive(m4)) + "*"@), directive(m3));
        lemma_well_styled_concat(((((((directive(m4) + "    *"@) + directive(m3)) + " \u{2018} "@) + directive(m4)) + "*"@) + directive(m3)), " \u{2018}  "@);
        lemma_well_styled_concat((((((((directive(m4) + "    *"@) + directive(m3)) + " \u{2018} "@) + directive(m4)) + "*"@) + directive(m3)) + " \u{2018}  "@), directive(m2));
        assert(well_styled("\u{1b}[38;5;255m    *\u{1b}[38;5;111m \u{2018} \u{1b}[38;5;255m*\u{1b}[38;5;111m \u{2018}  \u{1b}[0m"@) && visible_width("\u{1b}[38;5;255m    *\u{1b}[38;5;111m \u{2018} \u{1b}[38;5;255m*\u{1b}[38;5;111m \u{2018}  \u{1b}[0m"@) == 13);
        assert forall|i: int|
            0 <= i < 5 implies #[trigger] well_styled(r@[i]@) && visible_width(r@[i]@)
            == 13 by {
            assert(r@[0] == "\u{1b}[38;5;226m _`/\"\"\u{1b}[38;5;250m.-.    \u{1b}[0m");
            assert(r@[1] == "\u{1b}[38;5;226m  ,\\_\u{1b}[38;5;250m(   ).  \u{1b}[0m");
            assert(r@[2] == "\u{1b}[38;5;226m   /\u{1b}[38;5;250m(___(__) \u{1b}[0m");
            assert(r@[3] == "\u{1b}[38;5;111m     \u{2018} \u{1b}[38;5;255m*\u{1b}[38;5;111m \u{2018} \u{1b}[38;5;255m* \u{1b}[0m");
            assert(r@[4] == "\u{1b}[38;5;255m    *\u{1b}[38;5;111m \u{2018} \u{1b}[38;5;255m*\u{1b}[38;5;111m \u{2018}  \u{1b}[0m");
        }
        assert forall|i: int| 0 <= i < 5 implies (#[trigger] r@[i]@) == icon_light_sleet_showers_spec()[i] by {
            assert(r@[0] == "\u{1b}[38;5;226m _`/\"\"\u{1b}[38;5;250m.-.    \u{1b}[0m");
            assert(icon_light_sleet_showers_spec()[0] == "\u{1b}[38;5;226m _`/\"\"\u{1b}[38;5;250m.-.    \u{1b}[0m"@);
            assert(r@[1] == "\u{1b}[38;5;226m  ,\\_\u{1b}[38;5;250m(   ).  \u{1b}[0m");
            assert(icon_light_sleet_showers_spec()[1] == "\u{1b}[38;5;226m  ,\\_\u{1b}[38;5;250m(   ).  \u{1b}[0m"@);
            assert(r@[2] == "\u{1b}[38;5;226m   /\u{1b}[38;5;250m(___(__) \u{1b}[0m");
            assert(icon_light_sleet_showers_spec()[2] == "\u{1b}[38;5;226m   /\u{1b}[38;5;250m(___(__) \u{1b}[0m"@);
            assert(r@[3] == "\u{1b}[38;5;111m     \u{2018} \u{1b}[38;5;255m*\u{1b}[38;5;111m \u{2018} \u{1b}[38;5;255m* \u{1b}[0m");
            assert(icon_light_sleet_showers_spec()[3] == "\u{1b}[38;5;111m     \u{2018} \u{1b}[38;5;255m*\u{1b}[38;5;111m \u{2018} \u{1b}[38;5;255m* \u{1b}[0m"@);
            assert(r@[4] == "\u{1b}[38;5;255m    *\u{1b}[38;5;111m \u{2018} \u{1b}[38;5;255m*\u{1b}[38;5;111m \u{2018}  \u{1b}[0m");
            assert(icon_light_sleet_showers_spec()[4] == "\u{1b}[38;5;255m    *\u{1b}[38;5;111m \u{2018} \u{1b}[38;5;255m*\u{1b}[38;5;111m \u{2018}  \u{1b}[0m"@);
        }
    }
    r
}

/// The art lines of this icon.
pub open spec fn icon_thundery_showers_spec() -> Seq<Seq<char>> {
    seq![
        "\u{1b}[38;5;226m _`/\"\"\u{1b}[38;5;250m.-.    \u{1b}[0m"@,
        "\u{1b}[38;5;226m  ,\\_\u{1b}[38;5;250m(   ).  \u{1b}[0m"@,
        "\u{1b}[38;5;226m   /\u{1b}[38;5;250m(___(__) \u{1b}[0m"@,
        "\u{1b}[38;5;228;5m    \u{26a1}\u{1b}[38;5;111;25m\u{2018} \u{2018}\u{1b}[38;5;228;5m\u{26a1}\u{1b}[38;5;111;25m\u{2018} \u{2018} \u{1b}[0m"@,
        "\u{1b}[38;5;111m    \u{2018} \u{2018} \u{2018} \u{2018}  \u{1b}[0m"@,
    ]
}

fn icon_thundery_showers() -> (r: [&'static str; 5])
    ensures
        icon_lines_ok(r),
        forall|i: int| 0 <= i < 5 ==> (#[trigger] r@[i]@) == icon_thundery_showers_spec()[i],
{
    let r = [
        "\u{1b}[38;5;226m _`/\"\"\u{1b}[38;5;250m.-.    \u{1b}[0m",
        "\u{1b}[38;5;226m  ,\\_\u{1b}[38;5;250m(   ).  \u{1b}[0m",
        "\u{1b}[38;5;226m   /\u{1b}[38;5;250m(___(__) \u{1b}[0m",
        "\u{1b}[38;5;228;5m    \u{26a1}\u{1b}[38;5;111;25m\u{2018} \u{2018}\u{1b}[38;5;228;5m\u{26a1}\u{1b}[38;5;111;25m\u{2018} \u{2018} \u{1b}[0m",
        "\u{1b}[38;5;111m    \u{2018} \u{2018} \u{2018} \u{2018}  \u{1b}[0m",
    ];
    proof {
        reveal_strlit("\u{1b}[38;5;226m _`/\"\"\u{1b}[38;5;250m.-.    \u{1b}[0m");
        reveal_strlit(" _`/\"\"");
        reveal_strlit(".-.    ");
        reveal_strlit("\u{1b}[38;5;226m  ,\\_\u{1b}[38;5;250m(   ).  \u{1b}[0m");
        reveal_strlit("  ,\\_");
        reveal_strlit("(   ).  ");
        reveal_strlit("\u{1b}[38;5;226m   /\u{1b}[38;5;250m(___(__) \u{1b}[0m");
        reveal_strlit("   /");
        reveal_strlit("(___(__) ");
        reveal_strlit("\u{1b}[38;5;228;5m    \u{26a1}\u{1b}[38;5;111;25m\u{2018} \u{2018}\u{1b}[38;5;228;5m\u{26a1}\u{1b}[38;5;111;25m\u{2018} \u{2018} \u{1b}[0m");
        reveal_strlit("    \u{26a1}");
        reveal_strlit("\u{2018} \u{2018}");
        reveal_strlit("\u{26a1}");
        reveal_strlit("\u{2018} \u{2018} ");
        reveal_strlit("\u{1b}[38;5;111m    \u{2018} \u{2018} \u{2018} \u{2018}  \u{1b}[0m");
        reveal_strlit("    \u{2018} \u{2018} \u{2018} \u{2018}  ");
        let m0 = seq!['[', '3', '8', ';', '5', ';', '2', '2', '6'];
        assert forall|k: int| 0 <= k < m0.len() implies m0[k] != 'm' by {}
        lemma_directive_zero(m0);
        let m1 = seq!['[', '3', '8', ';', '5', ';', '2', '5', '0'];
        assert forall|k: int| 0 <= k < m1.len() implies m1[k] != 'm' by {}
        lemma_directive_zero(m1);
        let m2 = seq!['[', '0'];
        assert forall|k: int| 0 <= k < m2.len() implies m2[k] != 'm' by {}
        lemma_directive_zero(m2);
        let m3 = seq!['[', '3', '8', ';', '5', ';', '2', '2', '8', ';', '5'];
        assert forall|k: int| 0 <= k < m3.len() implies m3[k] != 'm' by {}
        lemma_directive_zero(m3);
        let m4 = seq!['[', '3', '8', ';', '5', ';', '1', '1', '1', ';', '2', '5'];
        assert forall|k: int| 0 <= k < m4.len() implies m4[k] != 'm' by {}
        lemma_directive_zero(m4);
        let m5 = seq!['[', '3', '8', ';', '5', ';', '1', '1', '1'];
        assert forall|k: int| 0 <= k < m5.len() implies m5[k] != 'm' by {}
        lemma_directive_zero(m5);
        assert forall|k: int| 0 <= k < " _`/\"\""@.len() implies " _`/\"\""@[k] != '\u{1b}'
            && !is_wide_char(" _`/\"\""@[k]) by {}
        assert(plain_text(" _`/\"\""@));
        lemma_plain_text_width(" _`/\"\""@);
        assert forall|k: int| 0 <= k < ".-.    "@.len() implies ".-.    "@[k] != '\u{1b}'
            && !is_wide_char(".-.    "@[k]) by {}
        assert(plain_text(".-.    "@));
        lemma_plain_text_width(".-.    "@);
        assert forall|k: int| 0 <= k < "  ,\\_"@.len() implies "  ,\\_"@[k] != '\u{1b}'
            && !is_wide_char("  ,\\_"@[k]) by {}
        assert(plain_text("  ,\\_"@));
        lemma_plain_text_width("  ,\\_"@);
        assert forall|k: int| 0 <= k < "(   ).  "@.len() implies "(   ).  "@[k] != '\u{1b}'
            && !is_wide_char("(   ).  "@[k]) by {}
        assert(plain_text("(   ).  "@));
        lemma_plain_text_width("(   ).  "@);
        assert forall|k: int| 0 <= k < "   /"@.len() implies "   /"@[k] != '\u{1b}'
            && !is_wide_char("   /"@[k]) by {}
        assert(plain_text("   /"@));
        lemma_plain_text_width("   /"@);
        assert forall|k: int| 0 <= k < "(___(__) "@.len() implies "(___(__) "@[k] != '\u{1b}'
            && !is_wide_char("(___(__) "@[k]) by {}
        assert(plain_text("(___(__) "@));
        lemma_plain_text_width("(___(__) "@);
        assert forall|k: int| 0 <= k < "    \u{26a1}"@.len() implies "    \u{26a1}"@[k] != '\u{1b}'
            && !is_wide_char("    \u{26a1}"@[k]) by {}
        assert(plain_text("    \u{26a1}"@));
        lemma_plain_text_width("    \u{26a1}"@);
        assert forall|k: int| 0 <= k < "\u{2018} \u{2018}"@.len() implies "\u{2018} \u{2018}"@[k] != '\u{1b}'
            && !is_wide_char("\u{2018} \u{2018}"@[k]) by {}
        assert(plain_text("\u{2018} \u{2018}"@));
        lemma_plain_text_width("\u{2018} \u{2018}"@);
        assert forall|k: int| 0 <= k < "\u{26a1}"@.len() implies "\u{26a1}"@[k] != '\u{1b}'
            && !is_wide_char("\u{26a1}"@[k]) by {}
        assert(plain_text("\u{26a1}"@));
        lemma_plain_text_width("\u{26a1}"@);
        assert forall|k: int| 0 <= k < "\u{2018} \u{2018} "@.len() implies "\u{2018} \u{2018} "@[k] != '\u{1b}'
            && !is_wide_char("\u{2018} \u{2018} "@[k]) by {}
        assert(plain_text("\u{2018} \u{2018} "@));
        lemma_plain_text_width("\u{2018} \u{2018} "@);
        assert forall|k: int| 0 <= k < "    \u{2018} \u{2018} \u{2018} \u{2018}  "@.len() implies "    \u{2018} \u{2018} \u{2018} \u{2018}  "@[k] != '\u{1b}'
            && !is_wide_char("    \u{2018} \u{2018} \u{2018} \u{2018}  "@[k]) by {}
        assert(plain_text("    \u{2018} \u{2018} \u{2018} \u{2018}  "@));
        lemma_plain_text_width("    \u{2018} \u{2018} \u{2018} \u{2018}  "@);
        assert("\u{1b}[38;5;226m _`/\"\"\u{1b}[38;5;250m.-.    \u{1b}[0m"@ =~= directive(m0) + " _`/\"\""@ + directive(m1) + ".-.    "@ + directive(m2));
        lemma_well_styled_concat(directive(m0), " _`/\"\""@);
        lemma_well_styled_concat((directive(m0) + " _`/\"\""@), directive(m1));
        lemma_well_styled_concat(((directive(m0) + " _`/\"\""@) + directive(m1)), ".-.    "@);
        lemma_well_styled_concat((((directive(m0) + " _`/\"\""@) + directive(m1)) + ".-.    "@), directive(m2));
        assert(well_styled("\u{1b}[38;5;226m _`/\"\"\u{1b}[38;5;250m.-.    \u{1b}[0m"@) && visible_width("\u{1b}[38;5;226m _`/\"\"\u{1b}[38;5;250m.-.    \u{1b}[0m"@) == 13);
        assert("\u{1b}[38;5;226m  ,\\_\u{1b}[38;5;250m(   ).  \u{1b}[0m"@ =~= directive(m0) + "  ,\\_"@ + directive(m1) + "(   ).  "@ + directive(m2));
        lemma_well_styled_concat(directive(m0), "  ,\\_"@);
        lemma_well_styled_concat((directive(m0) + "  ,\\_"@), directive(m1));
        lemma_well_styled_concat(((directive(m0) + "  ,\\_"@) + directive(m1)), "(   ).  "@);
        lemma_well_styled_concat((((directive(m0) + "  ,\\_"@) + directive(m1)) + "(   ).  "@), directive(m2));
        assert(well_styled("\u{1b}[38;5;226m  ,\\_\u{1b}[38;5;250m(   ).  \u{1b}[0m"@) && visible_width("\u{1b}[38;5;226m  ,\\_\u{1b}[38;5;250m(   ).  \u{1b}[0m"@) == 13);
        assert("\u{1b}[38;5;226m   /\u{1b}[38;5;250m(___(__) \u{1b}[0m"@ =~= directive(m0) + "   /"@ + directive(m1) + "(___(__) "@ + directive(m2));
        lemma_well_styled_concat(directive(m0), "   /"@);
        lemma_well_styled_concat((directive(m0) + "   /"@), directive(m1));
        lemma_well_styled_concat(((directive(m0) + "   /"@) + directive(m1)), "(___(__) "@);
        lemma_well_styled_concat((((directive(m0) + "   /"@) + directive(m1)) + "(___(__) "@), directive(m2));
        assert(well_styled("\u{1b}[38;5;226m   /\u{1b}[38;5;250m(___(__) \u{1b}[0m"@) && visible_width("\u{1b}[38;5;226m   /\u{1b}[38;5;250m(___(__) \u{1b}[0m"@) == 13);
        assert("\u{1b}[38;5;228;5m    \u{26a1}\u{1b}[38;5;111;25m\u{2018} \u{2018}\u{1b}[38;5;228;5m\u{26a1}\u{1b}[38;5;111;25m\u{2018} \u{2018} \u{1b}[0m"@ =~= directive(m3) + "    \u{26a1}"@ + directive(m4) + "\u{2018} \u{2018}"@ + directive(m3) + "\u{26a1}"@ + directive(m4) + "\u{2018} \u{2018} "@ + directive(m2));
        lemma_well_styled_concat(directive(m3), "    \u{26a1}"@);
        lemma_well_styled_concat((directive(m3) + "    \u{26a1}"@), directive(m4));
        lemma_well_styled_concat(((directive(m3) + "    \u{26a1}"@) + directive(m4)), "\u{2018} \u{2018}"@);
        lemma_well_styled_concat((((directive(m3) + "    \u{26a1}"@) + directive(m4)) + "\u{2018} \u{2018}"@), directive(m3));
        lemma_well_styled_concat(((((directive(m3) + "    \u{26a1}"@) + directive(m4)) + "\u{2018} \u{2018}"@) + directive(m3)), "\u{26a1}"@);
        lemma_well_styled_concat((((((directive(m3) + "    \u{26a1}"@) + directive(m4)) + "\u{2018} \u{2018}"@) + directive(m3)) + "\u{26a1}"@), directive(m4));
        lemma_well_styled_concat(((((((directive(m3) + "    \u{26a1}"@) + directive(m4)) + "\u{2018} \u{2018}"@) + directive(m3)) + "\u{26a1}"@) + directive(m4)), "\u{2018} \u{2018} "@);
        lemma_well_styled_concat((((((((directive(m3) + "    \u{26a1}"@) + directive(m4)) + "\u{2018} \u{2018}"@) + directive(m3)) + "\u{26a1}"@) + directive(m4)) + "\u{2018} \u{2018} "@), directive(m2));
        assert(well_styled("\u{1b}[38;5;228;5m    \u{26a1}\u{1b}[38;5;111;25m\u{2018} \u{2018}\u{1b}[38;5;228;5m\u{26a1}\u{1b}[38;5;111;25m\u{2018} \u{2018} \u{1b}[0m"@) && visible_width("\u{1b}[38;5;228;5m    \u{26a1}\u{1b}[38;5;111;25m\u{2018} \u{2018}\u{1b}[38;5;228;5m\u{26a1}\u{1b}[38;5;111;25m\u{2018} \u{2018} \u{1b}[0m"@) == 13);
        assert("\u{1b}[38;5;111m    \u{2018} \u{2018} \u{2018} \u{2018}  \u{1b}[0m"@ =~= directive(m5) + "    \u{2018} \u{2018} \u{2018} \u{2018}  "@ + directive(m2));
        lemma_well_styled_concat(directive(m5), "    \u{2018} \u{2018} \u{2018} \u{2018}  "@);
        lemma_well_styled_concat((directive(m5) + "    \u{2018} \u{2018} \u{2018} \u{2018}  "@), directive(m2));
        assert(well_styled("\u{1b}[38;5;111m    \u{2018} \u{2018} \u{2018} \u{2018}  \u{1b}[0m"@) && visible_width("\u{1b}[38;5;111m    \u{2018} \u{2018} \u{2018} \u{2018}  \u{1b}[0m"@) == 13);
        assert forall|i: int|
            0 <= i < 5 implies #[trigger] well_styled(r@[i]@) && visible_width(r@[i]@)
            == 13 by {
            assert(r@[0] == "\u{1b}[38;5;226m _`/\"\"\u{1b}[38;5;250m.-.    \u{1b}[0m");
            assert(r@[1] == "\u{1b}[38;5;226m  ,\\_\u{1b}[38;5;250m(   ).  \u{1b}[0m");
            assert(r@[2] == "\u{1b}[38;5;226m   /\u{1b}[38;5;250m(___(__) \u{1b}[0m");
            assert(r@[3] == "\u{1b}[38;5;228;5m    \u{26a1}\u{1b}[38;5;111;25m\u{2018} \u{2018}\u{1b}[38;5;228;5m\u{26a1}\u{1b}[38;5;111;25m\u{2018} \u{2018} \u{1b}[0m");
            assert(r@[4] == "\u{1b}[38;5;111m    \u{2018} \u{2018} \u{2018} \u{2018}  \u{1b}[0m");
        }
        assert forall|i: int| 0 <= i < 5 implies (#[trigger] r@[i]@) == icon_thundery_showers_spec()[i] by {
            assert(r@[0] == "\u{1b}[38;5;226m _`/\"\"\u{1b}[38;5;250m.-.    \u{1b}[0m");
            assert(icon_thundery_showers_spec()[0] == "\u{1b}[38;5;226m _`/\"\"\u{1b}[38;5;250m.-.    \u{1b}[0m"@);
            assert(r@[1] == "\u{1b}[38;5;226m  ,\\_\u{1b}[38;5;250m(   ).  \u{1b}[0m");
            assert(icon_thundery_showers_spec()[1] == "\u{1b}[38;5;226m  ,\\_\u{1b}[38;5;250m(   ).  \u{1b}[0m"@);
            assert(r@[2] == "\u{1b}[38;5;226m   /\u{1b}[38;5;250m(___(__) \u{1b}[0m");
            assert(icon_thundery_showers_spec()[2] == "\u{1b}[38;5;226m   /\u{1b}[38;5;250m(___(__) \u{1b}[0m"@);
            assert(r@[3] == "\u{1b}[38;5;228;5m    \u{26a1}\u{1b}[38;5;111;25m\u{2018} \u{2018}\u{1b}[38;5;228;5m\u{26a1}\u{1b}[38;5;111;25m\u{2018} \u{2018} \u{1b}[0m");
            assert(icon_thundery_showers_spec()[3] == "\u{1b}[38;5;228;5m    \u{26a1}\u{1b}[38;5;111;25m\u{2018} \u{2018}\u{1b}[38;5;228;5m\u{26a1}\u{1b}[38;5;111;25m\u{2018} \u{2018} \u{1b}[0m"@);
            assert(r@[4] == "\u{1b}[38;5;111m    \u{2018} \u{2018} \u{2018} \u{2018}  \u{1b}[0m");
            assert(icon_thundery_showers_spec()[4] == "\u{1b}[38;5;111m    \u{2018} \u{2018} \u{2018} \u{2018}  \u{1b}[0m"@);
        }
    }
    r
}

/// The art lines of this icon.
pub open spec fn icon_thundery_heavy_rain_spec() -> Seq<Seq<char>> {
    seq![
        "\u{1b}[38;5;240;1m     .-.     \u{1b}[0m"@,
        "\u{1b}[38;5;240;1m    (   ).   \u{1b}[0m"@,
        "\u{1b}[38;5;240;1m   (___(__)  \u{1b}[0m"@,
        "\u{1b}[38;5;21;1m  \u{201a}\u{2018}\u{1b}[38;5;228;5m\u{26a1}\u{1b}[38;5;21;25m\u{2018}\u{201a}\u{1b}[38;5;228;5m\u{26a1}\u{1b}[38;5;21;25m\u{201a}\u{2018}   \u{1b}[0m"@,
        "\u{1b}[38;5;21;1m  \u{201a}\u{2019}\u{201a}\u{2019}\u{1b}[38;5;228;5m\u{26a1}\u{1b}[38;5;21;25m\u{2019}\u{201a}\u{2019}   \u{1b}[0m"@,
    ]
}

fn icon_thundery_heavy_rain() -> (r: [&'static str; 5])
    ensures
        icon_lines_ok(r),
        forall|i: int| 0 <= i < 5 ==> (#[trigger] r@[i]@) == icon_thundery_heavy_rain_spec()[i],
{
    let r = [
        "\u{1b}[38;5;240;1m     .-.     \u{1b}[0m",
        "\u{1b}[38;5;240;1m    (   ).   \u{1b}[0m",
        "\u{1b}[38;5;240;1m   (___(__)  \u{1b}[0m",
        "\u{1b}[38;5;21;1m  \u{201a}\u{2018}\u{1b}[38;5;228;5m\u{26a1}\u{1b}[38;5;21;25m\u{2018}\u{201a}\u{1b}[38;5;228;5m\u{26a1}\u{1b}[38;5;21;25m\u{201a}\u{2018}   \u{1b}[0m",
        "\u{1b}[38;5;21;1m  \u{201a}\u{2019}\u{201a}\u{2019}\u{1b}[38;5;228;5m\u{26a1}\u{1b}[38;5;21;25m\u{2019}\u{201a}\u{2019}   \u{1b}[0m",
    ];
    proof {
        reveal_strlit("\u{1b}[38;5;240;1m     .-.     \u{1b}[0m");
        reveal_strlit("     .-.     ");
        reveal_strlit("\u{1b}[38;5;240;1m    (   ).   \u{1b}[0m");
        reveal_strlit("    (   ).   ");
        reveal_strlit("\u{1b}[38;5;240;1m   (___(__)  \u{1b}[0m");
        reveal_strlit("   (___(__)  ");
        reveal_strlit("\u{1b}[38;5;21;1m  \u{201a}\u{2018}\u{1b}[38;5;228;5m\u{26a1}\u{1b}[38;5;21;25m\u{2018}\u{201a}\u{1b}[38;5;228;5m\u{26a1}\u{1b}[38;5;21;25m\u{201a}\u{2018}   \u{1b}[0m");
        reveal_strlit("  \u{201a}\u{2018}");
        reveal_strlit("\u{26a1}");
        reveal_strlit("\u{2018}\u{201a}");
        reveal_strlit("\u{201a}\u{2018}   ");
        reveal_strlit("\u{1b}[38;5;21;1m  \u{201a}\u{2019}\u{201a}\u{2019}\u{1b}[38;5;228;5m\u{26a1}\u{1b}[38;5;21;25m\u{2019}\u{201a}\u{2019}   \u{1b}[0m");
        reveal_strlit("  \u{201a}\u{2019}\u{201a}\u{2019}");
        reveal_strlit("\u{2019}\u{201a}\u{2019}   ");
        let m0 = seq!['[', '3', '8', ';', '5', ';', '2', '4', '0', ';', '1'];
        assert forall|k: int| 0 <= k < m0.len() implies m0[k] != 'm' by {}
        lemma_directive_zero(m0);
        let m1 = seq!['[', '0'];
        assert forall|k: int| 0 <= k < m1.len() implies m1[k] != 'm' by {}
        lemma_directive_zero(m1);
        let m2 = seq!['[', '3', '8', ';', '5', ';', '2', '1', ';', '1'];
        assert forall|k: int| 0 <= k < m2.len() implies m2[k] != 'm' by {}
        lemma_directive_zero(m2);
        let m3 = seq!['[', '3', '8', ';', '5', ';', '2', '2', '8', ';', '5'];
        assert forall|k: int| 0 <= k < m3.len() implies m3[k] != 'm' by {}
        lemma_directive_zero(m3);
        let m4 = seq!['[', '3', '8', ';', '5', ';', '2', '1', ';', '2', '5'];
        assert forall|k: int| 0 <= k < m4.len() implies m4[k] != 'm' by {}
        lemma_directive_zero(m4);
        assert forall|k: int| 0 <= k < "     .-.     "@.len() implies "     .-.     "@[k] != '\u{1b}'
            && !is_wide_char("     .-.     "@[k]) by {}
        assert(plain_text("     .-.     "@));
        lemma_plain_text_width("     .-.     "@);
        assert forall|k: int| 0 <= k < "    (   ).   "@.len() implies "    (   ).   "@[k] != '\u{1b}'
            && !is_wide_char("    (   ).   "@[k]) by {}
        assert(plain_text("    (   ).   "@));
        lemma_plain_text_width("    (   ).   "@);
        assert forall|k: int| 0 <= k < "   (___(__)  "@.len() implies "   (___(__)  "@[k] != '\u{1b}'
            && !is_wide_char("   (___(__)  "@[k]) by {}
        assert(plain_text("   (___(__)  "@));
        lemma_plain_text_width("   (___(__)  "@);
        assert forall|k: int| 0 <= k < "  \u{201a}\u{2018}"@.len() implies "  \u{201a}\u{2018}"@[k] != '\u{1b}'
            && !is_wide_char("  \u{201a}\u{2018}"@[k]) by {}
        assert(plain_text("  \u{201a}\u{2018}"@));
        lemma_plain_text_width("  \u{201a}\u{2018}"@);
        assert forall|k: int| 0 <= k < "\u{26a1}"@.len() implies "\u{26a1}"@[k] != '\u{1b}'
            && !is_wide_char("\u{26a1}"@[k]) by {}
        assert(plain_text("\u{26a1}"@));
        lemma_plain_text_width("\u{26a1}"@);
        assert forall|k: int| 0 <= k < "\u{2018}\u{201a}"@.len() implies "\u{2018}\u{201a}"@[k] != '\u{1b}'
            && !is_wide_char("\u{2018}\u{201a}"@[k]) by {}
        assert(plain_text("\u{2018}\u{201a}"@));
        lemma_plain_text_width("\u{2018}\u{201a}"@);
        assert forall|k: int| 0 <= k < "\u{201a}\u{2018}   "@.len() implies "\u{201a}\u{2018}   "@[k] != '\u{1b}'
            && !is_wide_char("\u{201a}\u{2018}   "@[k]) by {}
        assert(plain_text("\u{201a}\u{2018}   "@));
        lemma_plain_text_width("\u{201a}\u{2018}   "@);
        assert forall|k: int| 0 <= k < "  \u{201a}\u{2019}\u{201a}\u{2019}"@.len() implies "  \u{201a}\u{2019}\u{201a}\u{2019}"@[k] != '\u{1b}'
            && !is_wide_char("  \u{201a}\u{2019}\u{201a}\u{2019}"@[k]) by {}
        assert(plain_text("  \u{201a}\u{2019}\u{201a}\u{2019}"@));
        lemma_plain_text_width("  \u{201a}\u{2019}\u{201a}\u{2019}"@);
        assert forall|k: int| 0 <= k < "\u{2019}\u{201a}\u{2019}   "@.len() implies "\u{2019}\u{201a}\u{2019}   "@[k] != '\u{1b}'
            && !is_wide_char("\u{2019}\u{201a}\u{2019}   "@[k]) by {}
        assert(plain_text("\u{2019}\u{201a}\u{2019}   "@));
        lemma_plain_text_width("\u{2019}\u{201a}\u{2019}   "@);
        assert("\u{1b}[38;5;240;1m     .-.     \u{1b}[0m"@ =~= directive(m0) + "     .-.     "@ + directive(m1));
        lemma_well_styled_concat(directive(m0), "     .-.     "@);
        lemma_well_styled_concat((directive(m0) + "     .-.     "@), directive(m1));
        assert(well_styled("\u{1b}[38;5;240;1m     .-.     \u{1b}[0m"@) && visible_width("\u{1b}[38;5;240;1m     .-.     \u{1b}[0m"@) == 13);
        assert("\u{1b}[38;5;240;1m    (   ).   \u{1b}[0m"@ =~= directive(m0) + "    (   ).   "@ + directive(m1));
        lemma_well_styled_concat(directive(m0), "    (   ).   "@);
        lemma_well_styled_concat((directive(m0) + "    (   ).   "@), directive(m1));
        assert(well_styled("\u{1b}[38;5;240;1m    (   ).   \u{1b}[0m"@) && visible_width("\u{1b}[38;5;240;1m    (   ).   \u{1b}[0m"@) == 13);
        assert("\u{1b}[38;5;240;1m   (___(__)  \u{1b}[0m"@ =~= directive(m0) + "   (___(__)  "@ + directive(m1));
        lemma_well_styled_concat(directive(m0), "   (___(__)  "@);
        lemma_well_styled_concat((directive(m0) + "   (___(__)  "@), directive(m1));
        assert(well_styled("\u{1b}[38;5;240;1m   (___(__)  \u{1b}[0m"@) && visible_width("\u{1b}[38;5;240;1m   (___(__)  \u{1b}[0m"@) == 13);
        assert("\u{1b}[38;5;21;1m  \u{201a}\u{2018}\u{1b}[38;5;228;5m\u{26a1}\u{1b}[38;5;21;25m\u{2018}\u{201a}\u{1b}[38;5;228;5m\u{26a1}\u{1b}[38;5;21;25m\u{201a}\u{2018}   \u{1b}[0m"@ =~= directive(m2) + "  \u{201a}\u{2018}"@ + directive(m3) + "\u{26a1}"@ + directive(m4) + "\u{2018}\u{201a}"@ + directive(m3) + "\u{26a1}"@ + directive(m4) + "\u{201a}\u{2018}   "@ + directive(m1));
        lemma_well_styled_concat(directive(m2), "  \u{201a}\u{2018}"@);
        lemma_well_styled_concat((directive(m2) + "  \u{201a}\u{2018}"@), directive(m3));
        lemma_well_styled_concat(((directive(m2) + "  \u{201a}\u{2018}"@) + directive(m3)), "\u{26a1}"@);
        lemma_well_styled_concat((((directive(m2) + "  \u{201a}\u{2018}"@) + directive(m3)) + "\u{26a1}"@), directive(m4));
        lemma_well_styled_concat(((((directive(m2) + "  \u{201a}\u{2018}"@) + directive(m3)) + "\u{26a1}"@) + directive(m4)), "\u{2018}\u{201a}"@);
        lemma_well_styled_concat((((((directive(m2) + "  \u{201a}\u{2018}"@) + directive(m3)) + "\u{26a1}"@) + directive(m4)) + "\u{2018}\u{201a}"@), directive(m3));
        lemma_well_styled_concat(((((((directive(m2) + "  \u{201a}\u{2018}"@) + directive(m3)) + "\u{26a1}"@) + directive(m4)) + "\u{2018}\u{201a}"@) + directive(m3)), "\u{26a1}"@);
        lemma_well_styled_concat((((((((directive(m2) + "  \u{201a}\u{2018}"@) + directive(m3)) + "\u{26a1}"@) + directive(m4)) + "\u{2018}\u{201a}"@) + directive(m3)) + "\u{26a1}"@), directive(m4));
        lemma_well_styled_concat(((((((((directive(m2) + "  \u{201a}\u{2018}"@) + directive(m3)) + "\u{26a1}"@) + directive(m4)) + "\u{2018}\u{201a}"@) + directive(m3)) + "\u{26a1}"@) + directive(m4)), "\u{201a}\u{2018}   "@);
        lemma_well_styled_concat((((((((((directive(m2) + "  \u{201a}\u{2018}"@) + directive(m3)) + "\u{26a1}"@) + directive(m4)) + "\u{2018}\u{201a}"@) + directive(m3)) + "\u{26a1}"@) + directive(m4)) + "\u{201a}\u{2018}   "@), directive(m1));
        assert(well_styled("\u{1b}[38;5;21;1m  \u{201a}\u{2018}\u{1b}[38;5;228;5m\u{26a1}\u{1b}[38;5;21;25m\u{2018}\u{201a}\u{1b}[38;5;228;5m\u{26a1}\u{1b}[38;5;21;25m\u{201a}\u{2018}   \u{1b}[0m"@) && visible_width("\u{1b}[38;5;21;1m  \u{201a}\u{2018}\u{1b}[38;5;228;5m\u{26a1}\u{1b}[38;5;21;25m\u{2018}\u{201a}\u{1b}[38;5;228;5m\u{26a1}\u{1b}[38;5;21;25m\u{201a}\u{2018}   \u{1b}[0m"@) == 13);
        assert("\u{1b}[38;5;21;1m  \u{201a}\u{2019}\u{201a}\u{2019}\u{1b}[38;5;228;5m\u{26a1}\u{1b}[38;5;21;25m\u{2019}\u{201a}\u{2019}   \u{1b}[0m"@ =~= directive(m2) + "  \u{201a}\u{2019}\u{201a}\u{2019}"@ + directive(m3) + "\u{26a1}"@ + directive(m4) + "\u{2019}\u{201a}\u{2019}   "@ + directive(m1));
        lemma_well_styled_concat(directive(m2), "  \u{201a}\u{2019}\u{201a}\u{2019}"@);
        lemma_well_styled_concat((directive(m2) + "  \u{201a}\u{2019}\u{201a}\u{2019}"@), directive(m3));
        lemma_well_styled_concat(((directive(m2) + "  \u{201a}\u{2019}\u{201a}\u{2019}"@) + directive(m3)), "\u{26a1}"@);
        lemma_well_styled_concat((((directive(m2) + "  \u{201a}\u{2019}\u{201a}\u{2019}"@) + directive(m3)) + "\u{26a1}"@), directive(m4));
        lemma_well_styled_concat(((((directive(m2) + "  \u{201a}\u{2019}\u{201a}\u{2019}"@) + directive(m3)) + "\u{26a1}"@) + directive(m4)), "\u{2019}\u{201a}\u{2019}   "@);
        lemma_well_styled_concat((((((directive(m2) + "  \u{201a}\u{2019}\u{201a}\u{2019}"@) + directive(m3)) + "\u{26a1}"@) + directive(m4)) + "\u{2019}\u{201a}\u{2019}   "@), directive(m1));
        assert(well_styled("\u{1b}[38;5;21;1m  \u{201a}\u{2019}\u{201a}\u{2019}\u{1b}[38;5;228;5m\u{26a1}\u{1b}[38;5;21;25m\u{2019}\u{201a}\u{2019}   \u{1b}[0m"@) && visible_width("\u{1b}[38;5;21;1m  \u{201a}\u{2019}\u{201a}\u{2019}\u{1b}[38;5;228;5m\u{26a1}\u{1b}[38;5;21;25m\u{2019}\u{201a}\u{2019}   \u{1b}[0m"@) == 13);
        assert forall|i: int|
            0 <= i < 5 implies #[trigger] well_styled(r@[i]@) && visible_width(r@[i]@)
            == 13 by {
            assert(r@[0] == "\u{1b}[38;5;240;1m     .-.     \u{1b}[0m");
            assert(r@[1] == "\u{1b}[38;5;240;1m    (   ).   \u{1b}[0m");
            assert(r@[2] == "\u{1b}[38;5;240;1m   (___(__)  \u{1b}[0m");
            assert(r@[3] == "\u{1b}[38;5;21;1m  \u{201a}\u{2018}\u{1b}[38;5;228;5m\u{26a1}\u{1b}[38;5;21;25m\u{2018}\u{201a}\u{1b}[38;5;228;5m\u{26a1}\u{1b}[38;5;21;25m\u{201a}\u{2018}   \u{1b}[0m");
            assert(r@[4] == "\u{1b}[38;5;21;1m  \u{201a}\u{2019}\u{201a}\u{2019}\u{1b}[38;5;228;5m\u{26a1}\u{1b}[38;5;21;25m\u{2019}\u{201a}\u{2019}   \u{1b}[0m");
        }
        assert forall|i: int| 0 <= i < 5 implies (#[trigger] r@[i]@) == icon_thundery_heavy_rain_spec()[i] by {
            assert(r@[0] == "\u{1b}[38;5;240;1m     .-.     \u{1b}[0m");
            assert(icon_thundery_heavy_rain_spec()[0] == "\u{1b}[38;5;240;1m     .-.     \u{1b}[0m"@);
            assert(r@[1] == "\u{1b}[38;5;240;1m    (   ).   \u{1b}[0m");
            assert(icon_thundery_heavy_rain_spec()[1] == "\u{1b}[38;5;240;1m    (   ).   \u{1b}[0m"@);
            assert(r@[2] == "\u{1b}[38;5;240;1m   (___(__)  \u{1b}[0m");
            assert(icon_thundery_heavy_rain_spec()[2] == "\u{1b}[38;5;240;1m   (___(__)  \u{1b}[0m"@);
            assert(r@[3] == "\u{1b}[38;5;21;1m  \u{201a}\u{2018}\u{1b}[38;5;228;5m\u{26a1}\u{1b}[38;5;21;25m\u{2018}\u{201a}\u{1b}[38;5;228;5m\u{26a1}\u{1b}[38;5;21;25m\u{201a}\u{2018}   \u{1b}[0m");
            assert(icon_thundery_heavy_rain_spec()[3] == "\u{1b}[38;5;21;1m  \u{201a}\u{2018}\u{1b}[38;5;228;5m\u{26a1}\u{1b}[38;5;21;25m\u{2018}\u{201a}\u{1b}[38;5;228;5m\u{26a1}\u{1b}[38;5;21;25m\u{201a}\u{2018}   \u{1b}[0m"@);
            assert(r@[4] == "\u{1b}[38;5;21;1m  \u{201a}\u{2019}\u{201a}\u{2019}\u{1b}[38;5;228;5m\u{26a1}\u{1b}[38;5;21;25m\u{2019}\u{201a}\u{2019}   \u{1b}[0m");
            assert(icon_thundery_heavy_rain_spec()[4] == "\u{1b}[38;5;21;1m  \u{201a}\u{2019}\u{201a}\u{2019}\u{1b}[38;5;228;5m\u{26a1}\u{1b}[38;5;21;25m\u{2019}\u{201a}\u{2019}   \u{1b}[0m"@);
        }
    }
    r
}

/// The art lines of this icon.
pub open spec fn icon_thundery_snow_showers_spec() -> Seq<Seq<char>> {
    seq![
        "\u{1b}[38;5;226m _`/\"\"\u{1b}[38;5;250m.-.    \u{1b}[0m"@,
        "\u{1b}[38;5;226m  ,\\_\u{1b}[38;5;250m(   ).  \u{1b}[0m"@,
        "\u{1b}[38;5;226m   /\u{1b}[38;5;250m(___(__) \u{1b}[0m"@,
        "\u{1b}[38;5;255m     *\u{1b}[38;5;228;5m\u{26a1}\u{1b}[38;5;255;25m *\u{1b}[38;5;228;5m\u{26a1}\u{1b}[38;5;255;25m * \u{1b}[0m"@,
        "\u{1b}[38;5;255m    *  *  *  \u{1b}[0m"@,
    ]
}

fn icon_thundery_snow_showers() -> (r: [&'static str; 5])
    ensures
        icon_lines_ok(r),
        forall|i: int| 0 <= i < 5 ==> (#[trigger] r@[i]@) == icon_thundery_snow_showers_spec()[i],
{
    let r = [
        "\u{1b}[38;5;226m _`/\"\"\u{1b}[38;5;250m.-.    \u{1b}[0m",
        "\u{1b}[38;5;226m  ,\\_\u{1b}[38;5;250m(   ).  \u{1b}[0m",
        "\u{1b}[38;5;226m   /\u{1b}[38;5;250m(___(__) \u{1b}[0m",
        "\u{1b}[38;5;255m     *\u{1b}[38;5;228;5m\u{26a1}\u{1b}[38;5;255;25m *\u{1b}[38;5;228;5m\u{26a1}\u{1b}[38;5;255;25m * \u{1b}[0m",
        "\u{1b}[38;5;255m    *  *  *  \u{1b}[0m",
    ];
    proof {
        reveal_strlit("\u{1b}[38;5;226m _`/\"\"\u{1b}[38;5;250m.-.    \u{1b}[0m");
        reveal_strlit(" _`/\"\"");
        reveal_strlit(".-.    ");
        reveal_strlit("\u{1b}[38;5;226m  ,\\_\u{1b}[38;5;250m(   ).  \u{1b}[0m");
        reveal_strlit("  ,\\_");
        reveal_strlit("(   ).  ");
        reveal_strlit("\u{1b}[38;5;226m   /\u{1b}[38;5;250m(___(__) \u{1b}[0m");
        reveal_strlit("   /");
        reveal_strlit("(___(__) ");
        reveal_strlit("\u{1b}[38;5;255m     *\u{1b}[38;5;228;5m\u{26a1}\u{1b}[38;5;255;25m *\u{1b}[38;5;228;5m\u{26a1}\u{1b}[38;5;255;25m * \u{1b}[0m");
        reveal_strlit("     *");
        reveal_strlit("\u{26a1}");
        reveal_strlit(" *");
        reveal_strlit(" * ");
        reveal_strlit("\u{1b}[38;5;255m    *  *  *  \u{1b}[0m");
        reveal_strlit("    *  *  *  ");
        let m0 = seq!['[', '3', '8', ';', '5', ';', '2', '2', '6'];
        assert forall|k: int| 0 <= k < m0.len() implies m0[k] != 'm' by {}
        lemma_directive_zero(m0);
        let m1 = seq!['[', '3', '8', ';', '5', ';', '2', '5', '0'];
        assert forall|k: int| 0 <= k < m1.len() implies m1[k] != 'm' by {}
        lemma_directive_zero(m1);
        let m2 = seq!['[', '0'];
        assert forall|k: int| 0 <= k < m2.len() implies m2[k] != 'm' by {}
        lemma_directive_zero(m2);
        let m3 = seq!['[', '3', '8', ';', '5', ';', '2', '5', '5'];
        assert forall|k: int| 0 <= k < m3.len() implies m3[k] != 'm' by {}
        lemma_directive_zero(m3);
        let m4 = seq!['[', '3', '8', ';', '5', ';', '2', '2', '8', ';', '5'];
        assert forall|k: int| 0 <= k < m4.len() implies m4[k] != 'm' by {}
        lemma_directive_zero(m4);
        let m5 = seq!['[', '3', '8', ';', '5', ';', '2', '5', '5', ';', '2', '5'];
        assert forall|k: int| 0 <= k < m5.len() implies m5[k] != 'm' by {}
        lemma_directive_zero(m5);
        assert forall|k: int| 0 <= k < " _`/\"\""@.len() implies " _`/\"\""@[k] != '\u{1b}'
            && !is_wide_char(" _`/\"\""@[k]) by {}
        assert(plain_text(" _`/\"\""@));
        lemma_plain_text_width(" _`/\"\""@);
        assert forall|k: int| 0 <= k < ".-.    "@.len() implies ".-.    "@[k] != '\u{1b}'
            && !is_wide_char(".-.    "@[k]) by {}
        assert(plain_text(".-.    "@));
        lemma_plain_text_width(".-.    "@);
        assert forall|k: int| 0 <= k < "  ,\\_"@.len() implies "  ,\\_"@[k] != '\u{1b}'
            && !is_wide_char("  ,\\_"@[k]) by {}
        assert(plain_text("  ,\\_"@));
        lemma_plain_text_width("  ,\\_"@);
        assert forall|k: int| 0 <= k < "(   ).  "@.len() implies "(   ).  "@[k] != '\u{1b}'
            && !is_wide_char("(   ).  "@[k]) by {}
        assert(plain_text("(   ).  "@));
        lemma_plain_text_width("(   ).  "@);
        assert forall|k: int| 0 <= k < "   /"@.len() implies "   /"@[k] != '\u{1b}'
            && !is_wide_char("   /"@[k]) by {}
        assert(plain_text("   /"@));
        lemma_plain_text_width("   /"@);
        assert forall|k: int| 0 <= k < "(___(__) "@.len() implies "(___(__) "@[k] != '\u{1b}'
            && !is_wide_char("(___(__) "@[k]) by {}
        assert(plain_text("(___(__) "@));
        lemma_plain_text_width("(___(__) "@);
        assert forall|k: int| 0 <= k < "     *"@.len() implies "     *"@[k] != '\u{1b}'
            && !is_wide_char("     *"@[k]) by {}
        assert(plain_text("     *"@));
        lemma_plain_text_width("     *"@);
        assert forall|k: int| 0 <= k < "\u{26a1}"@.len() implies "\u{26a1}"@[k] != '\u{1b}'
            && !is_wide_char("\u{26a1}"@[k]) by {}
        assert(plain_text("\u{26a1}"@));
        lemma_plain_text_width("\u{26a1}"@);
        assert forall|k: int| 0 <= k < " *"@.len() implies " *"@[k] != '\u{1b}'
            && !is_wide_char(" *"@[k]) by {}
        assert(plain_text(" *"@));
        lemma_plain_text_width(" *"@);
        assert forall|k: int| 0 <= k < " * "@.len() implies " * "@[k] != '\u{1b}'
            && !is_wide_char(" * "@[k]) by {}
        assert(plain_text(" * "@));
        lemma_plain_text_width(" * "@);
        assert forall|k: int| 0 <= k < "    *  *  *  "@.len() implies "    *  *  *  "@[k] != '\u{1b}'
            && !is_wide_char("    *  *  *  "@[k]) by {}
        assert(plain_text("    *  *  *  "@));
        lemma_plain_text_width("    *  *  *  "@);
        assert("\u{1b}[38;5;226m _`/\"\"\u{1b}[38;5;250m.-.    \u{1b}[0m"@ =~= directive(m0) + " _`/\"\""@ + directive(m1) + ".-.    "@ + directive(m2));
        lemma_well_styled_concat(directive(m0), " _`/\"\""@);
        lemma_well_styled_concat((directive(m0) + " _`/\"\""@), directive(m1));
        lemma_well_styled_concat(((directive(m0) + " _`/\"\""@) + directive(m1)), ".-.    "@);
        lemma_well_styled_concat((((directive(m0) + " _`/\"\""@) + directive(m1)) + ".-.    "@), directive(m2));
        assert(well_styled("\u{1b}[38;5;226m _`/\"\"\u{1b}[38;5;250m.-.    \u{1b}[0m"@) && visible_width("\u{1b}[38;5;226m _`/\"\"\u{1b}[38;5;250m.-.    \u{1b}[0m"@) == 13);
        assert("\u{1b}[38;5;226m  ,\\_\u{1b}[38;5;250m(   ).  \u{1b}[0m"@ =~= directive(m0) + "  ,\\_"@ + directive(m1) + "(   ).  "@ + directive(m2));
        lemma_well_styled_concat(directive(m0), "  ,\\_"@);
        lemma_well_styled_concat((directive(m0) + "  ,\\_"@), directive(m1));
        lemma_well_styled_concat(((directive(m0) + "  ,\\_"@) + directive(m1)), "(   ).  "@);
        lemma_well_styled_concat((((directive(m0) + "  ,\\_"@) + directive(m1)) + "(   ).  "@), directive(m2));
        assert(well_styled("\u{1b}[38;5;226m  ,\\_\u{1b}[38;5;250m(   ).  \u{1b}[0m"@) && visible_width("\u{1b}[38;5;226m  ,\\_\u{1b}[38;5;250m(   ).  \u{1b}[0m"@) == 13);
        assert("\u{1b}[38;5;226m   /\u{1b}[38;5;250m(___(__) \u{1b}[0m"@ =~= directive(m0) + "   /"@ + directive(m1) + "(___(__) "@ + directive(m2));
        lemma_well_styled_concat(directive(m0), "   /"@);
        lemma_well_styled_concat((directive(m0) + "   /"@), directive(m1));
        lemma_well_styled_concat(((directive(m0) + "   /"@) + directive(m1)), "(___(__) "@);
        lemma_well_styled_concat((((directive(m0) + "   /"@) + directive(m1)) + "(___(__) "@), directive(m2));
        assert(well_styled("\u{1b}[38;5;226m   /\u{1b}[38;5;250m(___(__) \u{1b}[0m"@) && visible_width("\u{1b}[38;5;226m   /\u{1b}[38;5;250m(___(__) \u{1b}[0m"@) == 13);
        assert("\u{1b}[38;5;255m     *\u{1b}[38;5;228;5m\u{26a1}\u{1b}[38;5;255;25m *\u{1b}[38;5;228;5m\u{26a1}\u{1b}[38;5;255;25m * \u{1b}[0m"@ =~= directive(m3) + "     *"@ + directive(m4) + "\u{26a1}"@ + directive(m5) + " *"@ + directive(m4) + "\u{26a1}"@ + directive(m5) + " * "@ + directive(m2));
        lemma_well_styled_concat(directive(m3), "     *"@);
        lemma_well_styled_concat((directive(m3) + "     *"@), directive(m4));
        lemma_well_styled_concat(((directive(m3) + "     *"@) + directive(m4)), "\u{26a1}"@);
        lemma_well_styled_concat((((directive(m3) + "     *"@) + directive(m4)) + "\u{26a1}"@), directive(m5));
        lemma_well_styled_concat(((((directive(m3) + "     *"@) + directive(m4)) + "\u{26a1}"@) + directive(m5)), " *"@);
        lemma_well_styled_concat((((((directive(m3) + "     *"@) + directive(m4)) + "\u{26a1}"@) + directive(m5)) + " *"@), directive(m4));
        lemma_well_styled_concat(((((((directive(m3) + "     *"@) + directive(m4)) + "\u{26a1}"@) + directive(m5)) + " *"@) + directive(m4)), "\u{26a1}"@);
        lemma_well_styled_concat((((((((directive(m3) + "     *"@) + directive(m4)) + "\u{26a1}"@) + directive(m5)) + " *"@) + directive(m4)) + "\u{26a1}"@), directive(m5));
        lemma_well_styled_concat(((((((((directive(m3) + "     *"@) + directive(m4)) + "\u{26a1}"@) + directive(m5)) + " *"@) + directive(m4)) + "\u{26a1}"@) + directive(m5)), " * "@);
        lemma_well_styled_concat((((((((((directive(m3) + "     *"@) + directive(m4)) + "\u{26a1}"@) + directive(m5)) + " *"@) + directive(m4)) + "\u{26a1}"@) + directive(m5)) + " * "@), directive(m2));
        assert(well_styled("\u{1b}[38;5;255m     *\u{1b}[38;5;228;5m\u{26a1}\u{1b}[38;5;255;25m *\u{1b}[38;5;228;5m\u{26a1}\u{1b}[38;5;255;25m * \u{1b}[0m"@) && visible_width("\u{1b}[38;5;255m     *\u{1b}[38;5;228;5m\u{26a1}\u{1b}[38;5;255;25m *\u{1b}[38;5;228;5m\u{26a1}\u{1b}[38;5;255;25m * \u{1b}[0m"@) == 13);
        assert("\u{1b}[38;5;255m    *  *  *  \u{1b}[0m"@ =~= directive(m3) + "    *  *  *  "@ + directive(m2));
        lemma_well_styled_concat(directive(m3), "    *  *  *  "@);
        lemma_well_styled_concat((directive(m3) + "    *  *  *  "@), directive(m2));
        assert(well_styled("\u{1b}[38;5;255m    *  *  *  \u{1b}[0m"@) && visible_width("\u{1b}[38;5;255m    *  *  *  \u{1b}[0m"@) == 13);
        assert forall|i: int|
            0 <= i < 5 implies #[trigger] well_styled(r@[i]@) && visible_width(r@[i]@)
            == 13 by {
            assert(r@[0] == "\u{1b}[38;5;226m _`/\"\"\u{1b}[38;5;250m.-.    \u{1b}[0m");
            assert(r@[1] == "\u{1b}[38;5;226m  ,\\_\u{1b}[38;5;250m(   ).  \u{1b}[0m");
            assert(r@[2] == "\u{1b}[38;5;226m   /\u{1b}[38;5;250m(___(__) \u{1b}[0m");
            assert(r@[3] == "\u{1b}[38;5;255m     *\u{1b}[38;5;228;5m\u{26a1}\u{1b}[38;5;255;25m *\u{1b}[38;5;228;5m\u{26a1}\u{1b}[38;5;255;25m * \u{1b}[0m");
            assert(r@[4] == "\u{1b}[38;5;255m    *  *  *  \u{1b}[0m");
        }
        assert forall|i: int| 0 <= i < 5 implies (#[trigger] r@[i]@) == icon_thundery_snow_showers_spec()[i] by {
            assert(r@[0] == "\u{1b}[38;5;226m _`/\"\"\u{1b}[38;5;250m.-.    \u{1b}[0m");
            assert(icon_thundery_snow_showers_spec()[0] == "\u{1b}[38;5;226m _`/\"\"\u{1b}[38;5;250m.-.    \u{1b}[0m"@);
            assert(r@[1] == "\u{1b}[38;5;226m  ,\\_\u{1b}[38;5;250m(   ).  \u{1b}[0m");
            assert(icon_thundery_snow_showers_spec()[1] == "\u{1b}[38;5;226m  ,\\_\u{1b}[38;5;250m(   ).  \u{1b}[0m"@);
            assert(r@[2] == "\u{1b}[38;5;226m   /\u{1b}[38;5;250m(___(__) \u{1b}[0m");
            assert(icon_thundery_snow_showers_spec()[2] == "\u{1b}[38;5;226m   /\u{1b}[38;5;250m(___(__) \u{1b}[0m"@);
            assert(r@[3] == "\u{1b}[38;5;255m     *\u{1b}[38;5;228;5m\u{26a1}\u{1b}[38;5;255;25m *\u{1b}[38;5;228;5m\u{26a1}\u{1b}[38;5;255;25m * \u{1b}[0m");
            assert(icon_thundery_snow_showers_spec()[3] == "\u{1b}[38;5;255m     *\u{1b}[38;5;228;5m\u{26a1}\u{1b}[38;5;255;25m *\u{1b}[38;5;228;5m\u{26a1}\u{1b}[38;5;255;25m * \u{1b}[0m"@);
            assert(r@[4] == "\u{1b}[38;5;255m    *  *  *  \u{1b}[0m");
            assert(icon_thundery_snow_showers_spec()[4] == "\u{1b}[38;5;255m    *  *  *  \u{1b}[0m"@);
        }
    }
    r
}

/// The art lines of this icon.
pub open spec fn icon_light_rain_spec() -> Seq<Seq<char>> {
    seq![
        "\u{1b}[38;5;250m     .-.     \u{1b}[0m"@,
        "\u{1b}[38;5;250m    (   ).   \u{1b}[0m"@,
        "\u{1b}[38;5;250m   (___(__)  \u{1b}[0m"@,
        "\u{1b}[38;5;111m    \u{2018} \u{2018} \u{2018} \u{2018}  \u{1b}[0m"@,
        "\u{1b}[38;5;111m   \u{2018} \u{2018} \u{2018} \u{2018}   \u{1b}[0m"@,
    ]
}

fn icon_light_rain() -> (r: [&'static str; 5])
    ensures
        icon_lines_ok(r),
        forall|i: int| 0 <= i < 5 ==> (#[trigger] r@[i]@) == icon_light_rain_spec()[i],
{
    let r = [
        "\u{1b}[38;5;250m     .-.     \u{1b}[0m",
        "\u{1b}[38;5;250m    (   ).   \u{1b}[0m",
        "\u{1b}[38;5;250m   (___(__)  \u{1b}[0m",
        "\u{1b}[38;5;111m    \u{2018} \u{2018} \u{2018} \u{2018}  \u{1b}[0m",
        "\u{1b}[38;5;111m   \u{2018} \u{2018} \u{2018} \u{2018}   \u{1b}[0m",
    ];
    proof {
        reveal_strlit("\u{1b}[38;5;250m     .-.     \u{1b}[0m");
        reveal_strlit("     .-.     ");
        reveal_strlit("\u{1b}[38;5;250m    (   ).   \u{1b}[0m");
        reveal_strlit("    (   ).   ");
        reveal_strlit("\u{1b}[38;5;250m   (___(__)  \u{1b}[0m");
        reveal_strlit("   (___(__)  ");
        reveal_strlit("\u{1b}[38;5;111m    \u{2018} \u{2018} \u{2018} \u{2018}  \u{1b}[0m");
        reveal_strlit("    \u{2018} \u{2018} \u{2018} \u{2018}  ");
        reveal_strlit("\u{1b}[38;5;111m   \u{2018} \u{2018} \u{2018} \u{2018}   \u{1b}[0m");
        reveal_strlit("   \u{2018} \u{2018} \u{2018} \u{2018}   ");
        let m0 = seq!['[', '3', '8', ';', '5', ';', '2', '5', '0'];
        assert forall|k: int| 0 <= k < m0.len() implies m0[k] != 'm' by {}
        lemma_directive_zero(m0);
        let m1 = seq!['[', '0'];
        assert forall|k: int| 0 <= k < m1.len() implies m1[k] != 'm' by {}
        lemma_directive_zero(m1);
        let m2 = seq!['[', '3', '8', ';', '5', ';', '1', '1', '1'];
        assert forall|k: int| 0 <= k < m2.len() implies m2[k] != 'm' by {}
        lemma_directive_zero(m2);
        assert forall|k: int| 0 <= k < "     .-.     "@.len() implies "     .-.     "@[k] != '\u{1b}'
            && !is_wide_char("     .-.     "@[k]) by {}
        assert(plain_text("     .-.     "@));
        lemma_plain_text_width("     .-.     "@);
        assert forall|k: int| 0 <= k < "    (   ).   "@.len() implies "    (   ).   "@[k] != '\u{1b}'
            && !is_wide_char("    (   ).   "@[k]) by {}
        assert(plain_text("    (   ).   "@));
        lemma_plain_text_width("    (   ).   "@);
        assert forall|k: int| 0 <= k < "   (___(__)  "@.len() implies "   (___(__)  "@[k] != '\u{1b}'
            && !is_wide_char("   (___(__)  "@[k]) by {}
        assert(plain_text("   (___(__)  "@));
        lemma_plain_text_width("   (___(__)  "@);
        assert forall|k: int| 0 <= k < "    \u{2018} \u{2018} \u{2018} \u{2018}  "@.len() implies "    \u{2018} \u{2018} \u{2018} \u{2018}  "@[k] != '\u{1b}'
            && !is_wide_char("    \u{2018} \u{2018} \u{2018} \u{2018}  "@[k]) by {}
        assert(plain_text("    \u{2018} \u{2018} \u{2018} \u{2018}  "@));
        lemma_plain_text_width("    \u{2018} \u{2018} \u{2018} \u{2018}  "@);
        assert forall|k: int| 0 <= k < "   \u{2018} \u{2018} \u{2018} \u{2018}   "@.len() implies "   \u{2018} \u{2018} \u{2018} \u{2018}   "@[k] != '\u{1b}'
            && !is_wide_char("   \u{2018} \u{2018} \u{2018} \u{2018}   "@[k]) by {}
        assert(plain_text("   \u{2018} \u{2018} \u{2018} \u{2018}   "@));
        lemma_plain_text_width("   \u{2018} \u{2018} \u{2018} \u{2018}   "@);
        assert("\u{1b}[38;5;250m     .-.     \u{1b}[0m"@ =~= directive(m0) + "     .-.     "@ + directive(m1));
        lemma_well_styled_concat(directive(m0), "     .-.     "@);
        lemma_well_styled_concat((directive(m0) + "     .-.     "@), directive(m1));
        assert(well_styled("\u{1b}[38;5;250m     .-.     \u{1b}[0m"@) && visible_width("\u{1b}[38;5;250m     .-.     \u{1b}[0m"@) == 13);
        assert("\u{1b}[38;5;250m    (   ).   \u{1b}[0m"@ =~= directive(m0) + "    (   ).   "@ + directive(m1));
        lemma_well_styled_concat(directive(m0), "    (   ).   "@);
        lemma_well_styled_concat((directive(m0) + "    (   ).   "@), directive(m1));
        assert(well_styled("\u{1b}[38;5;250m    (   ).   \u{1b}[0m"@) && visible_width("\u{1b}[38;5;250m    (   ).   \u{1b}[0m"@) == 13);
        assert("\u{1b}[38;5;250m   (___(__)  \u{1b}[0m"@ =~= directive(m0) + "   (___(__)  "@ + directive(m1));
        lemma_well_styled_concat(directive(m0), "   (___(__)  "@);
        lemma_well_styled_concat((directive(m0) + "   (___(__)  "@), directive(m1));
        assert(well_styled("\u{1b}[38;5;250m   (___(__)  \u{1b}[0m"@) && visible_width("\u{1b}[38;5;250m   (___(__)  \u{1b}[0m"@) == 13);
        assert("\u{1b}[38;5;111m    \u{2018} \u{2018} \u{2018} \u{2018}  \u{1b}[0m"@ =~= directive(m2) + "    \u{2018} \u{2018} \u{2018} \u{2018}  "@ + directive(m1));
        lemma_well_styled_concat(directive(m2), "    \u{2018} \u{2018} \u{2018} \u{2018}  "@);
        lemma_well_styled_concat((directive(m2) + "    \u{2018} \u{2018} \u{2018} \u{2018}  "@), directive(m1));
        assert(well_styled("\u{1b}[38;5;111m    \u{2018} \u{2018} \u{2018} \u{2018}  \u{1b}[0m"@) && visible_width("\u{1b}[38;5;111m    \u{2018} \u{2018} \u{2018} \u{2018}  \u{1b}[0m"@) == 13);
        assert("\u{1b}[38;5;111m   \u{2018} \u{2018} \u{2018} \u{2018}   \u{1b}[0m"@ =~= directive(m2) + "   \u{2018} \u{2018} \u{2018} \u{2018}   "@ + directive(m1));
        lemma_well_styled_concat(directive(m2), "   \u{2018} \u{2018} \u{2018} \u{2018}   "@);
        lemma_well_styled_concat((directive(m2) + "   \u{2018} \u{2018} \u{2018} \u{2018}   "@), directive(m1));
        assert(well_styled("\u{1b}[38;5;111m   \u{2018} \u{2018} \u{2018} \u{2018}   \u{1b}[0m"@) && visible_width("\u{1b}[38;5;111m   \u{2018} \u{2018} \u{2018} \u{2018}   \u{1b}[0m"@) == 13);
        assert forall|i: int|
            0 <= i < 5 implies #[trigger] well_styled(r@[i]@) && visible_width(r@[i]@)
            == 13 by {
            assert(r@[0] == "\u{1b}[38;5;250m     .-.     \u{1b}[0m");
            assert(r@[1] == "\u{1b}[38;5;250m    (   ).   \u{1b}[0m");
            assert(r@[2] == "\u{1b}[38;5;250m   (___(__)  \u{1b}[0m");
            assert(r@[3] == "\u{1b}[38;5;111m    \u{2018} \u{2018} \u{2018} \u{2018}  \u{1b}[0m");
            assert(r@[4] == "\u{1b}[38;5;111m   \u{2018} \u{2018} \u{2018} \u{2018}   \u{1b}[0m");
        }
        assert forall|i: int| 0 <= i < 5 implies (#[trigger] r@[i]@) == icon_light_rain_spec()[i] by {
            assert(r@[0] == "\u{1b}[38;5;250m     .-.     \u{1b}[0m");
            assert(icon_light_rain_spec()[0] == "\u{1b}[38;5;250m     .-.     \u{1b}[0m"@);
            assert(r@[1] == "\u{1b}[38;5;250m    (   ).   \u{1b}[0m");
            assert(icon_light_rain_spec()[1] == "\u{1b}[38;5;250m    (   ).   \u{1b}[0m"@);
            assert(r@[2] == "\u{1b}[38;5;250m   (___(__)  \u{1b}[0m");
            assert(icon_light_rain_spec()[2] == "\u{1b}[38;5;250m   (___(__)  \u{1b}[0m"@);
            assert(r@[3] == "\u{1b}[38;5;111m    \u{2018} \u{2018} \u{2018} \u{2018}  \u{1b}[0m");
            assert(icon_light_rain_spec()[3] == "\u{1b}[38;5;111m    \u{2018} \u{2018} \u{2018} \u{2018}  \u{1b}[0m"@);
            assert(r@[4] == "\u{1b}[38;5;111m   \u{2018} \u{2018} \u{2018} \u{2018}   \u{1b}[0m");
            assert(icon_light_rain_spec()[4] == "\u{1b}[38;5;111m   \u{2018} \u{2018} \u{2018} \u{2018}   \u{1b}[0m"@);
        }
    }
    r
}

/// The art lines of this icon.
pub open spec fn icon_heavy_rain_spec() -> Seq<Seq<char>> {
    seq![
        "\u{1b}[38;5;240;1m     .-.     \u{1b}[0m"@,
        "\u{1b}[38;5;240;1m    (   ).   \u{1b}[0m"@,
        "\u{1b}[38;5;240;1m   (___(__)  \u{1b}[0m"@,
        "\u{1b}[38;5;21;1m  \u{201a}\u{2018}\u{201a}\u{2018}\u{201a}\u{2018}\u{201a}\u{2018}   \u{1b}[0m"@,
        "\u{1b}[38;5;21;1m  \u{201a}\u{2019}\u{201a}\u{2019}\u{201a}\u{2019}\u{201a}\u{2019}   \u{1b}[0m"@,
    ]
}

fn icon_heavy_rain() -> (r: [&'static str; 5])
    ensures
        icon_lines_ok(r),
        forall|i: int| 0 <= i < 5 ==> (#[trigger] r@[i]@) == icon_heavy_rain_spec()[i],
{
    let r = [
        "\u{1b}[38;5;240;1m     .-.     \u{1b}[0m",
        "\u{1b}[38;5;240;1m    (   ).   \u{1b}[0m",
        "\u{1b}[38;5;240;1m   (___(__)  \u{1b}[0m",
        "\u{1b}[38;5;21;1m  \u{201a}\u{2018}\u{201a}\u{2018}\u{201a}\u{2018}\u{201a}\u{2018}   \u{1b}[0m",
        "\u{1b}[38;5;21;1m  \u{201a}\u{2019}\u{201a}\u{2019}\u{201a}\u{2019}\u{201a}\u{2019}   \u{1b}[0m",
    ];
    proof {
        reveal_strlit("\u{1b}[38;5;240;1m     .-.     \u{1b}[0m");
        reveal_strlit("     .-.     ");
        reveal_strlit("\u{1b}[38;5;240;1m    (   ).   \u{1b}[0m");
        reveal_strlit("    (   ).   ");
        reveal_strlit("\u{1b}[38;5;240;1m   (___(__)  \u{1b}[0m");
        reveal_strlit("   (___(__)  ");
        reveal_strlit("\u{1b}[38;5;21;1m  \u{201a}\u{2018}\u{201a}\u{2018}\u{201a}\u{2018}\u{201a}\u{2018}   \u{1b}[0m");
        reveal_strlit("  \u{201a}\u{2018}\u{201a}\u{2018}\u{201a}\u{2018}\u{201a}\u{2018}   ");
        reveal_strlit("\u{1b}[38;5;21;1m  \u{201a}\u{2019}\u{201a}\u{2019}\u{201a}\u{2019}\u{201a}\u{2019}   \u{1b}[0m");
        reveal_strlit("  \u{201a}\u{2019}\u{201a}\u{2019}\u{201a}\u{2019}\u{201a}\u{2019}   ");
        let m0 = seq!['[', '3', '8', ';', '5', ';', '2', '4', '0', ';', '1'];
        assert forall|k: int| 0 <= k < m0.len() implies m0[k] != 'm' by {}
        lemma_directive_zero(m0);
        let m1 = seq!['[', '0'];
        assert forall|k: int| 0 <= k < m1.len() implies m1[k] != 'm' by {}
        lemma_directive_zero(m1);
        let m2 = seq!['[', '3', '8', ';', '5', ';', '2', '1', ';', '1'];
        assert forall|k: int| 0 <= k < m2.len() implies m2[k] != 'm' by {}
        lemma_directive_zero(m2);
        assert forall|k: int| 0 <= k < "     .-.     "@.len() implies "     .-.     "@[k] != '\u{1b}'
            && !is_wide_char("     .-.     "@[k]) by {}
        assert(plain_text("     .-.     "@));
        lemma_plain_text_width("     .-.     "@);
        assert forall|k: int| 0 <= k < "    (   ).   "@.len() implies "    (   ).   "@[k] != '\u{1b}'
            && !is_wide_char("    (   ).   "@[k]) by {}
        assert(plain_text("    (   ).   "@));
        lemma_plain_text_width("    (   ).   "@);
        assert forall|k: int| 0 <= k < "   (___(__)  "@.len() implies "   (___(__)  "@[k] != '\u{1b}'
            && !is_wide_char("   (___(__)  "@[k]) by {}
        assert(plain_text("   (___(__)  "@));
        lemma_plain_text_width("   (___(__)  "@);
        assert forall|k: int| 0 <= k < "  \u{201a}\u{2018}\u{201a}\u{2018}\u{201a}\u{2018}\u{201a}\u{2018}   "@.len() implies "  \u{201a}\u{2018}\u{201a}\u{2018}\u{201a}\u{2018}\u{201a}\u{2018}   "@[k] != '\u{1b}'
            && !is_wide_char("  \u{201a}\u{2018}\u{201a}\u{2018}\u{201a}\u{2018}\u{201a}\u{2018}   "@[k]) by {}
        assert(plain_text("  \u{201a}\u{2018}\u{201a}\u{2018}\u{201a}\u{2018}\u{201a}\u{2018}   "@));
        lemma_plain_text_width("  \u{201a}\u{2018}\u{201a}\u{2018}\u{201a}\u{2018}\u{201a}\u{2018}   "@);
        assert forall|k: int| 0 <= k < "  \u{201a}\u{2019}\u{201a}\u{2019}\u{201a}\u{2019}\u{201a}\u{2019}   "@.len() implies "  \u{201a}\u{2019}\u{201a}\u{2019}\u{201a}\u{2019}\u{201a}\u{2019}   "@[k] != '\u{1b}'
            && !is_wide_char("  \u{201a}\u{2019}\u{201a}\u{2019}\u{201a}\u{2019}\u{201a}\u{2019}   "@[k]) by {}
        assert(plain_text("  \u{201a}\u{2019}\u{201a}\u{2019}\u{201a}\u{2019}\u{201a}\u{2019}   "@));
        lemma_plain_text_width("  \u{201a}\u{2019}\u{201a}\u{2019}\u{201a}\u{2019}\u{201a}\u{2019}   "@);
        assert("\u{1b}[38;5;240;1m     .-.     \u{1b}[0m"@ =~= directive(m0) + "     .-.     "@ + directive(m1));
        lemma_well_styled_concat(directive(m0), "     .-.     "@);
        lemma_well_styled_concat((directive(m0) + "     .-.     "@), directive(m1));
        assert(well_styled("\u{1b}[38;5;240;1m     .-.     \u{1b}[0m"@) && visible_width("\u{1b}[38;5;240;1m     .-.     \u{1b}[0m"@) == 13);
        assert("\u{1b}[38;5;240;1m    (   ).   \u{1b}[0m"@ =~= directive(m0) + "    (   ).   "@ + directive(m1));
        lemma_well_styled_concat(directive(m0), "    (   ).   "@);
        lemma_well_styled_concat((directive(m0) + "    (   ).   "@), directive(m1));
        assert(well_styled("\u{1b}[38;5;240;1m    (   ).   \u{1b}[0m"@) && visible_width("\u{1b}[38;5;240;1m    (   ).   \u{1b}[0m"@) == 13);
        assert("\u{1b}[38;5;240;1m   (___(__)  \u{1b}[0m"@ =~= directive(m0) + "   (___(__)  "@ + directive(m1));
        lemma_well_styled_concat(directive(m0), "   (___(__)  "@);
        lemma_well_styled_concat((directive(m0) + "   (___(__)  "@), directive(m1));
        assert(well_styled("\u{1b}[38;5;240;1m   (___(__)  \u{1b}[0m"@) && visible_width("\u{1b}[38;5;240;1m   (___(__)  \u{1b}[0m"@) == 13);
        assert("\u{1b}[38;5;21;1m  \u{201a}\u{2018}\u{201a}\u{2018}\u{201a}\u{2018}\u{201a}\u{2018}   \u{1b}[0m"@ =~= directive(m2) + "  \u{201a}\u{2018}\u{201a}\u{2018}\u{201a}\u{2018}\u{201a}\u{2018}   "@ + directive(m1));
        lemma_well_styled_concat(directive(m2), "  \u{201a}\u{2018}\u{201a}\u{2018}\u{201a}\u{2018}\u{201a}\u{2018}   "@);
        lemma_well_styled_concat((directive(m2) + "  \u{201a}\u{2018}\u{201a}\u{2018}\u{201a}\u{2018}\u{201a}\u{2018}   "@), directive(m1));
        assert(well_styled("\u{1b}[38;5;21;1m  \u{201a}\u{2018}\u{201a}\u{2018}\u{201a}\u{2018}\u{201a}\u{2018}   \u{1b}[0m"@) && visible_width("\u{1b}[38;5;21;1m  \u{201a}\u{2018}\u{201a}\u{2018}\u{201a}\u{2018}\u{201a}\u{2018}   \u{1b}[0m"@) == 13);
        assert("\u{1b}[38;5;21;1m  \u{201a}\u{2019}\u{201a}\u{2019}\u{201a}\u{2019}\u{201a}\u{2019}   \u{1b}[0m"@ =~= directive(m2) + "  \u{201a}\u{2019}\u{201a}\u{2019}\u{201a}\u{2019}\u{201a}\u{2019}   "@ + directive(m1));
        lemma_well_styled_concat(directive(m2), "  \u{201a}\u{2019}\u{201a}\u{2019}\u{201a}\u{2019}\u{201a}\u{2019}   "@);
        lemma_well_styled_concat((directive(m2) + "  \u{201a}\u{2019}\u{201a}\u{2019}\u{201a}\u{2019}\u{201a}\u{2019}   "@), directive(m1));
        assert(well_styled("\u{1b}[38;5;21;1m  \u{201a}\u{2019}\u{201a}\u{2019}\u{201a}\u{2019}\u{201a}\u{2019}   \u{1b}[0m"@) && visible_width("\u{1b}[38;5;21;1m  \u{201a}\u{2019}\u{201a}\u{2019}\u{201a}\u{2019}\u{201a}\u{2019}   \u{1b}[0m"@) == 13);
        assert forall|i: int|
            0 <= i < 5 implies #[trigger] well_styled(r@[i]@) && visible_width(r@[i]@)
            == 13 by {
            assert(r@[0] == "\u{1b}[38;5;240;1m     .-.     \u{1b}[0m");
            assert(r@[1] == "\u{1b}[38;5;240;1m    (   ).   \u{1b}[0m");
            assert(r@[2] == "\u{1b}[38;5;240;1m   (___(__)  \u{1b}[0m");
            assert(r@[3] == "\u{1b}[38;5;21;1m  \u{201a}\u{2018}\u{201a}\u{2018}\u{201a}\u{2018}\u{201a}\u{2018}   \u{1b}[0m");
            assert(r@[4] == "\u{1b}[38;5;21;1m  \u{201a}\u{2019}\u{201a}\u{2019}\u{201a}\u{2019}\u{201a}\u{2019}   \u{1b}[0m");
        }
        assert forall|i: int| 0 <= i < 5 implies (#[trigger] r@[i]@) == icon_heavy_rain_spec()[i] by {
            assert(r@[0] == "\u{1b}[38;5;240;1m     .-.     \u{1b}[0m");
            assert(icon_heavy_rain_spec()[0] == "\u{1b}[38;5;240;1m     .-.     \u{1b}[0m"@);
            assert(r@[1] == "\u{1b}[38;5;240;1m    (   ).   \u{1b}[0m");
            assert(icon_heavy_rain_spec()[1] == "\u{1b}[38;5;240;1m    (   ).   \u{1b}[0m"@);
            assert(r@[2] == "\u{1b}[38;5;240;1m   (___(__)  \u{1b}[0m");
            assert(icon_heavy_rain_spec()[2] == "\u{1b}[38;5;240;1m   (___(__)  \u{1b}[0m"@);
            assert(r@[3] == "\u{1b}[38;5;21;1m  \u{201a}\u{2018}\u{201a}\u{2018}\u{201a}\u{2018}\u{201a}\u{2018}   \u{1b}[0m");
            assert(icon_heavy_rain_spec()[3] == "\u{1b}[38;5;21;1m  \u{201a}\u{2018}\u{201a}\u{2018}\u{201a}\u{2018}\u{201a}\u{2018}   \u{1b}[0m"@);
            assert(r@[4] == "\u{1b}[38;5;21;1m  \u{201a}\u{2019}\u{201a}\u{2019}\u{201a}\u{2019}\u{201a}\u{2019}   \u{1b}[0m");
            assert(icon_heavy_rain_spec()[4] == "\u{1b}[38;5;21;1m  \u{201a}\u{2019}\u{201a}\u{2019}\u{201a}\u{2019}\u{201a}\u{2019}   \u{1b}[0m"@);
        }
    }
    r
}

/// The art lines of this icon.
pub open spec fn icon_light_snow_spec() -> Seq<Seq<char>> {
    seq![
        "\u{1b}[38;5;250m     .-.     \u{1b}[0m"@,
        "\u{1b}[38;5;250m    (   ).   \u{1b}[0m"@,
        "\u{1b}[38;5;250m   (___(__)  \u{1b}[0m"@,
        "\u{1b}[38;5;255m    *  *  *  \u{1b}[0m"@,
        "\u{1b}[38;5;255m   *  *  *   \u{1b}[0m"@,
    ]
}

fn icon_light_snow() -> (r: [&'static str; 5])
    ensures
        icon_lines_ok(r),
        forall|i: int| 0 <= i < 5 ==> (#[trigger] r@[i]@) == icon_light_snow_spec()[i],
{
    let r = [
        "\u{1b}[38;5;250m     .-.     \u{1b}[0m",
        "\u{1b}[38;5;250m    (   ).   \u{1b}[0m",
        "\u{1b}[38;5;250m   (___(__)  \u{1b}[0m",
        "\u{1b}[38;5;255m    *  *  *  \u{1b}[0m",
        "\u{1b}[38;5;255m   *  *  *   \u{1b}[0m",
    ];
    proof {
        reveal_strlit("\u{1b}[38;5;250m     .-.     \u{1b}[0m");
        reveal_strlit("     .-.     ");
        reveal_strlit("\u{1b}[38;5;250m    (   ).   \u{1b}[0m");
        reveal_strlit("    (   ).   ");
        reveal_strlit("\u{1b}[38;5;250m   (___(__)  \u{1b}[0m");
        reveal_strlit("   (___(__)  ");
        reveal_strlit("\u{1b}[38;5;255m    *  *  *  \u{1b}[0m");
        reveal_strlit("    *  *  *  ");
        reveal_strlit("\u{1b}[38;5;255m   *  *  *   \u{1b}[0m");
        reveal_strlit("   *  *  *   ");
        let m0 = seq!['[', '3', '8', ';', '5', ';', '2', '5', '0'];
        assert forall|k: int| 0 <= k < m0.len() implies m0[k] != 'm' by {}
        lemma_directive_zero(m0);
        let m1 = seq!['[', '0'];
        assert forall|k: int| 0 <= k < m1.len() implies m1[k] != 'm' by {}
        lemma_directive_zero(m1);
        let m2 = seq!['[', '3', '8', ';', '5', ';', '2', '5', '5'];
        assert forall|k: int| 0 <= k < m2.len() implies m2[k] != 'm' by {}
        lemma_directive_zero(m2);
        assert forall|k: int| 0 <= k < "     .-.     "@.len() implies "     .-.     "@[k] != '\u{1b}'
            && !is_wide_char("     .-.     "@[k]) by {}
        assert(plain_text("     .-.     "@));
        lemma_plain_text_width("     .-.     "@);
        assert forall|k: int| 0 <= k < "    (   ).   "@.len() implies "    (   ).   "@[k] != '\u{1b}'
            && !is_wide_char("    (   ).   "@[k]) by {}
        assert(plain_text("    (   ).   "@));
        lemma_plain_text_width("    (   ).   "@);
        assert forall|k: int| 0 <= k < "   (___(__)  "@.len() implies "   (___(__)  "@[k] != '\u{1b}'
            && !is_wide_char("   (___(__)  "@[k]) by {}
        assert(plain_text("   (___(__)  "@));
        lemma_plain_text_width("   (___(__)  "@);
        assert forall|k: int| 0 <= k < "    *  *  *  "@.len() implies "    *  *  *  "@[k] != '\u{1b}'
            && !is_wide_char("    *  *  *  "@[k]) by {}
        assert(plain_text("    *  *  *  "@));
        lemma_plain_text_width("    *  *  *  "@);
        assert forall|k: int| 0 <= k < "   *  *  *   "@.len() implies "   *  *  *   "@[k] != '\u{1b}'
            && !is_wide_char("   *  *  *   "@[k]) by {}
        assert(plain_text("   *  *  *   "@));
        lemma_plain_text_width("   *  *  *   "@);
        assert("\u{1b}[38;5;250m     .-.     \u{1b}[0m"@ =~= directive(m0) + "     .-.     "@ + directive(m1));
        lemma_well_styled_concat(directive(m0), "     .-.     "@);
        lemma_well_styled_concat((directive(m0) + "     .-.     "@), directive(m1));
        assert(well_styled("\u{1b}[38;5;250m     .-.     \u{1b}[0m"@) && visible_width("\u{1b}[38;5;250m     .-.     \u{1b}[0m"@) == 13);
        assert("\u{1b}[38;5;250m    (   ).   \u{1b}[0m"@ =~= directive(m0) + "    (   ).   "@ + directive(m1));
        lemma_well_styled_concat(directive(m0), "    (   ).   "@);
        lemma_well_styled_concat((directive(m0) + "    (   ).   "@), directive(m1));
        assert(well_styled("\u{1b}[38;5;250m    (   ).   \u{1b}[0m"@) && visible_width("\u{1b}[38;5;250m    (   ).   \u{1b}[0m"@) == 13);
        assert("\u{1b}[38;5;250m   (___(__)  \u{1b}[0m"@ =~= directive(m0) + "   (___(__)  "@ + directive(m1));
        lemma_well_styled_concat(directive(m0), "   (___(__)  "@);
        lemma_well_styled_concat((directive(m0) + "   (___(__)  "@), directive(m1));
        assert(well_styled("\u{1b}[38;5;250m   (___(__)  \u{1b}[0m"@) && visible_width("\u{1b}[38;5;250m   (___(__)  \u{1b}[0m"@) == 13);
        assert("\u{1b}[38;5;255m    *  *  *  \u{1b}[0m"@ =~= directive(m2) + "    *  *  *  "@ + directive(m1));
        lemma_well_styled_concat(directive(m2), "    *  *  *  "@);
        lemma_well_styled_concat((directive(m2) + "    *  *  *  "@), directive(m1));
        assert(well_styled("\u{1b}[38;5;255m    *  *  *  \u{1b}[0m"@) && visible_width("\u{1b}[38;5;255m    *  *  *  \u{1b}[0m"@) == 13);
        assert("\u{1b}[38;5;255m   *  *  *   \u{1b}[0m"@ =~= directive(m2) + "   *  *  *   "@ + directive(m1));
        lemma_well_styled_concat(directive(m2), "   *  *  *   "@);
        lemma_well_styled_concat((directive(m2) + "   *  *  *   "@), directive(m1));
        assert(well_styled("\u{1b}[38;5;255m   *  *  *   \u{1b}[0m"@) && visible_width("\u{1b}[38;5;255m   *  *  *   \u{1b}[0m"@) == 13);
        assert forall|i: int|
            0 <= i < 5 implies #[trigger] well_styled(r@[i]@) && visible_width(r@[i]@)
            == 13 by {
            assert(r@[0] == "\u{1b}[38;5;250m     .-.     \u{1b}[0m");
            assert(r@[1] == "\u{1b}[38;5;250m    (   ).   \u{1b}[0m");
            assert(r@[2] == "\u{1b}[38;5;250m   (___(__)  \u{1b}[0m");
            assert(r@[3] == "\u{1b}[38;5;255m    *  *  *  \u{1b}[0m");
            assert(r@[4] == "\u{1b}[38;5;255m   *  *  *   \u{1b}[0m");
        }
        assert forall|i: int| 0 <= i < 5 implies (#[trigger] r@[i]@) == icon_light_snow_spec()[i] by {
            assert(r@[0] == "\u{1b}[38;5;250m     .-.     \u{1b}[0m");
            assert(icon_light_snow_spec()[0] == "\u{1b}[38;5;250m     .-.     \u{1b}[0m"@);
            assert(r@[1] == "\u{1b}[38;5;250m    (   ).   \u{1b}[0m");
            assert(icon_light_snow_spec()[1] == "\u{1b}[38;5;250m    (   ).   \u{1b}[0m"@);
            assert(r@[2] == "\u{1b}[38;5;250m   (___(__)  \u{1b}[0m");
            assert(icon_light_snow_spec()[2] == "\u{1b}[38;5;250m   (___(__)  \u{1b}[0m"@);
            assert(r@[3] == "\u{1b}[38;5;255m    *  *  *  \u{1b}[0m");
            assert(icon_light_snow_spec()[3] == "\u{1b}[38;5;255m    *  *  *  \u{1b}[0m"@);
            assert(r@[4] == "\u{1b}[38;5;255m   *  *  *   \u{1b}[0m");
            assert(icon_light_snow_spec()[4] == "\u{1b}[38;5;255m   *  *  *   \u{1b}[0m"@);
        }
    }
    r
}

/// The art lines of this icon.
pub open spec fn icon_heavy_snow_spec() -> Seq<Seq<char>> {
    seq![
        "\u{1b}[38;5;240;1m     .-.     \u{1b}[0m"@,
        "\u{1b}[38;5;240;1m    (   ).   \u{1b}[0m"@,
        "\u{1b}[38;5;240;1m   (___(__)  \u{1b}[0m"@,
        "\u{1b}[38;5;255;1m   * * * *   \u{1b}[0m"@,
        "\u{1b}[38;5;255;1m  * * * *    \u{1b}[0m"@,
    ]
}

fn icon_heavy_snow() -> (r: [&'static str; 5])
    ensures
        icon_lines_ok(r),
        forall|i: int| 0 <= i < 5 ==> (#[trigger] r@[i]@) == icon_heavy_snow_spec()[i],
{
    let r = [
        "\u{1b}[38;5;240;1m     .-.     \u{1b}[0m",
        "\u{1b}[38;5;240;1m    (   ).   \u{1b}[0m",
        "\u{1b}[38;5;240;1m   (___(__)  \u{1b}[0m",
        "\u{1b}[38;5;255;1m   * * * *   \u{1b}[0m",
        "\u{1b}[38;5;255;1m  * * * *    \u{1b}[0m",
    ];
    proof {
        reveal_strlit("\u{1b}[38;5;240;1m     .-.     \u{1b}[0m");
        reveal_strlit("     .-.     ");
        reveal_strlit("\u{1b}[38;5;240;1m    (   ).   \u{1b}[0m");
        reveal_strlit("    (   ).   ");
        reveal_strlit("\u{1b}[38;5;240;1m   (___(__)  \u{1b}[0m");
        reveal_strlit("   (___(__)  ");
        reveal_strlit("\u{1b}[38;5;255;1m   * * * *   \u{1b}[0m");
        reveal_strlit("   * * * *   ");
        reveal_strlit("\u{1b}[38;5;255;1m  * * * *    \u{1b}[0m");
        reveal_strlit("  * * * *    ");
        let m0 = seq!['[', '3', '8', ';', '5', ';', '2', '4', '0', ';', '1'];
        assert forall|k: int| 0 <= k < m0.len() implies m0[k] != 'm' by {}
        lemma_directive_zero(m0);
        let m1 = seq!['[', '0'];
        assert forall|k: int| 0 <= k < m1.len() implies m1[k] != 'm' by {}
        lemma_directive_zero(m1);
        let m2 = seq!['[', '3', '8', ';', '5', ';', '2', '5', '5', ';', '1'];
        assert forall|k: int| 0 <= k < m2.len() implies m2[k] != 'm' by {}
        lemma_directive_zero(m2);
        assert forall|k: int| 0 <= k < "     .-.     "@.len() implies "     .-.     "@[k] != '\u{1b}'
            && !is_wide_char("     .-.     "@[k]) by {}
        assert(plain_text("     .-.     "@));
        lemma_plain_text_width("     .-.     "@);
        assert forall|k: int| 0 <= k < "    (   ).   "@.len() implies "    (   ).   "@[k] != '\u{1b}'
            && !is_wide_char("    (   ).   "@[k]) by {}
        assert(plain_text("    (   ).   "@));
        lemma_plain_text_width("    (   ).   "@);
        assert forall|k: int| 0 <= k < "   (___(__)  "@.len() implies "   (___(__)  "@[k] != '\u{1b}'
            && !is_wide_char("   (___(__)  "@[k]) by {}
        assert(plain_text("   (___(__)  "@));
        lemma_plain_text_width("   (___(__)  "@);
        assert forall|k: int| 0 <= k < "   * * * *   "@.len() implies "   * * * *   "@[k] != '\u{1b}'
            && !is_wide_char("   * * * *   "@[k]) by {}
        assert(plain_text("   * * * *   "@));
        lemma_plain_text_width("   * * * *   "@);
        assert forall|k: int| 0 <= k < "  * * * *    "@.len() implies "  * * * *    "@[k] != '\u{1b}'
            && !is_wide_char("  * * * *    "@[k]) by {}
        assert(plain_text("  * * * *    "@));
        lemma_plain_text_width("  * * * *    "@);
        assert("\u{1b}[38;5;240;1m     .-.     \u{1b}[0m"@ =~= directive(m0) + "     .-.     "@ + directive(m1));
        lemma_well_styled_concat(directive(m0), "     .-.     "@);
        lemma_well_styled_concat((directive(m0) + "     .-.     "@), directive(m1));
        assert(well_styled("\u{1b}[38;5;240;1m     .-.     \u{1b}[0m"@) && visible_width("\u{1b}[38;5;240;1m     .-.     \u{1b}[0m"@) == 13);
        assert("\u{1b}[38;5;240;1m    (   ).   \u{1b}[0m"@ =~= directive(m0) + "    (   ).   "@ + directive(m1));
        lemma_well_styled_concat(directive(m0), "    (   ).   "@);
        lemma_well_styled_concat((directive(m0) + "    (   ).   "@), directive(m1));
        assert(well_styled("\u{1b}[38;5;240;1m    (   ).   \u{1b}[0m"@) && visible_width("\u{1b}[38;5;240;1m    (   ).   \u{1b}[0m"@) == 13);
        assert("\u{1b}[38;5;240;1m   (___(__)  \u{1b}[0m"@ =~= directive(m0) + "   (___(__)  "@ + directive(m1));
        lemma_well_styled_concat(directive(m0), "   (___(__)  "@);
        lemma_well_styled_concat((directive(m0) + "   (___(__)  "@), directive(m1));
        assert(well_styled("\u{1b}[38;5;240;1m   (___(__)  \u{1b}[0m"@) && visible_width("\u{1b}[38;5;240;1m   (___(__)  \u{1b}[0m"@) == 13);
        assert("\u{1b}[38;5;255;1m   * * * *   \u{1b}[0m"@ =~= directive(m2) + "   * * * *   "@ + directive(m1));
        lemma_well_styled_concat(directive(m2), "   * * * *   "@);
        lemma_well_styled_concat((directive(m2) + "   * * * *   "@), directive(m1));
        assert(well_styled("\u{1b}[38;5;255;1m   * * * *   \u{1b}[0m"@) && visible_width("\u{1b}[38;5;255;1m   * * * *   \u{1b}[0m"@) == 13);
        assert("\u{1b}[38;5;255;1m  * * * *    \u{1b}[0m"@ =~= directive(m2) + "  * * * *    "@ + directive(m1));
        lemma_well_styled_concat(directive(m2), "  * * * *    "@);
        lemma_well_styled_concat((directive(m2) + "  * * * *    "@), directive(m1));
        assert(well_styled("\u{1b}[38;5;255;1m  * * * *    \u{1b}[0m"@) && visible_width("\u{1b}[38;5;255;1m  * * * *    \u{1b}[0m"@) == 13);
        assert forall|i: int|
            0 <= i < 5 implies #[trigger] well_styled(r@[i]@) && visible_width(r@[i]@)
            == 13 by {
            assert(r@[0] == "\u{1b}[38;5;240;1m     .-.     \u{1b}[0m");
            assert(r@[1] == "\u{1b}[38;5;240;1m    (   ).   \u{1b}[0m");
            assert(r@[2] == "\u{1b}[38;5;240;1m   (___(__)  \u{1b}[0m");
            assert(r@[3] == "\u{1b}[38;5;255;1m   * * * *   \u{1b}[0m");
            assert(r@[4] == "\u{1b}[38;5;255;1m  * * * *    \u{1b}[0m");
        }
        assert forall|i: int| 0 <= i < 5 implies (#[trigger] r@[i]@) == icon_heavy_snow_spec()[i] by {
            assert(r@[0] == "\u{1b}[38;5;240;1m     .-.     \u{1b}[0m");
            assert(icon_heavy_snow_spec()[0] == "\u{1b}[38;5;240;1m     .-.     \u{1b}[0m"@);
            assert(r@[1] == "\u{1b}[38;5;240;1m    (   ).   \u{1b}[0m");
            assert(icon_heavy_snow_spec()[1] == "\u{1b}[38;5;240;1m    (   ).   \u{1b}[0m"@);
            assert(r@[2] == "\u{1b}[38;5;240;1m   (___(__)  \u{1b}[0m");
            assert(icon_heavy_snow_spec()[2] == "\u{1b}[38;5;240;1m   (___(__)  \u{1b}[0m"@);
            assert(r@[3] == "\u{1b}[38;5;255;1m   * * * *   \u{1b}[0m");
            assert(icon_heavy_snow_spec()[3] == "\u{1b}[38;5;255;1m   * * * *   \u{1b}[0m"@);
            assert(r@[4] == "\u{1b}[38;5;255;1m  * * * *    \u{1b}[0m");
            assert(icon_heavy_snow_spec()[4] == "\u{1b}[38;5;255;1m  * * * *    \u{1b}[0m"@);
        }
    }
    r
}

/// The art lines of this icon.
pub open spec fn icon_light_sleet_spec() -> Seq<Seq<char>> {
    seq![
        "\u{1b}[38;5;250m     .-.     \u{1b}[0m"@,
        "\u{1b}[38;5;250m    (   ).   \u{1b}[0m"@,
        "\u{1b}[38;5;250m   (___(__)  \u{1b}[0m"@,
        "\u{1b}[38;5;111m    \u{2018} \u{1b}[38;5;255m*\u{1b}[38;5;111m \u{2018} \u{1b}[38;5;255m*  \u{1b}[0m"@,
        "\u{1b}[38;5;255m   *\u{1b}[38;5;111m \u{2018} \u{1b}[38;5;255m*\u{1b}[38;5;111m \u{2018}   \u{1b}[0m"@,
    ]
}

fn icon_light_sleet() -> (r: [&'static str; 5])
    ensures
        icon_lines_ok(r),
        forall|i: int| 0 <= i < 5 ==> (#[trigger] r@[i]@) == icon_light_sleet_spec()[i],
{
    let r = [
        "\u{1b}[38;5;250m     .-.     \u{1b}[0m",
        "\u{1b}[38;5;250m    (   ).   \u{1b}[0m",
        "\u{1b}[38;5;250m   (___(__)  \u{1b}[0m",
        "\u{1b}[38;5;111m    \u{2018} \u{1b}[38;5;255m*\u{1b}[38;5;111m \u{2018} \u{1b}[38;5;255m*  \u{1b}[0m",
        "\u{1b}[38;5;255m   *\u{1b}[38;5;111m \u{2018} \u{1b}[38;5;255m*\u{1b}[38;5;111m \u{2018}   \u{1b}[0m",
    ];
    proof {
        reveal_strlit("\u{1b}[38;5;250m     .-.     \u{1b}[0m");
        reveal_strlit("     .-.     ");
        reveal_strlit("\u{1b}[38;5;250m    (   ).   \u{1b}[0m");
        reveal_strlit("    (   ).   ");
        reveal_strlit("\u{1b}[38;5;250m   (___(__)  \u{1b}[0m");
        reveal_strlit("   (___(__)  ");
        reveal_strlit("\u{1b}[38;5;111m    \u{2018} \u{1b}[38;5;255m*\u{1b}[38;5;111m \u{2018} \u{1b}[38;5;255m*  \u{1b}[0m");
        reveal_strlit("    \u{2018} ");
        reveal_strlit("*");
        reveal_strlit(" \u{2018} ");
        reveal_strlit("*  ");
        reveal_strlit("\u{1b}[38;5;255m   *\u{1b}[38;5;111m \u{2018} \u{1b}[38;5;255m*\u{1b}[38;5;111m \u{2018}   \u{1b}[0m");
        reveal_strlit("   *");
        reveal_strlit(" \u{2018}   ");
        let m0 = seq!['[', '3', '8', ';', '5', ';', '2', '5', '0'];
        assert forall|k: int| 0 <= k < m0.len() implies m0[k] != 'm' by {}
        lemma_directive_zero(m0);
        let m1 = seq!['[', '0'];
        assert forall|k: int| 0 <= k < m1.len() implies m1[k] != 'm' by {}
        lemma_directive_zero(m1);
        let m2 = seq!['[', '3', '8', ';', '5', ';', '1', '1', '1'];
        assert forall|k: int| 0 <= k < m2.len() implies m2[k] != 'm' by {}
        lemma_directive_zero(m2);
        let m3 = seq!['[', '3', '8', ';', '5', ';', '2', '5', '5'];
        assert forall|k: int| 0 <= k < m3.len() implies m3[k] != 'm' by {}
        lemma_directive_zero(m3);
        assert forall|k: int| 0 <= k < "     .-.     "@.len() implies "     .-.     "@[k] != '\u{1b}'
            && !is_wide_char("     .-.     "@[k]) by {}
        assert(plain_text("     .-.     "@));
        lemma_plain_text_width("     .-.     "@);
        assert forall|k: int| 0 <= k < "    (   ).   "@.len() implies "    (   ).   "@[k] != '\u{1b}'
            && !is_wide_char("    (   ).   "@[k]) by {}
        assert(plain_text("    (   ).   "@));
        lemma_plain_text_width("    (   ).   "@);
        assert forall|k: int| 0 <= k < "   (___(__)  "@.len() implies "   (___(__)  "@[k] != '\u{1b}'
            && !is_wide_char("   (___(__)  "@[k]) by {}
        assert(plain_text("   (___(__)  "@));
        lemma_plain_text_width("   (___(__)  "@);
        assert forall|k: int| 0 <= k < "    \u{2018} "@.len() implies "    \u{2018} "@[k] != '\u{1b}'
            && !is_wide_char("    \u{2018} "@[k]) by {}
        assert(plain_text("    \u{2018} "@));
        lemma_plain_text_width("    \u{2018} "@);
        assert forall|k: int| 0 <= k < "*"@.len() implies "*"@[k] != '\u{1b}'
            && !is_wide_char("*"@[k]) by {}
        assert(plain_text("*"@));
        lemma_plain_text_width("*"@);
        assert forall|k: int| 0 <= k < " \u{2018} "@.len() implies " \u{2018} "@[k] != '\u{1b}'
            && !is_wide_char(" \u{2018} "@[k]) by {}
        assert(plain_text(" \u{2018} "@));
        lemma_plain_text_width(" \u{2018} "@);
        assert forall|k: int| 0 <= k < "*  "@.len() implies "*  "@[k] != '\u{1b}'
            && !is_wide_char("*  "@[k]) by {}
        assert(plain_text("*  "@));
        lemma_plain_text_width("*  "@);
        assert forall|k: int| 0 <= k < "   *"@.len() implies "   *"@[k] != '\u{1b}'
            && !is_wide_char("   *"@[k]) by {}
        assert(plain_text("   *"@));
        lemma_plain_text_width("   *"@);
        assert forall|k: int| 0 <= k < " \u{2018}   "@.len() implies " \u{2018}   "@[k] != '\u{1b}'
            && !is_wide_char(" \u{2018}   "@[k]) by {}
        assert(plain_text(" \u{2018}   "@));
        lemma_plain_text_width(" \u{2018}   "@);
        assert("\u{1b}[38;5;250m     .-.     \u{1b}[0m"@ =~= directive(m0) + "     .-.     "@ + directive(m1));
        lemma_well_styled_concat(directive(m0), "     .-.     "@);
        lemma_well_styled_concat((directive(m0) + "     .-.     "@), directive(m1));
        assert(well_styled("\u{1b}[38;5;250m     .-.     \u{1b}[0m"@) && visible_width("\u{1b}[38;5;250m     .-.     \u{1b}[0m"@) == 13);
        assert("\u{1b}[38;5;250m    (   ).   \u{1b}[0m"@ =~= directive(m0) + "    (   ).   "@ + directive(m1));
        lemma_well_styled_concat(directive(m0), "    (   ).   "@);
        lemma_well_styled_concat((directive(m0) + "    (   ).   "@), directive(m1));
        assert(well_styled("\u{1b}[38;5;250m    (   ).   \u{1b}[0m"@) && visible_width("\u{1b}[38;5;250m    (   ).   \u{1b}[0m"@) == 13);
        assert("\u{1b}[38;5;250m   (___(__)  \u{1b}[0m"@ =~= directive(m0) + "   (___(__)  "@ + directive(m1));
        lemma_well_styled_concat(directive(m0), "   (___(__)  "@);
        lemma_well_styled_concat((directive(m0) + "   (___(__)  "@), directive(m1));
        assert(well_styled("\u{1b}[38;5;250m   (___(__)  \u{1b}[0m"@) && visible_width("\u{1b}[38;5;250m   (___(__)  \u{1b}[0m"@) == 13);
        assert("\u{1b}[38;5;111m    \u{2018} \u{1b}[38;5;255m*\u{1b}[38;5;111m \u{2018} \u{1b}[38;5;255m*  \u{1b}[0m"@ =~= directive(m2) + "    \u{2018} "@ + directive(m3) + "*"@ + directive(m2) + " \u{2018} "@ + directive(m3) + "*  "@ + directive(m1));
        lemma_well_styled_concat(directive(m2), "    \u{2018} "@);
        lemma_well_styled_concat((directive(m2) + "    \u{2018} "@), directive(m3));
        lemma_well_styled_concat(((directive(m2) + "    \u{2018} "@) + directive(m3)), "*"@);
        lemma_well_styled_concat((((directive(m2) + "    \u{2018} "@) + directive(m3)) + "*"@), directive(m2));
        lemma_well_styled_concat(((((directive(m2) + "    \u{2018} "@) + directive(m3)) + "*"@) + directive(m2)), " \u{2018} "@);
        lemma_well_styled_concat((((((directive(m2) + "    \u{2018} "@) + directive(m3)) + "*"@) + directive(m2)) + " \u{2018} "@), directive(m3));
        lemma_well_styled_concat(((((((directive(m2) + "    \u{2018} "@) + directive(m3)) + "*"@) + directive(m2)) + " \u{2018} "@) + directive(m3)), "*  "@);
        lemma_well_styled_concat((((((((directive(m2) + "    \u{2018} "@) + directive(m3)) + "*"@) + directive(m2)) + " \u{2018} "@) + directive(m3)) + "*  "@), directive(m1));
        assert(well_styled("\u{1b}[38;5;111m    \u{2018} \u{1b}[38;5;255m*\u{1b}[38;5;111m \u{2018} \u{1b}[38;5;255m*  \u{1b}[0m"@) && visible_width("\u{1b}[38;5;111m    \u{2018} \u{1b}[38;5;255m*\u{1b}[38;5;111m \u{2018} \u{1b}[38;5;255m*  \u{1b}[0m"@) == 13);
        assert("\u{1b}[38;5;255m   *\u{1b}[38;5;111m \u{2018} \u{1b}[38;5;255m*\u{1b}[38;5;111m \u{2018}   \u{1b}[0m"@ =~= directive(m3) + "   *"@ + directive(m2) + " \u{2018} "@ + directive(m3) + "*"@ + directive(m2) + " \u{2018}   "@ + directive(m1));
        lemma_well_styled_concat(directive(m3), "   *"@);
        lemma_well_styled_concat((directive(m3) + "   *"@), directive(m2));
        lemma_well_styled_concat(((directive(m3) + "   *"@) + directive(m2)), " \u{2018} "@);
        lemma_well_styled_concat((((directive(m3) + "   *"@) + directive(m2)) + " \u{2018} "@), directive(m3));
        lemma_well_styled_concat(((((directive(m3) + "   *"@) + directive(m2)) + " \u{2018} "@) + directive(m3)), "*"@);
        lemma_well_styled_concat((((((directive(m3) + "   *"@) + directive(m2)) + " \u{2018} "@) + directive(m3)) + "*"@), directive(m2));
        lemma_well_styled_concat(((((((directive(m3) + "   *"@) + directive(m2)) + " \u{2018} "@) + directive(m3)) + "*"@) + directive(m2)), " \u{2018}   "@);
        lemma_well_styled_concat((((((((directive(m3) + "   *"@) + directive(m2)) + " \u{2018} "@) + directive(m3)) + "*"@) + directive(m2)) + " \u{2018}   "@), directive(m1));
        assert(well_styled("\u{1b}[38;5;255m   *\u{1b}[38;5;111m \u{2018} \u{1b}[38;5;255m*\u{1b}[38;5;111m \u{2018}   \u{1b}[0m"@) && visible_width("\u{1b}[38;5;255m   *\u{1b}[38;5;111m \u{2018} \u{1b}[38;5;255m*\u{1b}[38;5;111m \u{2018}   \u{1b}[0m"@) == 13);
        assert forall|i: int|
            0 <= i < 5 implies #[trigger] well_styled(r@[i]@) && visible_width(r@[i]@)
            == 13 by {
            assert(r@[0] == "\u{1b}[38;5;250m     .-.     \u{1b}[0m");
            assert(r@[1] == "\u{1b}[38;5;250m    (   ).   \u{1b}[0m");
            assert(r@[2] == "\u{1b}[38;5;250m   (___(__)  \u{1b}[0m");
            assert(r@[3] == "\u{1b}[38;5;111m    \u{2018} \u{1b}[38;5;255m*\u{1b}[38;5;111m \u{2018} \u{1b}[38;5;255m*  \u{1b}[0m");
            assert(r@[4] == "\u{1b}[38;5;255m   *\u{1b}[38;5;111m \u{2018} \u{1b}[38;5;255m*\u{1b}[38;5;111m \u{2018}   \u{1b}[0m");
        }
        assert forall|i: int| 0 <= i < 5 implies (#[trigger] r@[i]@) == icon_light_sleet_spec()[i] by {
            assert(r@[0] == "\u{1b}[38;5;250m     .-.     \u{1b}[0m");
            assert(icon_light_sleet_spec()[0] == "\u{1b}[38;5;250m     .-.     \u{1b}[0m"@);
            assert(r@[1] == "\u{1b}[38;5;250m    (   ).   \u{1b}[0m");
            assert(icon_light_sleet_spec()[1] == "\u{1b}[38;5;250m    (   ).   \u{1b}[0m"@);
            assert(r@[2] == "\u{1b}[38;5;250m   (___(__)  \u{1b}[0m");
            assert(icon_light_sleet_spec()[2] == "\u{1b}[38;5;250m   (___(__)  \u{1b}[0m"@);
            assert(r@[3] == "\u{1b}[38;5;111m    \u{2018} \u{1b}[38;5;255m*\u{1b}[38;5;111m \u{2018} \u{1b}[38;5;255m*  \u{1b}[0m");
            assert(icon_light_sleet_spec()[3] == "\u{1b}[38;5;111m    \u{2018} \u{1b}[38;5;255m*\u{1b}[38;5;111m \u{2018} \u{1b}[38;5;255m*  \u{1b}[0m"@);
            assert(r@[4] == "\u{1b}[38;5;255m   *\u{1b}[38;5;111m \u{2018} \u{1b}[38;5;255m*\u{1b}[38;5;111m \u{2018}   \u{1b}[0m");
            assert(icon_light_sleet_spec()[4] == "\u{1b}[38;5;255m   *\u{1b}[38;5;111m \u{2018} \u{1b}[38;5;255m*\u{1b}[38;5;111m \u{2018}   \u{1b}[0m"@);
        }
    }
    r
}

/// The art lines of this icon.
pub open spec fn icon_fog_spec() -> Seq<Seq<char>> {
    seq![
        "             "@,
        "\u{1b}[38;5;251m _ - _ - _ - \u{1b}[0m"@,
        "\u{1b}[38;5;251m  _ - _ - _  \u{1b}[0m"@,
        "\u{1b}[38;5;251m _ - _ - _ - \u{1b}[0m"@,
        "             "@,
    ]
}

fn icon_fog() -> (r: [&'static str; 5])
    ensures
        icon_lines_ok(r),
        forall|i: int| 0 <= i < 5 ==> (#[trigger] r@[i]@) == icon_fog_spec()[i],
{
    let r = [
        "             ",
        "\u{1b}[38;5;251m _ - _ - _ - \u{1b}[0m",
        "\u{1b}[38;5;251m  _ - _ - _  \u{1b}[0m",
        "\u{1b}[38;5;251m _ - _ - _ - \u{1b}[0m",
        "             ",
    ];
    proof {
        reveal_strlit("             ");
        reveal_strlit("\u{1b}[38;5;251m _ - _ - _ - \u{1b}[0m");
        reveal_strlit(" _ - _ - _ - ");
        reveal_strlit("\u{1b}[38;5;251m  _ - _ - _  \u{1b}[0m");
        reveal_strlit("  _ - _ - _  ");
        let m0 = seq!['[', '3', '8', ';', '5', ';', '2', '5', '1'];
        assert forall|k: int| 0 <= k < m0.len() implies m0[k] != 'm' by {}
        lemma_directive_zero(m0);
        let m1 = seq!['[', '0'];
        assert forall|k: int| 0 <= k < m1.len() implies m1[k] != 'm' by {}
        lemma_directive_zero(m1);
        assert forall|k: int| 0 <= k < "             "@.len() implies "             "@[k] != '\u{1b}'
            && !is_wide_char("             "@[k]) by {}
        assert(plain_text("             "@));
        lemma_plain_text_width("             "@);
        assert forall|k: int| 0 <= k < " _ - _ - _ - "@.len() implies " _ - _ - _ - "@[k] != '\u{1b}'
            && !is_wide_char(" _ - _ - _ - "@[k]) by {}
        assert(plain_text(" _ - _ - _ - "@));
        lemma_plain_text_width(" _ - _ - _ - "@);
        assert forall|k: int| 0 <= k < "  _ - _ - _  "@.len() implies "  _ - _ - _  "@[k] != '\u{1b}'
            && !is_wide_char("  _ - _ - _  "@[k]) by {}
        assert(plain_text("  _ - _ - _  "@));
        lemma_plain_text_width("  _ - _ - _  "@);
        assert("\u{1b}[38;5;251m _ - _ - _ - \u{1b}[0m"@ =~= directive(m0) + " _ - _ - _ - "@ + directive(m1));
        lemma_well_styled_concat(directive(m0), " _ - _ - _ - "@);
        lemma_well_styled_concat((directive(m0) + " _ - _ - _ - "@), directive(m1));
        assert(well_styled("\u{1b}[38;5;251m _ - _ - _ - \u{1b}[0m"@) && visible_width("\u{1b}[38;5;251m _ - _ - _ - \u{1b}[0m"@) == 13);
        assert("\u{1b}[38;5;251m  _ - _ - _  \u{1b}[0m"@ =~= directive(m0) + "  _ - _ - _  "@ + directive(m1));
        lemma_well_styled_concat(directive(m0), "  _ - _ - _  "@);
        lemma_well_styled_concat((directive(m0) + "  _ - _ - _  "@), directive(m1));
        assert(well_styled("\u{1b}[38;5;251m  _ - _ - _  \u{1b}[0m"@) && visible_width("\u{1b}[38;5;251m  _ - _ - _  \u{1b}[0m"@) == 13);
        assert forall|i: int|
            0 <= i < 5 implies #[trigger] well_styled(r@[i]@) && visible_width(r@[i]@)
            == 13 by {
            assert(r@[0] == "             ");
            assert(r@[1] == "\u{1b}[38;5;251m _ - _ - _ - \u{1b}[0m");
            assert(r@[2] == "\u{1b}[38;5;251m  _ - _ - _  \u{1b}[0m");
            assert(r@[3] == "\u{1b}[38;5;251m _ - _ - _ - \u{1b}[0m");
            assert(r@[4] == "             ");
        }
        assert forall|i: int| 0 <= i < 5 implies (#[trigger] r@[i]@) == icon_fog_spec()[i] by {
            assert(r@[0] == "             ");
            assert(icon_fog_spec()[0] == "             "@);
            assert(r@[1] == "\u{1b}[38;5;251m _ - _ - _ - \u{1b}[0m");
            assert(icon_fog_spec()[1] == "\u{1b}[38;5;251m _ - _ - _ - \u{1b}[0m"@);
            assert(r@[2] == "\u{1b}[38;5;251m  _ - _ - _  \u{1b}[0m");
            assert(icon_fog_spec()[2] == "\u{1b}[38;5;251m  _ - _ - _  \u{1b}[0m"@);
            assert(r@[3] == "\u{1b}[38;5;251m _ - _ - _ - \u{1b}[0m");
            assert(icon_fog_spec()[3] == "\u{1b}[38;5;251m _ - _ - _ - \u{1b}[0m"@);
            assert(r@[4] == "             ");
            assert(icon_fog_spec()[4] == "             "@);
        }
    }
    r
}

/// The art lines shown for a condition code: the fixed lookup table,
/// with every unlisted code mapped to the placeholder.
pub open spec fn icon_spec(code: int) -> Seq<Seq<char>> {
    if code == 113 {
        icon_sunny_spec()
    } else if code == 116 {
        icon_partly_cloudy_spec()
    } else if code == 119 {
        icon_cloudy_spec()
    } else if code == 122 {
        icon_very_cloudy_spec()
    } else if code == 143 {
        icon_fog_spec()
    } else if code == 176 {
        icon_light_showers_spec()
    } else if code == 179 {
        icon_light_sleet_showers_spec()
    } else if code == 182 {
        icon_light_sleet_spec()
    } else if code == 185 {
        icon_light_sleet_spec()
    } else if code == 200 {
        icon_thundery_showers_spec()
    } else if code == 227 {
        icon_light_snow_spec()
    } else if code == 230 {
        icon_heavy_snow_spec()
    } else if code == 248 {
        icon_fog_spec()
    } else if code == 260 {
        icon_fog_spec()
    } else if code == 263 {
        icon_light_showers_spec()
    } else if code == 266 {
        icon_light_rain_spec()
    } else if code == 281 {
        icon_light_sleet_spec()
    } else if code == 284 {
        icon_light_sleet_spec()
    } else if code == 293 {
        icon_light_rain_spec()
    } else if code == 296 {
        icon_light_rain_spec()
    } else if code == 299 {
        icon_heavy_showers_spec()
    } else if code == 302 {
        icon_heavy_rain_spec()
    } else if code == 305 {
        icon_heavy_showers_spec()
    } else if code == 308 {
        icon_heavy_rain_spec()
    } else if code == 311 {
        icon_light_sleet_spec()
    } else if code == 314 {
        icon_light_sleet_spec()
    } else if code == 317 {
        icon_light_sleet_spec()
    } else if code == 320 {
        icon_light_snow_spec()
    } else if code == 323 {
        icon_light_snow_showers_spec()
    } else if code == 326 {
        icon_light_snow_showers_spec()
    } else if code == 329 {
        icon_heavy_snow_spec()
    } else if code == 332 {
        icon_heavy_snow_spec()
    } else if code == 335 {
        icon_heavy_snow_showers_spec()
    } else if code == 338 {
        icon_heavy_snow_spec()
    } else if code == 350 {
        icon_light_sleet_spec()
    } else if code == 353 {
        icon_light_showers_spec()
    } else if code == 356 {
        icon_heavy_showers_spec()
    } else if code == 359 {
        icon_heavy_rain_spec()
    } else if code == 362 {
        icon_light_sleet_showers_spec()
    } else if code == 365 {
        icon_light_sleet_showers_spec()
    } else if code == 368 {
        icon_light_snow_showers_spec()
    } else if code == 371 {
        icon_heavy_snow_showers_spec()
    } else if code == 374 {
        icon_light_sleet_showers_spec()
    } else if code == 377 {
        icon_light_sleet_spec()
    } else if code == 386 {
        icon_thundery_showers_spec()
    } else if code == 389 {
        icon_thundery_heavy_rain_spec()
    } else if code == 392 {
        icon_thundery_snow_showers_spec()
    } else if code == 395 {
        icon_heavy_snow_showers_spec()
    } else {
        icon_unknown_spec()
    }
}

/// The art block for a weather-condition code; unknown codes fall back
/// to the placeholder icon.
pub fn code_to_icon(code: i32) -> (r: [&'static str; 5])
    ensures
        icon_lines_ok(r),
        forall|i: int| 0 <= i < 5 ==> (#[trigger] r@[i]@) == icon_spec(code as int)[i],
{
    match code {
        113 => icon_sunny(),
        116 => icon_partly_cloudy(),
        119 => icon_cloudy(),
        122 => icon_very_cloudy(),
        143 => icon_fog(),
        176 => icon_light_showers(),
        179 => icon_light_sleet_showers(),
        182 => icon_light_sleet(),
        185 => icon_light_sleet(),
        200 => icon_thundery_showers(),
        227 => icon_light_snow(),
        230 => icon_heavy_snow(),
        248 => icon_fog(),
        260 => icon_fog(),
        263 => icon_light_showers(),
        266 => icon_light_rain(),
        281 => icon_light_sleet(),
        284 => icon_light_sleet(),
        293 => icon_light_rain(),
        296 => icon_light_rain(),
        299 => icon_heavy_showers(),
        302 => icon_heavy_rain(),
        305 => icon_heavy_showers(),
        308 => icon_heavy_rain(),
        311 => icon_light_sleet(),
        314 => icon_light_sleet(),
        317 => icon_light_sleet(),
        320 => icon_light_snow(),
        323 => icon_light_snow_showers(),
        326 => icon_light_snow_showers(),
        329 => icon_heavy_snow(),
        332 => icon_heavy_snow(),
        335 => icon_heavy_snow_showers(),
        338 => icon_heavy_snow(),
        350 => icon_light_sleet(),
        353 => icon_light_showers(),
        356 => icon_heavy_showers(),
        359 => icon_heavy_rain(),
        362 => icon_light_sleet_showers(),
        365 => icon_light_sleet_showers(),
        368 => icon_light_snow_showers(),
        371 => icon_heavy_snow_showers(),
        374 => icon_light_sleet_showers(),
        377 => icon_light_sleet(),
        386 => icon_thundery_showers(),
        389 => icon_thundery_heavy_rain(),
        392 => icon_thundery_snow_showers(),
        395 => icon_heavy_snow_showers(),
        _ => icon_unknown(),
    }
}

/// The arrow glyph shown for a 16-point compass direction; two compass
/// points share each of the eight arrows, and unrecognized directions
/// map to a blank glyph.
pub open spec fn wind_icon_spec(dir: Seq<char>) -> Seq<char> {
    if dir == "N"@ || dir == "NNE"@ {
        "\u{1b}[1m\u{2193}\u{1b}[0m"@
    } else if dir == "NE"@ || dir == "ENE"@ {
        "\u{1b}[1m\u{2199}\u{1b}[0m"@
    } else if dir == "E"@ || dir == "ESE"@ {
        "\u{1b}[1m\u{2190}\u{1b}[0m"@
    } else if dir == "SE"@ || dir == "SSE"@ {
        "\u{1b}[1m\u{2196}\u{1b}[0m"@
    } else if dir == "S"@ || dir == "SSW"@ {
        "\u{1b}[1m\u{2191}\u{1b}[0m"@
    } else if dir == "SW"@ || dir == "WSW"@ {
        "\u{1b}[1m\u{2197}\u{1b}[0m"@
    } else if dir == "W"@ || dir == "WNW"@ {
        "\u{1b}[1m\u{2192}\u{1b}[0m"@
    } else if dir == "NW"@ || dir == "NNW"@ {
        "\u{1b}[1m\u{2198}\u{1b}[0m"@
    } else {
        " "@
    }
}

proof fn lemma_arrows_wf()
    ensures
        well_styled("\u{1b}[1m\u{2193}\u{1b}[0m"@) && visible_width("\u{1b}[1m\u{2193}\u{1b}[0m"@) == 1,
        well_styled("\u{1b}[1m\u{2199}\u{1b}[0m"@) && visible_width("\u{1b}[1m\u{2199}\u{1b}[0m"@) == 1,
        well_styled("\u{1b}[1m\u{2190}\u{1b}[0m"@) && visible_width("\u{1b}[1m\u{2190}\u{1b}[0m"@) == 1,
        well_styled("\u{1b}[1m\u{2196}\u{1b}[0m"@) && visible_width("\u{1b}[1m\u{2196}\u{1b}[0m"@) == 1,
        well_styled("\u{1b}[1m\u{2191}\u{1b}[0m"@) && visible_width("\u{1b}[1m\u{2191}\u{1b}[0m"@) == 1,
        well_styled("\u{1b}[1m\u{2197}\u{1b}[0m"@) && visible_width("\u{1b}[1m\u{2197}\u{1b}[0m"@) == 1,
        well_styled("\u{1b}[1m\u{2192}\u{1b}[0m"@) && visible_width("\u{1b}[1m\u{2192}\u{1b}[0m"@) == 1,
        well_styled("\u{1b}[1m\u{2198}\u{1b}[0m"@) && visible_width("\u{1b}[1m\u{2198}\u{1b}[0m"@) == 1,
        well_styled(" "@) && visible_width(" "@) == 1,
{
    let m1 = seq!['[', '1'];
    let m0 = seq!['[', '0'];
    assert forall|k: int| 0 <= k < m1.len() implies m1[k] != 'm' by {}
    assert forall|k: int| 0 <= k < m0.len() implies m0[k] != 'm' by {}
    lemma_directive_zero(m1);
    lemma_directive_zero(m0);
    reveal_strlit(" ");
    assert forall|k: int| 0 <= k < " "@.len() implies " "@[k] != '\u{1b}'
        && !is_wide_char(" "@[k]) by {}
    assert(plain_text(" "@));
    lemma_plain_text_width(" "@);
    reveal_strlit("\u{1b}[1m\u{2193}\u{1b}[0m");
    reveal_strlit("\u{2193}");
    assert forall|k: int| 0 <= k < "\u{2193}"@.len() implies "\u{2193}"@[k] != '\u{1b}'
        && !is_wide_char("\u{2193}"@[k]) by {}
    assert(plain_text("\u{2193}"@));
    lemma_plain_text_width("\u{2193}"@);
    assert("\u{1b}[1m\u{2193}\u{1b}[0m"@ =~= directive(m1) + "\u{2193}"@ + directive(m0));
    lemma_well_styled_concat(directive(m1), "\u{2193}"@);
    lemma_well_styled_concat(directive(m1) + "\u{2193}"@, directive(m0));
    reveal_strlit("\u{1b}[1m\u{2199}\u{1b}[0m");
    reveal_strlit("\u{2199}");
    assert forall|k: int| 0 <= k < "\u{2199}"@.len() implies "\u{2199}"@[k] != '\u{1b}'
        && !is_wide_char("\u{2199}"@[k]) by {}
    assert(plain_text("\u{2199}"@));
    lemma_plain_text_width("\u{2199}"@);
    assert("\u{1b}[1m\u{2199}\u{1b}[0m"@ =~= directive(m1) + "\u{2199}"@ + directive(m0));
    lemma_well_styled_concat(directive(m1), "\u{2199}"@);
    lemma_well_styled_concat(directive(m1) + "\u{2199}"@, directive(m0));
    reveal_strlit("\u{1b}[1m\u{2190}\u{1b}[0m");
    reveal_strlit("\u{2190}");
    assert forall|k: int| 0 <= k < "\u{2190}"@.len() implies "\u{2190}"@[k] != '\u{1b}'
        && !is_wide_char("\u{2190}"@[k]) by {}
    assert(plain_text("\u{2190}"@));
    lemma_plain_text_width("\u{2190}"@);
    assert("\u{1b}[1m\u{2190}\u{1b}[0m"@ =~= directive(m1) + "\u{2190}"@ + directive(m0));
    lemma_well_styled_concat(directive(m1), "\u{2190}"@);
    lemma_well_styled_concat(directive(m1) + "\u{2190}"@, directive(m0));
    reveal_strlit("\u{1b}[1m\u{2196}\u{1b}[0m");
    reveal_strlit("\u{2196}");
    assert forall|k: int| 0 <= k < "\u{2196}"@.len() implies "\u{2196}"@[k] != '\u{1b}'
        && !is_wide_char("\u{2196}"@[k]) by {}
    assert(plain_text("\u{2196}"@));
    lemma_plain_text_width("\u{2196}"@);
    assert("\u{1b}[1m\u{2196}\u{1b}[0m"@ =~= directive(m1) + "\u{2196}"@ + directive(m0));
    lemma_well_styled_concat(directive(m1), "\u{2196}"@);
    lemma_well_styled_concat(directive(m1) + "\u{2196}"@, directive(m0));
    reveal_strlit("\u{1b}[1m\u{2191}\u{1b}[0m");
    reveal_strlit("\u{2191}");
    assert forall|k: int| 0 <= k < "\u{2191}"@.len() implies "\u{2191}"@[k] != '\u{1b}'
        && !is_wide_char("\u{2191}"@[k]) by {}
    assert(plain_text("\u{2191}"@));
    lemma_plain_text_width("\u{2191}"@);
    assert("\u{1b}[1m\u{2191}\u{1b}[0m"@ =~= directive(m1) + "\u{2191}"@ + directive(m0));
    lemma_well_styled_concat(directive(m1), "\u{2191}"@);
    lemma_well_styled_concat(directive(m1) + "\u{2191}"@, directive(m0));
    reveal_strlit("\u{1b}[1m\u{2197}\u{1b}[0m");
    reveal_strlit("\u{2197}");
    assert forall|k: int| 0 <= k < "\u{2197}"@.len() implies "\u{2197}"@[k] != '\u{1b}'
        && !is_wide_char("\u{2197}"@[k]) by {}
    assert(plain_text("\u{2197}"@));
    lemma_plain_text_width("\u{2197}"@);
    assert("\u{1b}[1m\u{2197}\u{1b}[0m"@ =~= directive(m1) + "\u{2197}"@ + directive(m0));
    lemma_well_styled_concat(directive(m1), "\u{2197}"@);
    lemma_well_styled_concat(directive(m1) + "\u{2197}"@, directive(m0));
    reveal_strlit("\u{1b}[1m\u{2192}\u{1b}[0m");
    reveal_strlit("\u{2192}");
    assert forall|k: int| 0 <= k < "\u{2192}"@.len() implies "\u{2192}"@[k] != '\u{1b}'
        && !is_wide_char("\u{2192}"@[k]) by {}
    assert(plain_text("\u{2192}"@));
    lemma_plain_text_width("\u{2192}"@);
    assert("\u{1b}[1m\u{2192}\u{1b}[0m"@ =~= directive(m1) + "\u{2192}"@ + directive(m0));
    lemma_well_styled_concat(directive(m1), "\u{2192}"@);
    lemma_well_styled_concat(directive(m1) + "\u{2192}"@, directive(m0));
    reveal_strlit("\u{1b}[1m\u{2198}\u{1b}[0m");
    reveal_strlit("\u{2198}");
    assert forall|k: int| 0 <= k < "\u{2198}"@.len() implies "\u{2198}"@[k] != '\u{1b}'
        && !is_wide_char("\u{2198}"@[k]) by {}
    assert(plain_text("\u{2198}"@));
    lemma_plain_text_width("\u{2198}"@);
    assert("\u{1b}[1m\u{2198}\u{1b}[0m"@ =~= directive(m1) + "\u{2198}"@ + directive(m0));
    lemma_well_styled_concat(directive(m1), "\u{2198}"@);
    lemma_well_styled_concat(directive(m1) + "\u{2198}"@, directive(m0));
}

/// Whatever the direction, the arrow glyph is well styled and one column
/// wide.
pub proof fn lemma_wind_icon_wf(dir: Seq<char>)
    ensures
        well_styled(wind_icon_spec(dir)),
        visible_width(wind_icon_spec(dir)) == 1,
{
    lemma_arrows_wf();
}

/// The bold arrow for a compass direction code.
pub fn wind_dir_to_icon(code: &str) -> (r: &'static str)
    ensures
        r@ == wind_icon_spec(code@),
        well_styled(r@),
        visible_width(r@) == 1,
{
    proof {
        lemma_arrows_wf();
    }
    if str_eq(code, "N") || str_eq(code, "NNE") {
        "\u{1b}[1m\u{2193}\u{1b}[0m"
    } else if str_eq(code, "NE") || str_eq(code, "ENE") {
        "\u{1b}[1m\u{2199}\u{1b}[0m"
    } else if str_eq(code, "E") || str_eq(code, "ESE") {
        "\u{1b}[1m\u{2190}\u{1b}[0m"
    } else if str_eq(code, "SE") || str_eq(code, "SSE") {
        "\u{1b}[1m\u{2196}\u{1b}[0m"
    } else if str_eq(code, "S") || str_eq(code, "SSW") {
        "\u{1b}[1m\u{2191}\u{1b}[0m"
    } else if str_eq(code, "SW") || str_eq(code, "WSW") {
        "\u{1b}[1m\u{2197}\u{1b}[0m"
    } else if str_eq(code, "W") || str_eq(code, "WNW") {
        "\u{1b}[1m\u{2192}\u{1b}[0m"
    } else if str_eq(code, "NW") || str_eq(code, "NNW") {
        "\u{1b}[1m\u{2198}\u{1b}[0m"
    } else {
        " "
    }
}

} // verus!
