//! What the overlay's content shows, independent of how a platform draws
//! it: the text alignment vocabulary of the drawing canvas and the value
//! line of the overlay ("72%" or "Muted", and its color).

use vstd::prelude::*;
use crate::ui::signal_rail::{band_color, clamp_percent, SignalRail};
use crate::ui::theme::{rgb, Rgba};

verus! {

/// Text alignment for canvas text.
#[derive(Debug, Clone, Copy, PartialEq, Eq, Structural)]
pub enum TextAlign {
    Left,
    Center,
    Right,
}

/// The decimal digit character for `d` (`0..=9`).
pub open spec fn digit_char(d: nat) -> char {
    if d == 0 {
        '0'
    } else if d == 1 {
        '1'
    } else if d == 2 {
        '2'
    } else if d == 3 {
        '3'
    } else if d == 4 {
        '4'
    } else if d == 5 {
        '5'
    } else if d == 6 {
        '6'
    } else if d == 7 {
        '7'
    } else if d == 8 {
        '8'
    } else {
        '9'
    }
}

/// The decimal notation of `n`, without leading zeros.
pub open spec fn decimal(n: nat) -> Seq<char>
    decreases n,
{
    if n < 10 {
        seq![digit_char(n)]
    } else {
        decimal(n / 10) + seq![digit_char(n % 10)]
    }
}

fn digit_str(d: u8) -> (r: &'static str)
    requires
        d < 10,
    ensures
        r@ == seq![digit_char(d as nat)],
{
    proof {
        reveal_strlit("0");
        reveal_strlit("1");
        reveal_strlit("2");
        reveal_strlit("3");
        reveal_strlit("4");
        reveal_strlit("5");
        reveal_strlit("6");
        reveal_strlit("7");
        reveal_strlit("8");
        reveal_strlit("9");
    }
    let r = match d {
        0 => "0",
        1 => "1",
        2 => "2",
        3 => "3",
        4 => "4",
        5 => "5",
        6 => "6",
        7 => "7",
        8 => "8",
        _ => "9",
    };
    assert(r@ =~= seq![digit_char(d as nat)]);
    r
}

/// The decimal text of a byte.
pub fn decimal_text(n: u8) -> (r: String)
    ensures
        r@ == decimal(n as nat),
{
    let mut text = String::new();
    if n >= 100 {
        text.append(digit_str(n / 100));
    }
    if n >= 10 {
        text.append(digit_str((n / 10) % 10));
    }
    text.append(digit_str(n % 10));
    proof {
        let m = n as nat;
        if m >= 100 {
            assert(decimal(m / 100) == seq![digit_char(m / 100)]);
            assert(decimal(m / 10) == decimal(m / 100) + seq![digit_char((m / 10) % 10)]);
            assert((m / 10) / 10 == m / 100);
        } else if m >= 10 {
            assert(decimal(m / 10) == seq![digit_char(m / 10)]);
            assert((m / 10) % 10 == m / 10);
        }
        assert(text@ =~= decimal(m));
    }
    text
}

/// The overlay's value line for a rail: after clamping the percentage,
/// a muted rail reads "Muted" in its fill color, any other rail reads the
/// percentage followed by `%` in the primary dark-surface text color.
pub open spec fn overlay_value_of(rail: SignalRail) -> (Seq<char>, Rgba) {
    let percent = clamp_percent(rail.percent as int) as u8;
    if rail.muted {
        ("Muted"@, band_color(percent, true, rail.thresholds))
    } else {
        (decimal(percent as nat) + "%"@, rgb(0xF5, 0xF7, 0xFA))
    }
}

/// The text and color of the overlay's value line.
pub fn overlay_value(rail: &SignalRail) -> (r: (String, Rgba))
    ensures
        r.0@ == overlay_value_of(*rail).0,
        r.1 == overlay_value_of(*rail).1,
        rail.muted ==> r.0@ == "Muted"@ && r.1 == rail.thresholds.muted,
        !rail.muted ==> r.0@ == decimal(if rail.percent > 100 { 100nat } else { rail.percent as nat })
            + "%"@ && r.1 == rgb(0xF5, 0xF7, 0xFA),
{
    proof {
        lemma_overlay_value_line(*rail);
    }
    let rail = rail.clamped();
    if rail.muted {
        (String::from_str("Muted"), rail.fill_color())
    } else {
        let text = decimal_text(rail.percent).concat("%");
        (text, Rgba::from_rgb(0xF5, 0xF7, 0xFA))
    }
}

/// The value line says "Muted", in the muted color of the rail's palette,
/// exactly when the output is muted; otherwise it is the percentage, capped
/// at 100, in decimal followed by `%`, in the primary text color, whatever
/// the percentage (0% included).
pub proof fn lemma_overlay_value_line(rail: SignalRail)
    ensures
        rail.muted ==> overlay_value_of(rail).0 == "Muted"@ && overlay_value_of(rail).1
            == rail.thresholds.muted,
        !rail.muted ==> overlay_value_of(rail).0 == decimal(
            if rail.percent > 100 { 100nat } else { rail.percent as nat },
        ) + "%"@ && overlay_value_of(rail).1 == rgb(0xF5, 0xF7, 0xFA),
{
}

/// The decimal text of a number reads back as that number: it is never
/// empty, has only digits, and no leading zero except for 0 itself.
pub proof fn lemma_decimal_digits(n: nat)
    ensures
        decimal(n).len() > 0,
        n < 10 ==> decimal(n).len() == 1,
        n >= 10 ==> decimal(n)[0] != '0',
        forall|i: int| 0 <= i < decimal(n).len() ==> '0' <= #[trigger] decimal(n)[i] <= '9',
    decreases n,
{
    if n >= 10 {
        lemma_decimal_digits(n / 10);
        let d = decimal(n);
        let head = decimal(n / 10);
        assert(d == head + seq![digit_char(n % 10)]);
        assert(d[0] == head[0]);
        assert forall|i: int| 0 <= i < d.len() implies '0' <= #[trigger] d[i] <= '9' by {
            if i < head.len() {
                assert(d[i] == head[i]);
            }
        }
        if n / 10 >= 10 {
        } else {
            assert(head[0] == digit_char(n / 10));
            assert(n / 10 >= 1);
        }
    }
}

} // verus!
