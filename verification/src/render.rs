//! Text rendering of a palette: `name = "#rrggbb"` lines in two sections.
use vstd::prelude::*;

use crate::color::DisplayColor;
use crate::theme::{ColorName, Palette, PaletteSlot};

verus! {

/// The display name of a slot, padded with trailing spaces to the fixed
/// width of 7 so the `=` signs align.
pub open spec fn name_chars(n: ColorName) -> Seq<char> {
    match n {
        ColorName::Black => "black  "@,
        ColorName::Red => "red    "@,
        ColorName::Yellow => "yellow "@,
        ColorName::Green => "green  "@,
        ColorName::Cyan => "cyan   "@,
        ColorName::Blue => "blue   "@,
        ColorName::Magenta => "magenta"@,
        ColorName::White => "white  "@,
    }
}

/// The padded display name of a slot.
pub fn name_str(n: ColorName) -> (s: &'static str)
    ensures
        s@ == name_chars(n),
{
    match n {
        ColorName::Black => "black  ",
        ColorName::Red => "red    ",
        ColorName::Yellow => "yellow ",
        ColorName::Green => "green  ",
        ColorName::Cyan => "cyan   ",
        ColorName::Blue => "blue   ",
        ColorName::Magenta => "magenta",
        ColorName::White => "white  ",
    }
}

/// The lowercase hex digit for a value below 16.
pub open spec fn hex_digit(d: int) -> char {
    if d == 0 {
        '0'
    } else if d == 1 {
        '1'
    } else if d == 2 {
        '2'
    } else if d == 3 {
        '3'
    } else if d == 4 {
        '4'
    } else if d == 5 {
        '5'
    } else if d == 6 {
        '6'
    } else if d == 7 {
        '7'
    } else if d == 8 {
        '8'
    } else if d == 9 {
        '9'
    } else if d == 10 {
        'a'
    } else if d == 11 {
        'b'
    } else if d == 12 {
        'c'
    } else if d == 13 {
        'd'
    } else if d == 14 {
        'e'
    } else {
        'f'
    }
}

/// The two lowercase hex digits of a byte, high digit first.
pub open spec fn hex_byte_chars(b: u8) -> Seq<char> {
    seq![hex_digit(b as int / 16), hex_digit(b as int % 16)]
}

/// The 7-character lowercase hex form `#rrggbb` of a display color.
pub open spec fn hex_color_chars(d: DisplayColor) -> Seq<char> {
    seq!['#'] + hex_byte_chars(d.r) + hex_byte_chars(d.g) + hex_byte_chars(d.b)
}

fn hex_digit_str(d: u8) -> (s: &'static str)
    requires
        d < 16,
    ensures
        s@ == seq![hex_digit(d as int)],
{
    match d {
        0 => {
            proof {
                reveal_strlit("0");
                assert("0"@ =~= seq![hex_digit(0)]);
            }
            "0"
        },
        1 => {
            proof {
                reveal_strlit("1");
                assert("1"@ =~= seq![hex_digit(1)]);
            }
            "1"
        },
        2 => {
            proof {
                reveal_strlit("2");
                assert("2"@ =~= seq![hex_digit(2)]);
            }
            "2"
        },
        3 => {
            proof {
                reveal_strlit("3");
                assert("3"@ =~= seq![hex_digit(3)]);
            }
            "3"
        },
        4 => {
            proof {
                reveal_strlit("4");
                assert("4"@ =~= seq![hex_digit(4)]);
            }
            "4"
        },
        5 => {
            proof {
                reveal_strlit("5");
                assert("5"@ =~= seq![hex_digit(5)]);
            }
            "5"
        },
        6 => {
            proof {
                reveal_strlit("6");
                assert("6"@ =~= seq![hex_digit(6)]);
            }
            "6"
        },
        7 => {
            proof {
                reveal_strlit("7");
                assert("7"@ =~= seq![hex_digit(7)]);
            }
            "7"
        },
        8 => {
            proof {
                reveal_strlit("8");
                assert("8"@ =~= seq![hex_digit(8)]);
            }
            "8"
        },
        9 => {
            proof {
                reveal_strlit("9");
                assert("9"@ =~= seq![hex_digit(9)]);
            }
            "9"
        },
        10 => {
            proof {
                reveal_strlit("a");
                assert("a"@ =~= seq![hex_digit(10)]);
            }
            "a"
        },
        11 => {
            proof {
                reveal_strlit("b");
                assert("b"@ =~= seq![hex_digit(11)]);
            }
            "b"
        },
        12 => {
            proof {
                reveal_strlit("c");
                assert("c"@ =~= seq![hex_digit(12)]);
            }
            "c"
        },
        13 => {
            proof {
                reveal_strlit("d");
                assert("d"@ =~= seq![hex_digit(13)]);
            }
            "d"
        },
        14 => {
            proof {
                reveal_strlit("e");
                assert("e"@ =~= seq![hex_digit(14)]);
            }
            "e"
        },
        _ => {
            proof {
                reveal_strlit("f");
                assert("f"@ =~= seq![hex_digit(15)]);
            }
            "f"
        },
    }
}

fn append_hex_byte(s: &mut String, b: u8)
    ensures
        final(s)@ == old(s)@ + hex_byte_chars(b),
{
    s.append(hex_digit_str(b / 16));
    s.append(hex_digit_str(b % 16));
    proof {
        assert(s@ =~= old(s)@ + hex_byte_chars(b));
    }
}

/// Formats a display color as its lowercase hex form `#rrggbb`.
pub fn hex_color(d: &DisplayColor) -> (s: String)
    ensures
        s@ == hex_color_chars(*d),
{
    let mut s = String::new();
    s.append("#");
    append_hex_byte(&mut s, d.r);
    append_hex_byte(&mut s, d.g);
    append_hex_byte(&mut s, d.b);
    proof {
        reveal_strlit("#");
        assert(s@ =~= hex_color_chars(*d));
    }
    s
}

/// One printed palette line: the padded name, ` = `, and the quoted hex
/// color, closed by a newline.
pub open spec fn line_chars(slot: PaletteSlot) -> Seq<char> {
    name_chars(slot.name) + " = \""@ + hex_color_chars(slot.color) + "\"\n"@
}

fn append_line(s: &mut String, slot: &PaletteSlot)
    ensures
        final(s)@ == old(s)@ + line_chars(*slot),
{
    s.append(name_str(slot.name));
    s.append(" = \"");
    let hex = hex_color(&slot.color);
    s.append(hex.as_str());
    s.append("\"\n");
    proof {
        assert(s@ =~= old(s)@ + line_chars(*slot));
    }
}

/// The lines of one palette group, in slot order.
pub open spec fn lines_chars(slots: Seq<PaletteSlot>) -> Seq<char>
    decreases slots.len(),
{
    if slots.len() == 0 {
        Seq::<char>::empty()
    } else {
        line_chars(slots[0]) + lines_chars(slots.drop_first())
    }
}

proof fn lemma_lines_take_snoc(slots: Seq<PaletteSlot>, k: int)
    requires
        0 <= k < slots.len(),
    ensures
        lines_chars(slots.take(k + 1)) == lines_chars(slots.take(k)) + line_chars(slots[k]),
    decreases k,
{
    if k == 0 {
        assert(slots.take(0) =~= Seq::<PaletteSlot>::empty());
        assert(slots.take(1).drop_first() =~= Seq::<PaletteSlot>::empty());
        assert(lines_chars(slots.take(1)) =~= lines_chars(slots.take(0)) + line_chars(slots[0]));
    } else {
        lemma_lines_take_snoc(slots.drop_first(), k - 1);
        assert(slots.take(k + 1).drop_first() =~= slots.drop_first().take(k));
        assert(slots.take(k).drop_first() =~= slots.drop_first().take(k - 1));
        assert(lines_chars(slots.take(k + 1)) =~= lines_chars(slots.take(k)) + line_chars(slots[k]));
    }
}

fn append_lines(s: &mut String, slots: &Vec<PaletteSlot>)
    ensures
        final(s)@ == old(s)@ + lines_chars(slots@),
{
    let mut i: usize = 0;
    while i < slots.len()
        invariant
            i <= slots@.len(),
            s@ == old(s)@ + lines_chars(slots@.take(i as int)),
        decreases slots@.len() - i,
    {
        proof {
            lemma_lines_take_snoc(slots@, i as int);
        }
        append_line(s, &slots[i]);
        i += 1;
        proof {
            assert(s@ =~= old(s)@ + lines_chars(slots@.take(i as int)));
        }
    }
    proof {
        assert(slots@.take(slots@.len() as int) =~= slots@);
        assert(lines_chars(slots@.take(0)) =~= Seq::<char>::empty());
    }
}

/// The whole printed theme: the `[colors.normal]` section, a blank line,
/// then the `[colors.bright]` section, each with its 8 slot lines.
pub open spec fn render_chars(pal: Palette) -> Seq<char> {
    "[colors.normal]\n"@ + lines_chars(pal.normal@) + "\n[colors.bright]\n"@ + lines_chars(
        pal.bright@,
    )
}

/// Renders the palette as the structured key/value text that makes up the
/// theme: two sections, each listing its 8 slots in order.
pub fn render(pal: &Palette) -> (s: String)
    ensures
        s@ == render_chars(*pal),
{
    let mut s = String::new();
    s.append("[colors.normal]\n");
    append_lines(&mut s, &pal.normal);
    s.append("\n[colors.bright]\n");
    append_lines(&mut s, &pal.bright);
    proof {
        assert(s@ =~= render_chars(*pal));
    }
    s
}

} // verus!
