//! The screens before the fire: the size warning and the preview of the terminal's colors.

use vstd::prelude::*;

use crate::ansi;
use crate::ansi::Platform;
use crate::ansi::COLOR_DEF;
use crate::ansi::COLOR_ITALIC;
use crate::ansi::COLOR_NOT_ITALIC;
use crate::ansi::COLOR_RESET;
use crate::ansi::CURSOR_LOAD;
use crate::ansi::CURSOR_SAVE;
use crate::ansi::LINE_CLEAR_TO_EOL;
use crate::app::App;
use crate::size::TermSize;
use crate::text;

verus! {

broadcast use text::group_text;

/// The number of columns that the preview needs.
pub const MIN_WIDTH: usize = 120;

/// The number of rows that the preview needs.
pub const MIN_HEIGHT: usize = 22;

/// The background of the marquee.
pub const MARQUEE_BG: usize = 222;

/// The colors through which a pair of lines of the marquee fades in, and back out.
pub const FADE: [usize; 11] = [222, 221, 220, 215, 214, 184, 178, 130, 235, 58, 16];

/// Whether a terminal is large enough for the preview.
pub open spec fn roomy(size: TermSize) -> bool {
    size.width >= MIN_WIDTH && size.height >= MIN_HEIGHT
}

/// What is wrong with a terminal that is too small for the preview.
pub open spec fn size_complaint(size: TermSize) -> Seq<char> {
    let width = text::decimal(size.width as nat);
    let height = text::decimal(size.height as nat);
    let min_width = text::decimal(MIN_WIDTH as nat);
    let min_height = text::decimal(MIN_HEIGHT as nat);
    if size.width >= MIN_WIDTH {
        "Screen may be too short - height is "@ + height + " and need "@ + min_height + "."@
    } else if size.height >= MIN_HEIGHT {
        "Screen may be too narrow - width is "@ + width + " and need "@ + min_width + "."@
    } else {
        "Screen is too small - have "@ + width + " x "@ + height + " and need "@ + min_width
            + " x "@ + min_height
    }
}

/// The size of the terminal.
pub open spec fn size_report(p: Platform, size: TermSize) -> Seq<char> {
    COLOR_DEF@ + "Screen size: "@ + text::decimal(size.width as nat) + "w x "@ + text::decimal(
        size.height as nat,
    ) + "h"@ + ansi::newline(p) + ansi::newline(p)
}

/// The warning that the terminal is too small for the preview; its size where it is not.
#[verifier::opaque]
pub open spec fn size_warning(p: Platform, size: TermSize) -> Seq<char> {
    if roomy(size) {
        size_report(p, size)
    } else {
        ansi::fg_color(9) + size_complaint(size) + ansi::newline(p) + ansi::newline(p)
            + ansi::bg_color(1) + ansi::fg_color(15)
            + "There may be rendering issues on the next screen; to correct, <q><enter>, resize and try again."@
            + LINE_CLEAR_TO_EOL@ + COLOR_RESET@ + ansi::newline(p) + ansi::newline(p)
            + "Continue?"@ + ansi::newline(p) + ansi::newline(p)
    }
}

/// The heading of a color chart.
pub open spec fn label(p: Platform, name: Seq<char>) -> Seq<char> {
    COLOR_DEF@ + COLOR_DEF@ + name + ":"@ + ansi::newline(p)
}

/// A field in the chart of the standard colors. The last one of each row is written in black.
pub open spec fn standard_field(p: Platform, idx: nat) -> Seq<char> {
    let ink = if idx == 7 || idx == 15 {
        ansi::fg_color(0)
    } else {
        Seq::empty()
    };
    ansi::bg_color(idx) + ink + ansi::separator(p) + " "@ + text::padded(idx, 2) + "  "@
}

/// The first `n` fields of a row of standard colors that starts with color `first`.
pub open spec fn standard_row(p: Platform, first: nat, n: nat) -> Seq<char>
    decreases n,
{
    if n == 0 {
        Seq::empty()
    } else {
        standard_row(p, first, (n - 1) as nat) + standard_field(p, (first + n - 1) as nat)
    }
}

/// The chart of the standard colors.
pub open spec fn standard_chart(p: Platform) -> Seq<char> {
    label(p, "Standard colors"@) + ansi::fg_color(15) + standard_row(p, 0, 8) + COLOR_DEF@
        + ansi::newline(p) + ansi::fg_color(15) + standard_row(p, 8, 8) + COLOR_DEF@
        + ansi::newline(p) + ansi::newline(p)
}

/// A field in the chart of the color cube. The right half is written in black.
pub open spec fn cube_field(row: nat, column: nat) -> Seq<char> {
    let idx = column + row * 36 + 16;
    ansi::bg_color(idx) + ansi::fg_color(
        if column > 17 {
            0
        } else {
            15
        },
    ) + text::padded(idx, 3)
}

/// The first `n` fields of a row of the color cube.
pub open spec fn cube_row(row: nat, n: nat) -> Seq<char>
    decreases n,
{
    if n == 0 {
        Seq::empty()
    } else {
        cube_row(row, (n - 1) as nat) + cube_field(row, (n - 1) as nat)
    }
}

/// The first `n` rows of the color cube.
pub open spec fn cube_rows(p: Platform, n: nat) -> Seq<char>
    decreases n,
{
    if n == 0 {
        Seq::empty()
    } else {
        cube_rows(p, (n - 1) as nat) + cube_row((n - 1) as nat, 36) + COLOR_DEF@ + ansi::newline(p)
    }
}

/// The chart of the color cube.
pub open spec fn cube_chart(p: Platform) -> Seq<char> {
    label(p, "216 colors"@) + cube_rows(p, 6) + COLOR_DEF@ + ansi::newline(p)
}

/// A field in the chart of the gray tones. The bright ones are written in black.
pub open spec fn gray_field(p: Platform, idx: nat) -> Seq<char> {
    let ink = if idx > 243 {
        ansi::fg_color(0)
    } else {
        Seq::empty()
    };
    ink + ansi::bg_color(idx) + ansi::separator(p) + text::decimal(idx) + " "@
}

/// The first `n` gray tones.
pub open spec fn gray_row(p: Platform, n: nat) -> Seq<char>
    decreases n,
{
    if n == 0 {
        Seq::empty()
    } else {
        gray_row(p, (n - 1) as nat) + gray_field(p, (232 + n - 1) as nat)
    }
}

/// The chart of the gray tones.
pub open spec fn gray_chart(p: Platform) -> Seq<char> {
    label(p, "Grayscale"@) + ansi::fg_color(15) + gray_row(p, 24) + COLOR_DEF@ + ansi::newline(p)
        + COLOR_DEF@ + ansi::newline(p)
}

/// The preview of the terminal's colors.
#[verifier::opaque]
pub open spec fn preview(p: Platform, size: TermSize) -> Seq<char> {
    size_report(p, size) + standard_chart(p) + cube_chart(p) + gray_chart(p)
}

/// The field that the marquee runs in: four blank rows below where the cursor is kept.
#[verifier::opaque]
pub open spec fn marquee_field(p: Platform) -> Seq<char> {
    let blank = LINE_CLEAR_TO_EOL@ + ansi::newline(p);
    CURSOR_SAVE@ + ansi::bg_color(MARQUEE_BG as nat) + blank + blank + blank + blank
}

/// The first line of a pair.
pub open spec fn marquee_upper(line: nat) -> Seq<char> {
    if line == 0 {
        "  Things move along so rapidly nowadays that people saying "@ + COLOR_ITALIC@
            + "It can't be done"@ + COLOR_NOT_ITALIC@ + " are always being interrupted"@
    } else if line == 1 {
        "  Test your might!"@
    } else {
        "  How much is the fish?"@
    }
}

/// The second line of a pair.
pub open spec fn marquee_lower(line: nat) -> Seq<char> {
    if line == 0 {
        "  by somebody doing it.                                                                    "@
            + COLOR_ITALIC@ + "-- Puck, 1902"@ + COLOR_NOT_ITALIC@
    } else if line == 1 {
        "  "@ + COLOR_ITALIC@ + "-- Mortal Kombat"@ + COLOR_NOT_ITALIC@
    } else {
        "             "@ + COLOR_ITALIC@ + "-- Scooter"@ + COLOR_NOT_ITALIC@
    }
}

/// A pair of lines in the field of the marquee, in a color.
#[verifier::opaque]
pub open spec fn marquee_text(p: Platform, line: nat, fade: nat) -> Seq<char> {
    CURSOR_LOAD@ + ansi::bg_color(MARQUEE_BG as nat) + ansi::newline(p) + ansi::fg_color(fade)
        + marquee_upper(line) + LINE_CLEAR_TO_EOL@ + ansi::newline(p) + marquee_lower(line)
        + LINE_CLEAR_TO_EOL@ + ansi::newline(p)
}

/// What asks for an answer.
#[verifier::opaque]
pub open spec fn prompt_text() -> Seq<char> {
    COLOR_RESET@ + "Press return to continue..."@
}

impl App {
    /// Whether the terminal is large enough for the preview.
    pub fn is_roomy(&self) -> (yes: bool)
        ensures
            yes == roomy(self.term_sz),
    {
        self.term_sz.width >= MIN_WIDTH && self.term_sz.height >= MIN_HEIGHT
    }

    /// Warns that the terminal is too small for the preview; shows its size where it is not.
    #[verifier::rlimit(50)]
    pub fn show_size_warning(&mut self)
        requires
            old(self).colored(),
        ensures
            final(self)@ == old(self)@.with_text(
                size_warning(old(self).platform, old(self).term_sz),
            ),
            final(self).fg == old(self).fg,
            final(self).bg == old(self).bg,
    {
        proof {
            reveal(size_warning);
        }
        if self.is_roomy() {
            self.show_term_size();
            return;
        }
        let width: usize = self.term_sz.width;
        let height: usize = self.term_sz.height;
        self.emit_fg(9);
        let ghost start = self@;
        if width >= MIN_WIDTH {
            self.emit("Screen may be too short - height is ");
            self.emit_decimal(height);
            self.emit(" and need ");
            self.emit_decimal(MIN_HEIGHT);
            self.emit(".");
        } else if height >= MIN_HEIGHT {
            self.emit("Screen may be too narrow - width is ");
            self.emit_decimal(width);
            self.emit(" and need ");
            self.emit_decimal(MIN_WIDTH);
            self.emit(".");
        } else {
            self.emit("Screen is too small - have ");
            self.emit_decimal(width);
            self.emit(" x ");
            self.emit_decimal(height);
            self.emit(" and need ");
            self.emit_decimal(MIN_WIDTH);
            self.emit(" x ");
            self.emit_decimal(MIN_HEIGHT);
        }
        assert(self@ == start.with_text(size_complaint(self.term_sz)));
        self.emit_nl();
        self.emit_nl();
        self.emit_bg(1);
        self.emit_fg(15);
        self.emit(
            "There may be rendering issues on the next screen; to correct, <q><enter>, resize and try again.",
        );
        self.emit(LINE_CLEAR_TO_EOL);
        self.emit(COLOR_RESET);
        self.emit_nl();
        self.emit_nl();
        self.emit("Continue?");
        self.emit_nl();
        self.emit_nl();
    }

    /// Shows the size of the terminal.
    pub fn show_term_size(&mut self)
        ensures
            final(self)@ == old(self)@.with_text(
                size_report(old(self).platform, old(self).term_sz),
            ),
            final(self).fg == old(self).fg,
            final(self).bg == old(self).bg,
    {
        self.emit(COLOR_DEF);
        self.emit("Screen size: ");
        self.emit_decimal(self.term_sz.width);
        self.emit("w x ");
        self.emit_decimal(self.term_sz.height);
        self.emit("h");
        self.emit_nl();
        self.emit_nl();
    }

    /// Shows the heading of a color chart.
    pub fn show_label(&mut self, name: &str)
        ensures
            final(self)@ == old(self)@.with_text(label(old(self).platform, name@)),
            final(self).fg == old(self).fg,
            final(self).bg == old(self).bg,
    {
        self.emit(COLOR_DEF);
        self.emit(COLOR_DEF);
        self.emit(name);
        self.emit(":");
        self.emit_nl();
    }

    /// Shows a field in the chart of the standard colors.
    fn show_standard_field(&mut self, idx: usize)
        requires
            old(self).colored(),
            idx < 16,
        ensures
            final(self)@ == old(self)@.with_text(standard_field(old(self).platform, idx as nat)),
            final(self).fg == old(self).fg,
            final(self).bg == old(self).bg,
    {
        self.emit_bg(idx);
        let ghost backed = self@;
        if idx == 7 || idx == 15 {
            self.emit_fg(0);
        }
        proof {
            text::lemma_utf8_empty();
            let ink = if idx == 7 || idx == 15 {
                ansi::fg_color(0)
            } else {
                Seq::empty()
            };
            assert(self@ == backed.with_text(ink));
        }
        self.emit(ansi::sep(self.platform));
        self.emit(" ");
        self.emit_padded(idx, 2);
        self.emit("  ");
    }

    /// Shows a row of eight standard colors.
    fn show_standard_row(&mut self, first: usize)
        requires
            old(self).colored(),
            first <= 8,
        ensures
            final(self)@ == old(self)@.with_text(
                standard_row(old(self).platform, first as nat, 8),
            ),
            final(self).fg == old(self).fg,
            final(self).bg == old(self).bg,
    {
        let ghost p = self.platform;
        let mut n: usize = 0;
        proof {
            text::lemma_utf8_empty();
        }
        while n < 8
            invariant
                n <= 8,
                first <= 8,
                self.colored(),
                self.fg == old(self).fg,
                self.bg == old(self).bg,
                p == old(self).platform,
                self@ == old(self)@.with_text(standard_row(p, first as nat, n as nat)),
            decreases 8 - n,
        {
            self.show_standard_field(first + n);
            n = n + 1;
        }
    }

    /// Shows the chart of the standard colors.
    #[verifier::rlimit(50)]
    pub fn show_standard_colors(&mut self)
        requires
            old(self).colored(),
        ensures
            final(self)@ == old(self)@.with_text(standard_chart(old(self).platform)),
            final(self).fg == old(self).fg,
            final(self).bg == old(self).bg,
    {
        self.show_label("Standard colors");
        self.emit_fg(15);
        self.show_standard_row(0);
        self.emit(COLOR_DEF);
        self.emit_nl();
        self.emit_fg(15);
        self.show_standard_row(8);
        self.emit(COLOR_DEF);
        self.emit_nl();
        self.emit_nl();
    }

    /// Shows a row of the color cube.
    fn show_cube_row(&mut self, row: usize)
        requires
            old(self).colored(),
            row < 6,
        ensures
            final(self)@ == old(self)@.with_text(cube_row(row as nat, 36)),
            final(self).fg == old(self).fg,
            final(self).bg == old(self).bg,
    {
        let mut column: usize = 0;
        proof {
            text::lemma_utf8_empty();
        }
        while column < 36
            invariant
                column <= 36,
                row < 6,
                self.colored(),
                self.fg == old(self).fg,
                self.bg == old(self).bg,
                self@ == old(self)@.with_text(cube_row(row as nat, column as nat)),
            decreases 36 - column,
        {
            let idx: usize = column + (row * 36 + 16);
            let ghost start = self@;
            self.emit_bg(idx);
            self.emit_fg(
                if column > 17 {
                    0
                } else {
                    15
                },
            );
            self.emit_padded(idx, 3);
            assert(self@ == start.with_text(cube_field(row as nat, column as nat)));
            column = column + 1;
        }
    }

    /// Shows the chart of the color cube.
    pub fn show_216_colors(&mut self)
        requires
            old(self).colored(),
        ensures
            final(self)@ == old(self)@.with_text(cube_chart(old(self).platform)),
            final(self).fg == old(self).fg,
            final(self).bg == old(self).bg,
    {
        let ghost p = self.platform;
        self.show_label("216 colors");
        let ghost labelled = self@;
        let mut row: usize = 0;
        proof {
            text::lemma_utf8_empty();
        }
        while row < 6
            invariant
                row <= 6,
                self.colored(),
                self.fg == old(self).fg,
                self.bg == old(self).bg,
                p == labelled.platform,
                self@ == labelled.with_text(cube_rows(p, row as nat)),
            decreases 6 - row,
        {
            self.show_cube_row(row);
            self.emit(COLOR_DEF);
            self.emit_nl();
            row = row + 1;
        }
        self.emit(COLOR_DEF);
        self.emit_nl();
    }

    /// Shows a field in the chart of the gray tones.
    fn show_gray_field(&mut self, idx: usize)
        requires
            old(self).colored(),
            idx < 256,
        ensures
            final(self)@ == old(self)@.with_text(gray_field(old(self).platform, idx as nat)),
            final(self).fg == old(self).fg,
            final(self).bg == old(self).bg,
    {
        if idx > 243 {
            self.emit_fg(0);
        }
        proof {
            text::lemma_utf8_empty();
            let ink = if idx > 243 {
                ansi::fg_color(0)
            } else {
                Seq::empty()
            };
            assert(self@ == old(self)@.with_text(ink));
        }
        self.emit_bg(idx);
        self.emit(ansi::sep(self.platform));
        self.emit_decimal(idx);
        self.emit(" ");
    }

    /// Shows the chart of the gray tones.
    pub fn show_grayscale(&mut self)
        requires
            old(self).colored(),
        ensures
            final(self)@ == old(self)@.with_text(gray_chart(old(self).platform)),
            final(self).fg == old(self).fg,
            final(self).bg == old(self).bg,
    {
        let ghost p = self.platform;
        self.show_label("Grayscale");
        self.emit_fg(15);
        let ghost inked = self@;
        let mut n: usize = 0;
        proof {
            text::lemma_utf8_empty();
        }
        while n < 24
            invariant
                n <= 24,
                self.colored(),
                self.fg == old(self).fg,
                self.bg == old(self).bg,
                p == inked.platform,
                self@ == inked.with_text(gray_row(p, n as nat)),
            decreases 24 - n,
        {
            self.show_gray_field(232 + n);
            n = n + 1;
        }
        self.emit(COLOR_DEF);
        self.emit_nl();
        self.emit(COLOR_DEF);
        self.emit_nl();
    }

    /// Shows the preview of the terminal's colors.
    #[verifier::rlimit(50)]
    pub fn show_capability_colors(&mut self)
        requires
            old(self).colored(),
        ensures
            final(self)@ == old(self)@.with_text(preview(old(self).platform, old(self).term_sz)),
            final(self).fg == old(self).fg,
            final(self).bg == old(self).bg,
    {
        proof {
            reveal(preview);
        }
        self.show_term_size();
        self.show_standard_colors();
        self.show_216_colors();
        self.show_grayscale();
    }

    /// Clears the field of the marquee.
    pub fn prepare_marquee(&mut self)
        requires
            old(self).colored(),
        ensures
            final(self)@ == old(self)@.with_text(marquee_field(old(self).platform)),
            final(self).fg == old(self).fg,
            final(self).bg == old(self).bg,
    {
        proof {
            reveal(marquee_field);
        }
        self.emit(CURSOR_SAVE);
        self.emit_bg(MARQUEE_BG);
        self.emit(LINE_CLEAR_TO_EOL);
        self.emit_nl();
        self.emit(LINE_CLEAR_TO_EOL);
        self.emit_nl();
        self.emit(LINE_CLEAR_TO_EOL);
        self.emit_nl();
        self.emit(LINE_CLEAR_TO_EOL);
        self.emit_nl();
    }

    /// Shows a pair of lines of the marquee in a color.
    #[verifier::rlimit(50)]
    pub fn show_marquee_text(&mut self, line: usize, fade: usize)
        requires
            old(self).colored(),
            fade < ansi::MAX_COLOR,
        ensures
            final(self)@ == old(self)@.with_text(
                marquee_text(old(self).platform, line as nat, fade as nat),
            ),
            final(self).fg == old(self).fg,
            final(self).bg == old(self).bg,
    {
        proof {
            reveal(marquee_text);
        }
        self.emit(CURSOR_LOAD);
        self.emit_bg(MARQUEE_BG);
        self.emit_nl();
        self.emit_fg(fade);
        let ghost start = self@;
        if line == 0 {
            self.emit("  Things move along so rapidly nowadays that people saying ");
            self.emit(COLOR_ITALIC);
            self.emit("It can't be done");
            self.emit(COLOR_NOT_ITALIC);
            self.emit(" are always being interrupted");
        } else if line == 1 {
            self.emit("  Test your might!");
        } else {
            self.emit("  How much is the fish?");
        }
        assert(self@ == start.with_text(marquee_upper(line as nat)));
        self.emit(LINE_CLEAR_TO_EOL);
        self.emit_nl();
        let ghost middle = self@;
        if line == 0 {
            self.emit(
                "  by somebody doing it.                                                                    ",
            );
            self.emit(COLOR_ITALIC);
            self.emit("-- Puck, 1902");
            self.emit(COLOR_NOT_ITALIC);
        } else if line == 1 {
            self.emit("  ");
            self.emit(COLOR_ITALIC);
            self.emit("-- Mortal Kombat");
            self.emit(COLOR_NOT_ITALIC);
        } else {
            self.emit("             ");
            self.emit(COLOR_ITALIC);
            self.emit("-- Scooter");
            self.emit(COLOR_NOT_ITALIC);
        }
        assert(self@ == middle.with_text(marquee_lower(line as nat)));
        self.emit(LINE_CLEAR_TO_EOL);
        self.emit_nl();
    }

    /// Asks for an answer.
    pub fn show_prompt(&mut self)
        ensures
            final(self)@ == old(self)@.with_text(prompt_text()),
            final(self).fg == old(self).fg,
            final(self).bg == old(self).bg,
    {
        proof {
            reveal(prompt_text);
        }
        self.emit(COLOR_RESET);
        self.emit("Press return to continue...");
    }
}

} // verus!
