//! How the screen changes hands over a whole course of the program.

use vstd::prelude::*;

use crate::ansi;
use crate::ansi::Platform;
use crate::ansi::BG_KIND;
use crate::ansi::CHAR_SET_ASCII;
use crate::ansi::COLOR_DEF;
use crate::ansi::COLOR_ITALIC;
use crate::ansi::COLOR_NOT_ITALIC;
use crate::ansi::COLOR_RESET;
use crate::ansi::CSI;
use crate::ansi::CURSOR_HIDE;
use crate::ansi::CURSOR_HOME;
use crate::ansi::CURSOR_LOAD;
use crate::ansi::CURSOR_SAVE;
use crate::ansi::CURSOR_SHOW;
use crate::ansi::FG_KIND;
use crate::ansi::LINE_CLEAR_TO_EOL;
use crate::ansi::PX;
use crate::ansi::SCREEN_BUF_OFF;
use crate::ansi::SCREEN_BUF_ON;
use crate::ansi::SCREEN_CLEAR;
use crate::app::AppModel;
use crate::app::Hold;
use crate::app::PauseScreen;
use crate::app::Stage;
use crate::fire::FireModel;
use crate::fire::FIRE_PALETTE;
use crate::frame;
use crate::frame::StatusModel;
use crate::frame_laws;
use crate::screens;
use crate::session;
use crate::session::Event;
use crate::session::MARQUEE_LINES;
use crate::session::MARQUEE_STEPS;
use crate::session_laws;
use crate::session_laws::Course;
use crate::session_laws::Turn;
use crate::size::TermSize;
use crate::text;

verus! {

broadcast use {text::group_text, ansi::lemma_plain_concat};

/// How the screen changes hands in a text: `true` for each sequence that switches to the alternate
/// screen, `false` for each that switches back, in their order.
pub open spec fn changes(t: Seq<char>) -> Seq<bool>
    decreases t.len(),
{
    if t.len() == 0 {
        Seq::empty()
    } else if SCREEN_BUF_ON@.is_suffix_of(t) {
        changes(t.drop_last()).push(true)
    } else if SCREEN_BUF_OFF@.is_suffix_of(t) {
        changes(t.drop_last()).push(false)
    } else {
        changes(t.drop_last())
    }
}

/// Whether the screen changes hands in turn, and is taken over first.
pub open spec fn in_turn(s: Seq<bool>) -> bool {
    forall|i: int| 0 <= i < s.len() ==> #[trigger] s[i] == (i % 2 == 0)
}

/// Whether no sequence about the screen is still open at the end of a text.
#[verifier::opaque]
spec fn closed_text(t: Seq<char>) -> bool {
    forall|i: int|
        t.len() - 5 <= i < t.len() && 1 <= i && #[trigger] t[i] == '?' ==> t[i - 1] != '['
}

proof fn lemma_no_question(t: Seq<char>)
    requires
        forall|i: int| 0 <= i < t.len() ==> #[trigger] t[i] != '?',
    ensures
        ansi::plain(t),
{
    reveal(ansi::plain);
}

/// Text that completes no sequence about the screen changes nothing.
proof fn lemma_changes_quiet(a: Seq<char>, b: Seq<char>)
    requires
        forall|k: int|
            1 <= k <= b.len() ==> !SCREEN_BUF_ON@.is_suffix_of(a + #[trigger] b.take(k))
                && !SCREEN_BUF_OFF@.is_suffix_of(a + b.take(k)),
    ensures
        changes(a + b) == changes(a),
    decreases b.len(),
{
    if b.len() == 0 {
        assert(a + b =~= a);
    } else {
        let rest = b.drop_last();
        assert forall|k: int| 1 <= k <= rest.len() implies !SCREEN_BUF_ON@.is_suffix_of(
            a + #[trigger] rest.take(k),
        ) && !SCREEN_BUF_OFF@.is_suffix_of(a + rest.take(k)) by {
            assert(rest.take(k) =~= b.take(k));
        }
        lemma_changes_quiet(a, rest);
        assert(b.take(b.len() as int) =~= b);
        assert((a + b).drop_last() =~= a + rest);
    }
}

/// The last characters of a text that ends with a sequence about the screen.
proof fn lemma_screen_suffix(t: Seq<char>)
    ensures
        SCREEN_BUF_ON@.is_suffix_of(t) ==> {
            &&& t.len() >= 8
            &&& t[t.len() - 1] == 'h'
            &&& t[t.len() - 2] == '9'
            &&& t[t.len() - 6] == '?'
            &&& t[t.len() - 7] == '['
        },
        SCREEN_BUF_OFF@.is_suffix_of(t) ==> {
            &&& t.len() >= 8
            &&& t[t.len() - 1] == 'l'
            &&& t[t.len() - 2] == '9'
            &&& t[t.len() - 6] == '?'
            &&& t[t.len() - 7] == '['
        },
{
    reveal_strlit("\x1B[?1049h");
    reveal_strlit("\x1B[?1049l");
    let n = t.len() - 8;
    if SCREEN_BUF_ON@.is_suffix_of(t) {
        let s = t.subrange(n, t.len() as int);
        assert(s == SCREEN_BUF_ON@);
        assert(s[7] == t[n + 7] && s[6] == t[n + 6] && s[2] == t[n + 2] && s[1] == t[n + 1]);
    }
    if SCREEN_BUF_OFF@.is_suffix_of(t) {
        let s = t.subrange(n, t.len() as int);
        assert(s == SCREEN_BUF_OFF@);
        assert(s[7] == t[n + 7] && s[6] == t[n + 6] && s[2] == t[n + 2] && s[1] == t[n + 1]);
    }
}

/// Plain text changes nothing.
proof fn lemma_changes_plain(a: Seq<char>, b: Seq<char>)
    requires
        closed_text(a),
        ansi::plain(b),
    ensures
        changes(a + b) == changes(a),
        closed_text(a + b),
{
    reveal(ansi::plain);
    reveal(closed_text);
    assert forall|k: int| 1 <= k <= b.len() implies !SCREEN_BUF_ON@.is_suffix_of(
        a + #[trigger] b.take(k),
    ) && !SCREEN_BUF_OFF@.is_suffix_of(a + b.take(k)) by {
        let t = a + b.take(k);
        lemma_screen_suffix(t);
        let q = t.len() - 6;
        if q >= a.len() {
            assert(t[q] == b[q - a.len()]);
        } else if q >= 1 {
            assert(t[q] == a[q]);
        }
    }
    lemma_changes_quiet(a, b);
    let t = a + b;
    assert forall|i: int|
        t.len() - 5 <= i < t.len() && 1 <= i && #[trigger] t[i] == '?' implies t[i - 1] != '[' by {
        if i >= a.len() {
            assert(t[i] == b[i - a.len()]);
        } else {
            assert(t[i] == a[i]);
        }
    }
}

/// Text in which the characters that end a sequence about the screen do not follow a 9 changes
/// nothing.
proof fn lemma_changes_no_end(a: Seq<char>, b: Seq<char>)
    requires
        forall|j: int|
            0 <= j < b.len() && (#[trigger] b[j] == 'h' || b[j] == 'l') ==> j > 0 && b[j - 1]
                != '9',
    ensures
        changes(a + b) == changes(a),
{
    assert forall|k: int| 1 <= k <= b.len() implies !SCREEN_BUF_ON@.is_suffix_of(
        a + #[trigger] b.take(k),
    ) && !SCREEN_BUF_OFF@.is_suffix_of(a + b.take(k)) by {
        let t = a + b.take(k);
        lemma_screen_suffix(t);
        assert(t[t.len() - 1] == b[k - 1]);
        if k >= 2 {
            assert(t[t.len() - 2] == b[k - 2]);
        }
    }
    lemma_changes_quiet(a, b);
}

/// Each sequence that switches the screen is one change.
proof fn lemma_changes_switch(a: Seq<char>)
    ensures
        changes(a + SCREEN_BUF_ON@) == changes(a).push(true),
        changes(a + SCREEN_BUF_OFF@) == changes(a).push(false),
{
    reveal_strlit("\x1B[?1049h");
    reveal_strlit("\x1B[?1049l");
    let on = SCREEN_BUF_ON@;
    let off = SCREEN_BUF_OFF@;
    lemma_changes_no_end(a, on.drop_last());
    lemma_changes_no_end(a, off.drop_last());
    assert((a + on).drop_last() =~= a + on.drop_last());
    assert((a + off).drop_last() =~= a + off.drop_last());
    assert((a + on).subrange(a.len() as int, (a + on).len() as int) =~= on);
    assert((a + off).subrange(a.len() as int, (a + off).len() as int) =~= off);
    lemma_screen_suffix(a + off);
}

/// What takes the screen over is one change.
proof fn lemma_changes_on(a: Seq<char>)
    ensures
        changes(a + ansi::screen_on()) == changes(a).push(true),
        closed_text(a + ansi::screen_on()),
{
    reveal(ansi::screen_on);
    reveal_strlit("\x1B[?25l");
    reveal_strlit("\x1B[1;1H");
    reveal_strlit("\x1B[48;5;0m\x1B[38;5;15m");
    reveal_strlit("\x1B[2J");
    let rest = CURSOR_HIDE@ + CURSOR_HOME@ + COLOR_DEF@ + SCREEN_CLEAR@;
    let t = a + ansi::screen_on();
    assert(t =~= (a + SCREEN_BUF_ON@) + rest);
    lemma_changes_switch(a);
    lemma_changes_no_end(a + SCREEN_BUF_ON@, rest);
    assert(closed_text(t)) by {
        reveal(closed_text);
        let n = t.len();
        assert(t[n - 1] == 'J' && t[n - 2] == '2' && t[n - 3] == '[' && t[n - 4] == '\x1B' && t[n
            - 5] == 'm');
    }
}

/// What gives the screen back is one change.
proof fn lemma_changes_off(a: Seq<char>)
    ensures
        changes(a + ansi::screen_off()) == changes(a).push(false),
        closed_text(a + ansi::screen_off()),
{
    reveal(ansi::screen_off);
    reveal_strlit("\x1B[0m");
    reveal_strlit("\x1B[?25h");
    reveal_strlit("\x1B[?1049l");
    let start = COLOR_RESET@ + CURSOR_SHOW@;
    let t = a + ansi::screen_off();
    assert(t =~= (a + start) + SCREEN_BUF_OFF@);
    lemma_changes_no_end(a, start);
    lemma_changes_switch(a + start);
    assert(closed_text(t)) by {
        reveal(closed_text);
        let n = t.len();
        assert(t[n - 1] == 'l' && t[n - 2] == '9' && t[n - 3] == '4' && t[n - 4] == '0' && t[n - 5]
            == '1');
    }
}

proof fn lemma_plain_decimal(n: nat)
    ensures
        ansi::plain(text::decimal(n)),
{
    text::lemma_decimal_digits(n);
    lemma_no_question(text::decimal(n));
}

proof fn lemma_plain_padded(n: nat, width: nat)
    ensures
        ansi::plain(text::padded(n, width)),
{
    text::lemma_decimal_digits(n);
    lemma_no_question(text::padded(n, width));
}

/// The fixed sequences that say nothing about the screen are plain.
proof fn lemma_plain_sequences()
    ensures
        ansi::plain(Seq::<char>::empty()),
        ansi::plain(CSI@),
        ansi::plain("m"@),
        ansi::plain(";1H"@),
        ansi::plain(FG_KIND@),
        ansi::plain(BG_KIND@),
        ansi::plain(LINE_CLEAR_TO_EOL@),
        ansi::plain(CURSOR_SAVE@),
        ansi::plain(CURSOR_LOAD@),
        ansi::plain(CURSOR_HOME@),
        ansi::plain(SCREEN_CLEAR@),
        ansi::plain(CHAR_SET_ASCII@),
        ansi::plain(COLOR_RESET@),
        ansi::plain(COLOR_DEF@),
        ansi::plain(COLOR_ITALIC@),
        ansi::plain(COLOR_NOT_ITALIC@),
        ansi::plain(PX@),
{
    reveal(ansi::plain);
    reveal_strlit("\x1B[");
    reveal_strlit("m");
    reveal_strlit(";1H");
    reveal_strlit("38;5;");
    reveal_strlit("48;5;");
    reveal_strlit("\x1B[0K");
    reveal_strlit("\x1B7");
    reveal_strlit("\x1B8");
    reveal_strlit("\x1B[1;1H");
    reveal_strlit("\x1B[2J");
    reveal_strlit("\x1B(B");
    reveal_strlit("\x1B[0m");
    reveal_strlit("\x1B[48;5;0m\x1B[38;5;15m");
    reveal_strlit("\x1B[3m");
    reveal_strlit("\x1B[23m");
    reveal_strlit("\u{2580}");
}

proof fn lemma_plain_color(idx: nat)
    ensures
        ansi::plain(ansi::fg_color(idx)),
        ansi::plain(ansi::bg_color(idx)),
        ansi::plain(ansi::row_start(idx)),
{
    lemma_plain_sequences();
    lemma_plain_decimal(idx);
}

proof fn lemma_plain_breaks(p: Platform)
    ensures
        ansi::plain(ansi::newline(p)),
        ansi::plain(ansi::separator(p)),
{
    reveal(ansi::plain);
    reveal_strlit("\n");
    reveal_strlit("\x1B[0K\x1B[1E\x1B[1G");
    reveal_strlit("|");
    reveal_strlit("\u{258f}");
}

proof fn lemma_plain_prompt()
    ensures
        ansi::plain(screens::prompt_text()),
{
    reveal(screens::prompt_text);
    lemma_plain_sequences();
    reveal_strlit("Press return to continue...");
    lemma_no_question("Press return to continue..."@);
}

proof fn lemma_plain_report(p: Platform, size: TermSize)
    ensures
        ansi::plain(screens::size_report(p, size)),
{
    lemma_plain_sequences();
    lemma_plain_breaks(p);
    lemma_plain_decimal(size.width as nat);
    lemma_plain_decimal(size.height as nat);
    reveal_strlit("Screen size: ");
    reveal_strlit("w x ");
    reveal_strlit("h");
    lemma_no_question("Screen size: "@);
    lemma_no_question("w x "@);
    lemma_no_question("h"@);
}

proof fn lemma_plain_complaint(size: TermSize)
    ensures
        ansi::plain(screens::size_complaint(size)),
{
    lemma_plain_decimal(size.width as nat);
    lemma_plain_decimal(size.height as nat);
    lemma_plain_decimal(screens::MIN_WIDTH as nat);
    lemma_plain_decimal(screens::MIN_HEIGHT as nat);
    reveal_strlit("Screen may be too short - height is ");
    reveal_strlit("Screen may be too narrow - width is ");
    reveal_strlit("Screen is too small - have ");
    reveal_strlit(" and need ");
    reveal_strlit(" x ");
    reveal_strlit(".");
    lemma_no_question("Screen may be too short - height is "@);
    lemma_no_question("Screen may be too narrow - width is "@);
    lemma_no_question("Screen is too small - have "@);
    lemma_no_question(" and need "@);
    lemma_no_question(" x "@);
    lemma_no_question("."@);
}

proof fn lemma_plain_warning(p: Platform, size: TermSize)
    ensures
        ansi::plain(screens::size_warning(p, size)),
{
    reveal(screens::size_warning);
    lemma_plain_sequences();
    lemma_plain_breaks(p);
    lemma_plain_report(p, size);
    lemma_plain_complaint(size);
    lemma_plain_color(9);
    lemma_plain_color(1);
    lemma_plain_color(15);
    reveal_strlit(
        "There may be rendering issues on the next screen; to correct, <q><enter>, resize and try again.",
    );
    lemma_no_question(
        "There may be rendering issues on the next screen; to correct, <q><enter>, resize and try again."@,
    );
    reveal_strlit("Continue?");
    assert(ansi::plain("Continue?"@)) by {
        reveal(ansi::plain);
    }
}

proof fn lemma_plain_standard(p: Platform, first: nat, n: nat)
    ensures
        ansi::plain(screens::standard_row(p, first, n)),
    decreases n,
{
    lemma_plain_sequences();
    if n > 0 {
        let idx = (first + n - 1) as nat;
        lemma_plain_standard(p, first, (n - 1) as nat);
        lemma_plain_breaks(p);
        lemma_plain_color(idx);
        lemma_plain_color(0);
        lemma_plain_padded(idx, 2);
        reveal_strlit(" ");
        reveal_strlit("  ");
        lemma_no_question(" "@);
        lemma_no_question("  "@);
    }
}

proof fn lemma_plain_cube_row(row: nat, n: nat)
    ensures
        ansi::plain(screens::cube_row(row, n)),
    decreases n,
{
    lemma_plain_sequences();
    if n > 0 {
        let column = (n - 1) as nat;
        let idx = column + row * 36 + 16;
        lemma_plain_cube_row(row, column);
        lemma_plain_color(idx);
        lemma_plain_color(0);
        lemma_plain_color(15);
        lemma_plain_padded(idx, 3);
    }
}

proof fn lemma_plain_cube(p: Platform, n: nat)
    ensures
        ansi::plain(screens::cube_rows(p, n)),
    decreases n,
{
    lemma_plain_sequences();
    if n > 0 {
        lemma_plain_cube(p, (n - 1) as nat);
        lemma_plain_cube_row((n - 1) as nat, 36);
        lemma_plain_breaks(p);
    }
}

proof fn lemma_plain_gray(p: Platform, n: nat)
    ensures
        ansi::plain(screens::gray_row(p, n)),
    decreases n,
{
    lemma_plain_sequences();
    if n > 0 {
        let idx = (232 + n - 1) as nat;
        lemma_plain_gray(p, (n - 1) as nat);
        lemma_plain_breaks(p);
        lemma_plain_color(idx);
        lemma_plain_color(0);
        lemma_plain_decimal(idx);
        reveal_strlit(" ");
        lemma_no_question(" "@);
    }
}

proof fn lemma_plain_label(p: Platform, name: Seq<char>)
    requires
        ansi::plain(name),
    ensures
        ansi::plain(screens::label(p, name)),
{
    lemma_plain_sequences();
    lemma_plain_breaks(p);
    reveal_strlit(":");
    lemma_no_question(":"@);
}

proof fn lemma_plain_preview(p: Platform, size: TermSize)
    ensures
        ansi::plain(screens::preview(p, size)),
{
    reveal(screens::preview);
    lemma_plain_sequences();
    lemma_plain_breaks(p);
    lemma_plain_report(p, size);
    lemma_plain_color(15);
    lemma_plain_standard(p, 0, 8);
    lemma_plain_standard(p, 8, 8);
    lemma_plain_cube(p, 6);
    lemma_plain_gray(p, 24);
    reveal_strlit("Standard colors");
    reveal_strlit("216 colors");
    reveal_strlit("Grayscale");
    lemma_no_question("Standard colors"@);
    lemma_no_question("216 colors"@);
    lemma_no_question("Grayscale"@);
    lemma_plain_label(p, "Standard colors"@);
    lemma_plain_label(p, "216 colors"@);
    lemma_plain_label(p, "Grayscale"@);
    assert(ansi::plain(screens::standard_chart(p)));
    assert(ansi::plain(screens::cube_chart(p)));
    assert(ansi::plain(screens::gray_chart(p)));
}

proof fn lemma_plain_field(p: Platform)
    ensures
        ansi::plain(screens::marquee_field(p)),
{
    reveal(screens::marquee_field);
    lemma_plain_sequences();
    lemma_plain_breaks(p);
    lemma_plain_color(screens::MARQUEE_BG as nat);
}

proof fn lemma_plain_lines(line: nat)
    ensures
        ansi::plain(screens::marquee_upper(line)),
        ansi::plain(screens::marquee_lower(line)),
{
    lemma_plain_sequences();
    reveal_strlit("  Things move along so rapidly nowadays that people saying ");
    reveal_strlit("It can't be done");
    reveal_strlit(" are always being interrupted");
    reveal_strlit("  Test your might!");
    reveal_strlit("  How much is the fish?");
    reveal_strlit(
        "  by somebody doing it.                                                                    ",
    );
    reveal_strlit("-- Puck, 1902");
    reveal_strlit("  ");
    reveal_strlit("-- Mortal Kombat");
    reveal_strlit("             ");
    reveal_strlit("-- Scooter");
    lemma_no_question("  Things move along so rapidly nowadays that people saying "@);
    lemma_no_question("It can't be done"@);
    lemma_no_question(" are always being interrupted"@);
    lemma_no_question("  Test your might!"@);
    assert(ansi::plain("  How much is the fish?"@)) by {
        reveal(ansi::plain);
    }
    lemma_no_question(
        "  by somebody doing it.                                                                    "@,
    );
    lemma_no_question("-- Puck, 1902"@);
    lemma_no_question("  "@);
    lemma_no_question("-- Mortal Kombat"@);
    lemma_no_question("             "@);
    lemma_no_question("-- Scooter"@);
}

proof fn lemma_plain_marquee(p: Platform, line: nat, frame: nat)
    ensures
        ansi::plain(session::marquee_step(p, line, frame)),
{
    reveal(screens::marquee_text);
    lemma_plain_sequences();
    lemma_plain_breaks(p);
    lemma_plain_color(screens::MARQUEE_BG as nat);
    lemma_plain_color(session::step_color(frame));
    lemma_plain_lines(line);
}

proof fn lemma_plain_row(fire: FireModel, r: nat, n: nat)
    requires
        fire.shaped(),
        fire.in_palette(),
        r < fire.height / 2,
        n <= fire.width,
    ensures
        ansi::plain(frame::row_text(fire, ansi::fg_table(), ansi::bg_table(), r, n)),
    decreases n,
{
    lemma_plain_sequences();
    if n > 0 {
        let x = (n - 1) as nat;
        lemma_plain_row(fire, r, x);
        crate::fire::lemma_cell_index(fire.width, fire.height, x, 2 * r);
        crate::fire::lemma_cell_index(fire.width, fire.height, x, 2 * r + 1);
        let hi = FIRE_PALETTE@[frame::upper(fire, r, x) as int];
        let lo = FIRE_PALETTE@[frame::lower(fire, r, x) as int];
        crate::fire::law_palette_fits_color_table(frame::upper(fire, r, x));
        crate::fire::law_palette_fits_color_table(frame::lower(fire, r, x));
        lemma_plain_color(hi as nat);
        lemma_plain_color(lo as nat);
        assert(ansi::fg_table()[hi as int] == ansi::fg_color(hi as nat));
        assert(ansi::bg_table()[lo as int] == ansi::bg_color(lo as nat));
        assert(ansi::plain(frame::bg_change(fire, ansi::bg_table(), r, x)));
        assert(ansi::plain(frame::fg_change(fire, ansi::fg_table(), r, x)));
    }
}

proof fn lemma_plain_rows(fire: FireModel, n: nat)
    requires
        fire.shaped(),
        fire.in_palette(),
        n <= fire.height / 2,
    ensures
        ansi::plain(frame::rows_text(fire, ansi::fg_table(), ansi::bg_table(), n)),
    decreases n,
{
    lemma_plain_sequences();
    if n > 0 {
        let r = (n - 1) as nat;
        lemma_plain_rows(fire, r);
        lemma_plain_row(fire, r, fire.width);
        lemma_plain_color(r + 1);
    }
}

proof fn lemma_plain_frame(fire: FireModel, size: TermSize, status: StatusModel)
    requires
        fire.shaped(),
        fire.in_palette(),
        size.width >= 1,
        status.numeric(),
    ensures
        ansi::plain(frame::frame_text(fire, ansi::fg_table(), ansi::bg_table())),
        ansi::plain(frame::status_text(size, status)),
{
    lemma_plain_sequences();
    lemma_plain_rows(fire, fire.height / 2);
    lemma_plain_color(0);
    assert(ansi::fg_table()[0] == ansi::fg_color(0));
    assert(ansi::bg_table()[0] == ansi::bg_color(0));
    lemma_plain_color(size.height as nat);
    frame_laws::lemma_numeric_line(status);
    assert(ansi::plain(status.clipped(size.width as nat))) by {
        reveal(ansi::plain);
        let line = status.line();
        let clipped = status.clipped(size.width as nat);
        assert forall|i: int| 0 <= i < clipped.len() && #[trigger] clipped[i] == '?' implies i > 0
            && clipped[i - 1] != '[' by {
            assert(line[i] == '?');
        }
    }
}

/// The line break that an interrupted marquee still writes, if it is due.
spec fn due_break(app: AppModel) -> Seq<char> {
    match app.stage {
        Stage::Marquee { frame, .. } if frame + 1 == MARQUEE_STEPS => ansi::newline(app.platform),
        _ => Seq::empty(),
    }
}

/// What the marquee writes after one of its steps.
spec fn marquee_after(app: AppModel, line: usize, frame: usize) -> Seq<char> {
    if frame + 1 < MARQUEE_STEPS {
        session::marquee_step(app.platform, line as nat, (frame + 1) as nat)
    } else if line + 1 < MARQUEE_LINES {
        ansi::newline(app.platform) + session::marquee_step(app.platform, (line + 1) as nat, 0)
    } else {
        ansi::newline(app.platform) + screens::prompt_text()
    }
}

proof fn lemma_plain_after(app: AppModel, line: usize, frame: usize)
    ensures
        ansi::plain(marquee_after(app, line, frame)),
        ansi::plain(due_break(app)),
{
    lemma_plain_sequences();
    lemma_plain_breaks(app.platform);
    lemma_plain_prompt();
    lemma_plain_marquee(app.platform, line as nat, (frame + 1) as nat);
    lemma_plain_marquee(app.platform, (line + 1) as nat, 0);
}

/// What a step writes, apart from what takes the screen over or gives it back.
spec fn step_text(app: AppModel, event: Event, memory: bool, now: u64) -> Seq<char> {
    let p = app.platform;
    let interrupted = app.signals.interrupted;
    match (app.hold, app.stage, event) {
        (Hold::Looking, Stage::Marquee { line, frame, deadline }, _) => if interrupted {
            due_break(app)
        } else if app.suspends() {
            Seq::empty()
        } else {
            let end = match deadline {
                Some(deadline) => deadline,
                None => session::later(now, session::step_time(frame as nat)),
            };
            if end <= now {
                marquee_after(app, line, frame)
            } else {
                Seq::empty()
            }
        },
        (Hold::Looking, _, _) => Seq::empty(),
        (Hold::Suspended { .. }, _, _) => if interrupted {
            due_break(app)
        } else {
            Seq::empty()
        },
        (Hold::Resuming { .. }, _, _) => Seq::empty(),
        (Hold::Redrawing { .. }, Stage::Prompt(screen), _) => if interrupted {
            Seq::empty()
        } else {
            match screen {
                PauseScreen::SizeWarning => screens::size_warning(p, app.term_sz)
                    + screens::prompt_text(),
                PauseScreen::Capabilities => screens::preview(p, app.term_sz)
                    + screens::prompt_text(),
            }
        },
        (Hold::Redrawing { .. }, Stage::Marquee { line, frame, .. }, _) => if interrupted {
            due_break(app)
        } else {
            screens::preview(p, app.term_sz) + screens::marquee_field(p) + marquee_after(
                app,
                line,
                frame,
            )
        },
        (Hold::Redrawing { .. }, _, _) => Seq::empty(),
        (Hold::Running, Stage::Ready, _) => if screens::roomy(app.term_sz) {
            Seq::empty()
        } else {
            screens::size_warning(p, app.term_sz) + screens::prompt_text()
        },
        (Hold::Running, Stage::Prompt(PauseScreen::SizeWarning), Event::Answer(answer)) => if (
        answer is Continue || answer is Closed) && !interrupted {
            COLOR_RESET@ + CURSOR_HOME@ + SCREEN_CLEAR@
        } else {
            Seq::empty()
        },
        (Hold::Running, Stage::Measuring, Event::Size(size)) => if !size.valid() {
            Seq::empty()
        } else if interrupted {
            screens::preview(p, size) + screens::marquee_field(p)
        } else {
            screens::preview(p, size) + screens::marquee_field(p) + session::marquee_step(p, 0, 0)
        },
        (Hold::Running, Stage::Kindling, Event::Size(size)) => if size.valid() && memory {
            SCREEN_CLEAR@
        } else {
            Seq::empty()
        },
        (Hold::Running, Stage::Burning, Event::Size(size)) => if size.valid() && memory && size
            != app.show.unwrap().frame.term_sz {
            SCREEN_CLEAR@
        } else {
            Seq::empty()
        },
        (Hold::Running, Stage::Painting, Event::Status(status)) => frame::frame_text(
            app.show.unwrap().fire,
            ansi::fg_table(),
            ansi::bg_table(),
        ) + frame::status_text(app.show.unwrap().frame.term_sz, status@),
        _ => Seq::empty(),
    }
}

/// What a step writes about the screen.
spec fn handover(app: AppModel, next: AppModel) -> Seq<char> {
    if app.active && !next.active {
        ansi::screen_off()
    } else if !app.active && next.active {
        ansi::screen_on()
    } else {
        Seq::empty()
    }
}

#[verifier::rlimit(50)]
proof fn lemma_step_output(app: AppModel, event: Event, memory: bool, now: u64)
    requires
        app.consistent(),
        app.awaits(event),
    ensures
        ({
            let next = app.step(event, memory, now).0;
            next.out == app.out + text::utf8(
                step_text(app, event, memory, now) + handover(app, next),
            )
        }),
{
    text::lemma_utf8_empty();
}

#[verifier::rlimit(50)]
proof fn lemma_step_plain(app: AppModel, event: Event, memory: bool, now: u64)
    requires
        app.consistent(),
        app.awaits(event),
    ensures
        ansi::plain(step_text(app, event, memory, now)),
{
    lemma_plain_sequences();
    lemma_plain_prompt();
    lemma_plain_warning(app.platform, app.term_sz);
    lemma_plain_preview(app.platform, app.term_sz);
    lemma_plain_field(app.platform);
    lemma_plain_marquee(app.platform, 0, 0);
    match app.stage {
        Stage::Marquee { line, frame, .. } => {
            lemma_plain_after(app, line, frame);
        },
        _ => {},
    }
    match event {
        Event::Size(size) => {
            lemma_plain_preview(app.platform, size);
        },
        Event::Status(status) => {
            if app.stage is Painting {
                let show = app.show.unwrap();
                lemma_plain_frame(show.fire, show.frame.term_sz, status@);
            }
        },
        _ => {},
    }
}

/// Whether a text is what was written so far, and the screen changes hands in turn in it. The
/// program has the screen where `active` says so.
spec fn written_in_turn(sent: Seq<u8>, active: bool, t: Seq<char>) -> bool {
    &&& sent == text::utf8(t)
    &&& closed_text(t)
    &&& in_turn(changes(t))
    &&& changes(t).len() % 2 == 1 <==> active
}

/// The text that was written after a step whose output follows what was written before.
#[verifier::rlimit(50)]
proof fn lemma_step_in_turn(
    app: AppModel,
    event: Event,
    memory: bool,
    now: u64,
    sent: Seq<u8>,
    t: Seq<char>,
) -> (u: Seq<char>)
    requires
        app.consistent(),
        app.awaits(event),
        app.out.len() == 0,
        written_in_turn(sent, app.active, t),
    ensures
        ({
            let next = app.step(event, memory, now).0;
            written_in_turn(sent + next.out, next.active, u)
        }),
{
    let next = app.step(event, memory, now).0;
    let x = step_text(app, event, memory, now);
    let h = handover(app, next);
    lemma_step_output(app, event, memory, now);
    lemma_step_plain(app, event, memory, now);
    lemma_changes_plain(t, x);
    lemma_changes_on(t + x);
    lemma_changes_off(t + x);
    assert(t + x + Seq::<char>::empty() =~= t + x);
    let u = t + x + h;
    assert(next.out =~= text::utf8(x + h));
    assert(sent + next.out == text::utf8(u)) by {
        text::lemma_concat_assoc(t, x, h);
        text::lemma_utf8_concat(t, x + h);
    }
    u
}

/// A turn goes on with what was written, and leaves open what the terminal shows: that is for the
/// writes to say.
proof fn lemma_turn_in_turn(c: Course, turn: Turn, t: Seq<char>) -> (u: Seq<char>)
    requires
        c.app.consistent(),
        c.app.awaits(turn.event),
        c.app.out.len() == 0,
        written_in_turn(c.sent, c.app.active, t),
    ensures
        written_in_turn(c.sent + c.stepped(turn).out, c.stepped(turn).active, u),
        c.stepped(turn).taken == c.app.taken,
{
    reveal(Course::stepped);
    let app = session_laws::signaled(c.app, turn.signals);
    lemma_taken_is_kept(app, turn.event, turn.memory, turn.now);
    lemma_step_in_turn(app, turn.event, turn.memory, turn.now, c.sent, t)
}

proof fn lemma_taken_is_kept(app: AppModel, event: Event, memory: bool, now: u64)
    ensures
        app.step(event, memory, now).0.taken == app.taken,
{
}

/// The text that a program writes first.
proof fn lemma_begun_in_turn(platform: Platform, size: TermSize, seed: u64) -> (t: Seq<char>)
    ensures
        ({
            let c = Course::begun(platform, size, seed);
            written_in_turn(c.sent, c.app.active, t)
        }),
{
    let none = Seq::<char>::empty();
    lemma_changes_on(none);
    assert(none + ansi::screen_on() =~= ansi::screen_on());
    lemma_plain_sequences();
    match platform {
        Platform::Unix => ansi::screen_on(),
        Platform::Windows => {
            lemma_changes_plain(ansi::screen_on(), CHAR_SET_ASCII@);
            ansi::screen_on() + CHAR_SET_ASCII@
        },
    }
}

/// The text that a course writes.
#[verifier::rlimit(50)]
proof fn lemma_course_text(platform: Platform, size: TermSize, seed: u64, turns: Seq<Turn>) -> (t:
    Seq<char>)
    requires
        size.valid(),
        Course::begun(platform, size, seed).proper(turns),
    ensures
        ({
            let c = Course::begun(platform, size, seed).after_turns(turns);
            written_in_turn(c.sent, c.app.active, t)
        }),
    decreases turns.len(),
{
    if turns.len() == 0 {
        lemma_begun_in_turn(platform, size, seed)
    } else {
        let earlier = turns.drop_last();
        let t = lemma_course_text(platform, size, seed, earlier);
        session_laws::law_every_course_stays_consistent(platform, size, seed, earlier);
        let c = Course::begun(platform, size, seed).after_turns(earlier);
        lemma_turn_in_turn(c, turns.last(), t)
    }
}

/// Whatever happens, the screen changes hands in turn in what is handed out and written to the
/// terminal: it is taken over first, and given back exactly once before it is taken over again and
/// before the program ends. All that is written is valid UTF-8.
#[verifier::rlimit(50)]
pub proof fn law_screen_changes_hands_in_turn(
    platform: Platform,
    size: TermSize,
    seed: u64,
    turns: Seq<Turn>,
)
    requires
        size.valid(),
        Course::begun(platform, size, seed).proper(turns),
    ensures
        ({
            let c = Course::begun(platform, size, seed).after_turns(turns);
            let written = vstd::utf8::decode_utf8(c.sent);
            &&& vstd::utf8::valid_utf8(c.sent)
            &&& in_turn(changes(written))
            &&& changes(written).len() % 2 == 1 <==> c.app.active
            &&& c.app.stage is Over || c.app.hold is Suspended ==> changes(written).len() % 2 == 0
        }),
{
    let t = lemma_course_text(platform, size, seed, turns);
    text::lemma_utf8_valid(t);
    session_laws::law_every_course_stays_consistent(platform, size, seed, turns);
}

/// What happens when the output of a turn cannot be written. The screen is then still to be given
/// back if the program had it before the turn or has it after. What does so is all that is handed
/// out any more; it is handed out again until it could be written, and then no more. Where the
/// program had the screen, everything written then has the screen change hands in turn, with the
/// giving back at the end.
#[verifier::rlimit(50)]
pub proof fn law_failed_write_gives_screen_back(
    platform: Platform,
    size: TermSize,
    seed: u64,
    turns: Seq<Turn>,
    turn: Turn,
)
    requires
        size.valid(),
        Course::begun(platform, size, seed).proper(turns.push(turn)),
    ensures
        ({
            let c = Course::begun(platform, size, seed).after_turns(turns);
            let failed = c.stepped(turn).handed_out().written(false);
            let last = failed.restored();
            let off = text::utf8(ansi::screen_off());
            let written = vstd::utf8::decode_utf8(c.sent + off);
            &&& failed.taken <==> c.app.active || c.stepped(turn).active
            &&& failed.taken ==> {
                &&& last.out == off
                &&& last.handed_out().written(false).restored() == last
                &&& !last.handed_out().written(true).taken
            }
            &&& !failed.taken ==> last == failed && last.out.len() == 0
            &&& c.app.active ==> in_turn(changes(written)) && changes(written).len() % 2 == 0
        }),
{
    let all = turns.push(turn);
    assert(all.drop_last() =~= turns);
    assert(all.last() == turn);
    let c = Course::begun(platform, size, seed).after_turns(turns);
    let t = lemma_course_text(platform, size, seed, turns);
    session_laws::law_every_course_stays_consistent(platform, size, seed, turns);
    lemma_turn_in_turn(c, turn, t);
    let failed = c.stepped(turn).handed_out().written(false);
    if failed.taken {
        crate::app::law_screen_is_restored_until_written(failed);
    }
    lemma_changes_off(t);
    text::lemma_utf8_valid(t + ansi::screen_off());
}

/// What was written is never taken back or changed: each step only adds to it.
pub proof fn law_output_only_grows(app: AppModel, event: Event, memory: bool, now: u64)
    requires
        app.consistent(),
        app.awaits(event),
    ensures
        app.out.is_prefix_of(app.step(event, memory, now).0.out),
{
    lemma_step_output(app, event, memory, now);
    let next = app.step(event, memory, now).0;
    assert(next.out.subrange(0, app.out.len() as int) =~= app.out);
}

} // verus!
