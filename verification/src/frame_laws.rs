//! What holds of every frame.

use vstd::prelude::*;

use crate::ansi;
use crate::ansi::BG_KIND;
use crate::ansi::COLOR_DEF;
use crate::ansi::COLOR_RESET;
use crate::ansi::CURSOR_HOME;
use crate::ansi::FG_KIND;
use crate::ansi::LAST_COLOR;
use crate::ansi::LINE_CLEAR_TO_EOL;
use crate::ansi::MAX_COLOR;
use crate::ansi::PX;
use crate::fire::FireModel;
use crate::fire::FIRE_PALETTE;
use crate::frame;
use crate::frame::FrameModel;
use crate::frame::StatusModel;
use crate::frame::Stats;
use crate::size::TermSize;
use crate::text;

verus! {

broadcast use text::group_text;

/// Whether a fire fills a terminal of the given size, all rows but the last.
pub open spec fn fills(fire: FireModel, size: TermSize) -> bool {
    &&& fire.shaped()
    &&& fire.in_palette()
    &&& fire.width == size.width
    &&& fire.height == 2 * (size.height - 1)
}

/// A text without line breaks.
pub open spec fn unbroken(s: Seq<char>) -> bool {
    forall|i: int| 0 <= i < s.len() ==> #[trigger] s[i] != '\n' && s[i] != '\r'
}

/// The number of half blocks in a text.
pub open spec fn half_blocks(s: Seq<char>) -> nat
    decreases s.len(),
{
    if s.len() == 0 {
        0
    } else {
        half_blocks(s.drop_last()) + if s.last() == '\u{2580}' {
            1nat
        } else {
            0nat
        }
    }
}

/// The background in force when a cell is drawn: the last one that was set.
pub open spec fn background_at(fire: FireModel, r: nat, x: nat) -> Seq<char>
    decreases r, x,
{
    if frame::bg_change(fire, ansi::bg_table(), r, x).len() > 0 {
        frame::bg_change(fire, ansi::bg_table(), r, x)
    } else if x > 0 {
        background_at(fire, r, (x - 1) as nat)
    } else if r > 0 {
        background_at(fire, (r - 1) as nat, (fire.width - 1) as nat)
    } else {
        ansi::bg_table()[0]
    }
}

/// The foreground in force when a cell is drawn: the last one that was set.
pub open spec fn foreground_at(fire: FireModel, r: nat, x: nat) -> Seq<char>
    decreases r, x,
{
    if frame::fg_change(fire, ansi::fg_table(), r, x).len() > 0 {
        frame::fg_change(fire, ansi::fg_table(), r, x)
    } else if x > 0 {
        foreground_at(fire, r, (x - 1) as nat)
    } else if r > 0 {
        foreground_at(fire, (r - 1) as nat, (fire.width - 1) as nat)
    } else {
        ansi::fg_table()[0]
    }
}

/// The sum of a row of numbers.
pub open spec fn sum(lens: Seq<nat>) -> nat
    decreases lens.len(),
{
    if lens.len() == 0 {
        0
    } else {
        sum(lens.drop_last()) + lens.last()
    }
}

proof fn lemma_decimal_len(n: nat)
    ensures
        n < 10 ==> text::decimal(n).len() == 1,
        n < 100 ==> text::decimal(n).len() <= 2,
        n < 1000 ==> text::decimal(n).len() <= 3,
        100 <= n < 1000 ==> text::decimal(n).len() == 3,
        n < 10_000_000 ==> text::decimal(n).len() <= 7,
{
    reveal_with_fuel(text::decimal, 8);
}

/// The sequence of a color is ASCII, and at most as long as that of the last color.
proof fn lemma_color(kind: Seq<char>, i: nat)
    requires
        kind == FG_KIND@ || kind == BG_KIND@,
        i < MAX_COLOR,
    ensures
        vstd::utf8::is_ascii_chars(ansi::color(kind, i)),
        unbroken(ansi::color(kind, i)),
        ansi::color(kind, i).len() <= 11,
        i == 0 ==> ansi::color(kind, i).len() == 9,
        i == LAST_COLOR ==> ansi::color(kind, i).len() == 11,
        text::utf8(ansi::color(kind, i)).len() == ansi::color(kind, i).len(),
        half_blocks(ansi::color(kind, i)) == 0,
        ansi::color(kind, i).len() > 0,
{
    reveal_strlit("\x1B[");
    reveal_strlit("38;5;");
    reveal_strlit("48;5;");
    reveal_strlit("m");
    lemma_decimal_len(i);
    text::lemma_decimal_digits(i);
    let c = ansi::color(kind, i);
    let d = text::decimal(i);
    assert forall|j: int| 0 <= j < c.len() implies '\x1B' <= #[trigger] c[j] <= '\x7F' by {
        if 7 <= j < 7 + d.len() {
            assert(c[j] == d[j - 7]);
        }
    }
    text::lemma_utf8_ascii(c);
    lemma_no_half_blocks(c);
}

proof fn lemma_no_half_blocks(s: Seq<char>)
    requires
        vstd::utf8::is_ascii_chars(s),
    ensures
        half_blocks(s) == 0,
    decreases s.len(),
{
    if s.len() > 0 {
        assert(vstd::utf8::is_ascii_chars(s.drop_last()));
        lemma_no_half_blocks(s.drop_last());
    }
}

proof fn lemma_half_blocks_concat(a: Seq<char>, b: Seq<char>)
    ensures
        half_blocks(a + b) == half_blocks(a) + half_blocks(b),
    decreases b.len(),
{
    if b.len() == 0 {
        assert(a + b =~= a);
    } else {
        assert((a + b).drop_last() =~= a + b.drop_last());
        lemma_half_blocks_concat(a, b.drop_last());
    }
}

proof fn lemma_px()
    ensures
        PX@ == seq!['\u{2580}'],
        text::utf8(PX@).len() == 3,
        half_blocks(PX@) == 1,
        unbroken(PX@),
{
    reveal_strlit("\u{2580}");
    assert(PX@ =~= seq!['\u{2580}']);
    reveal(text::utf8);
    reveal_with_fuel(vstd::utf8::encode_utf8, 2);
    reveal_with_fuel(half_blocks, 2);
    assert(PX@.drop_last() =~= Seq::<char>::empty());
}

proof fn lemma_row_start(row: nat)
    requires
        row < 10_000_000,
    ensures
        vstd::utf8::is_ascii_chars(ansi::row_start(row)),
        unbroken(ansi::row_start(row)),
        text::utf8(ansi::row_start(row)).len() <= 12,
{
    reveal_strlit("\x1B[");
    reveal_strlit(";1H");
    lemma_decimal_len(row);
    text::lemma_decimal_digits(row);
    let c = ansi::row_start(row);
    let d = text::decimal(row);
    assert forall|j: int| 0 <= j < c.len() implies '\x1B' <= #[trigger] c[j] <= '\x7F' by {
        if 2 <= j < 2 + d.len() {
            assert(c[j] == d[j - 2]);
        }
    }
    text::lemma_utf8_ascii(c);
}

/// The heat values of a cell have colors.
proof fn lemma_cell_in_palette(fire: FireModel, r: nat, x: nat)
    requires
        fire.shaped(),
        fire.in_palette(),
        r < fire.height / 2,
        x < fire.width,
    ensures
        frame::upper(fire, r, x) <= 25,
        frame::lower(fire, r, x) <= 25,
        FIRE_PALETTE@[frame::upper(fire, r, x) as int] < MAX_COLOR,
        FIRE_PALETTE@[frame::lower(fire, r, x) as int] < MAX_COLOR,
{
    crate::fire::lemma_cell_index(fire.width, fire.height, x, 2 * r);
    crate::fire::lemma_cell_index(fire.width, fire.height, x, 2 * r + 1);
    crate::fire::law_palette_fits_color_table(frame::upper(fire, r, x));
    crate::fire::law_palette_fits_color_table(frame::lower(fire, r, x));
}

/// A cell is unbroken text of at most 25 bytes with one half block.
#[verifier::rlimit(50)]
proof fn lemma_cell_text(fire: FireModel, r: nat, x: nat)
    requires
        fire.shaped(),
        fire.in_palette(),
        r < fire.height / 2,
        x < fire.width,
    ensures
        text::utf8(frame::cell_text(fire, ansi::fg_table(), ansi::bg_table(), r, x)).len() <= 25,
        unbroken(frame::cell_text(fire, ansi::fg_table(), ansi::bg_table(), r, x)),
        half_blocks(frame::cell_text(fire, ansi::fg_table(), ansi::bg_table(), r, x)) == 1,
{
    lemma_px();
    text::lemma_utf8_empty();
    lemma_cell_in_palette(fire, r, x);
    let lo = FIRE_PALETTE@[frame::lower(fire, r, x) as int];
    let hi = FIRE_PALETTE@[frame::upper(fire, r, x) as int];
    assert(ansi::bg_table()[lo as int] == ansi::color(BG_KIND@, lo as nat));
    assert(ansi::fg_table()[hi as int] == ansi::color(FG_KIND@, hi as nat));
    lemma_color(BG_KIND@, lo as nat);
    lemma_color(FG_KIND@, hi as nat);
    let b = frame::bg_change(fire, ansi::bg_table(), r, x);
    let f = frame::fg_change(fire, ansi::fg_table(), r, x);
    assert(half_blocks(Seq::<char>::empty()) == 0);
    assert(text::utf8(b).len() <= 11 && unbroken(b) && half_blocks(b) == 0);
    assert(text::utf8(f).len() <= 11 && unbroken(f) && half_blocks(f) == 0);
    lemma_half_blocks_concat(b, f);
    lemma_half_blocks_concat(b + f, PX@);
    assert(text::utf8(b + f + PX@) == text::utf8(b) + text::utf8(f) + text::utf8(PX@));
}

proof fn lemma_row_text(fire: FireModel, r: nat, n: nat)
    requires
        fire.shaped(),
        fire.in_palette(),
        r < fire.height / 2,
        n <= fire.width,
    ensures
        text::utf8(frame::row_text(fire, ansi::fg_table(), ansi::bg_table(), r, n)).len() <= 25 * n,
        unbroken(frame::row_text(fire, ansi::fg_table(), ansi::bg_table(), r, n)),
        half_blocks(frame::row_text(fire, ansi::fg_table(), ansi::bg_table(), r, n)) == n,
    decreases n,
{
    if n == 0 {
        text::lemma_utf8_empty();
    } else {
        let m = (n - 1) as nat;
        lemma_row_text(fire, r, m);
        lemma_cell_text(fire, r, m);
        lemma_half_blocks_concat(
            frame::row_text(fire, ansi::fg_table(), ansi::bg_table(), r, m),
            frame::cell_text(fire, ansi::fg_table(), ansi::bg_table(), r, m),
        );
    }
}

#[verifier::rlimit(50)]
proof fn lemma_rows_text(fire: FireModel, n: nat)
    requires
        fire.shaped(),
        fire.in_palette(),
        fire.height < 10_000_000,
        n <= fire.height / 2,
    ensures
        text::utf8(frame::rows_text(fire, ansi::fg_table(), ansi::bg_table(), n)).len() <= n * 12
            + 25 * fire.width * n,
        unbroken(frame::rows_text(fire, ansi::fg_table(), ansi::bg_table(), n)),
        half_blocks(frame::rows_text(fire, ansi::fg_table(), ansi::bg_table(), n)) == fire.width
            * n,
    decreases n,
{
    text::lemma_utf8_empty();
    if n > 0 {
        let r = (n - 1) as nat;
        lemma_rows_text(fire, r);
        lemma_row_text(fire, r, fire.width);
        lemma_row_start(r + 1);
        assert(text::utf8(frame::row_move(r)).len() <= 12 && unbroken(frame::row_move(r)));
        assert(25 * fire.width * n == 25 * fire.width * r + 25 * fire.width) by (nonlinear_arith)
            requires
                n == r + 1,
        ;
        let rows = frame::rows_text(fire, ansi::fg_table(), ansi::bg_table(), r);
        let mv = frame::row_move(r);
        let row = frame::row_text(fire, ansi::fg_table(), ansi::bg_table(), r, fire.width);
        assert(text::utf8(rows + mv + row) == text::utf8(rows) + text::utf8(mv) + text::utf8(row));
        assert(frame::rows_text(fire, ansi::fg_table(), ansi::bg_table(), n) == rows + mv + row);
    }
    lemma_rows_half_blocks(fire, n);
}

#[verifier::rlimit(50)]
proof fn lemma_rows_half_blocks(fire: FireModel, n: nat)
    requires
        fire.shaped(),
        fire.in_palette(),
        fire.height < 10_000_000,
        n <= fire.height / 2,
    ensures
        half_blocks(frame::rows_text(fire, ansi::fg_table(), ansi::bg_table(), n)) == fire.width
            * n,
    decreases n,
{
    if n == 0 {
        assert(fire.width * n == 0) by (nonlinear_arith)
            requires
                n == 0,
        ;
    } else {
        let r = (n - 1) as nat;
        let rows = frame::rows_text(fire, ansi::fg_table(), ansi::bg_table(), r);
        let mv = frame::row_move(r);
        let row = frame::row_text(fire, ansi::fg_table(), ansi::bg_table(), r, fire.width);
        lemma_rows_half_blocks(fire, r);
        lemma_row_text(fire, r, fire.width);
        lemma_row_start(r + 1);
        lemma_no_half_blocks(ansi::row_start(r + 1));
        assert(half_blocks(mv) == 0);
        lemma_half_blocks_concat(rows, mv);
        lemma_half_blocks_concat(rows + mv, row);
        assert(frame::rows_text(fire, ansi::fg_table(), ansi::bg_table(), n) == rows + mv + row);
        assert(half_blocks(rows + mv + row) == fire.width * r + fire.width);
        assert(fire.width * n == fire.width * r + fire.width) by (nonlinear_arith)
            requires
                n == r + 1,
        ;
    }
}

#[verifier::rlimit(50)]
proof fn lemma_frame_text(fire: FireModel, size: TermSize)
    requires
        size.valid(),
        fills(fire, size),
    ensures
        text::utf8(frame::frame_text(fire, ansi::fg_table(), ansi::bg_table())).len() <= 28
            + (size.height - 1) * 12 + 25 * size.width * (size.height - 1),
        unbroken(frame::frame_text(fire, ansi::fg_table(), ansi::bg_table())),
        half_blocks(frame::frame_text(fire, ansi::fg_table(), ansi::bg_table())) == size.width * (
        size.height - 1),
{
    crate::size::lemma_valid_bounds(size);
    let n = (size.height - 1) as nat;
    assert(fire.height / 2 == n);
    lemma_rows_text(fire, n);
    reveal_strlit("\x1B[1;1H");
    reveal_strlit("\x1B[0m");
    text::lemma_utf8_ascii(CURSOR_HOME@);
    text::lemma_utf8_ascii(COLOR_RESET@);
    assert(ansi::bg_table()[0] == ansi::color(BG_KIND@, 0));
    assert(ansi::fg_table()[0] == ansi::color(FG_KIND@, 0));
    lemma_color(BG_KIND@, 0);
    lemma_color(FG_KIND@, 0);
    let head = frame::frame_head(ansi::fg_table(), ansi::bg_table());
    let rows = frame::rows_text(fire, ansi::fg_table(), ansi::bg_table(), n);
    assert(text::utf8(head) == text::utf8(CURSOR_HOME@) + text::utf8(COLOR_RESET@) + text::utf8(
        ansi::bg_table()[0],
    ) + text::utf8(ansi::fg_table()[0]));
    assert(unbroken(head));
    assert(text::utf8(head + rows) == text::utf8(head) + text::utf8(rows));
    assert(vstd::utf8::is_ascii_chars(head));
    lemma_no_half_blocks(head);
    lemma_half_blocks_concat(head, rows);
}

/// A status line is ASCII text without line breaks, control sequences or half blocks.
#[verifier::rlimit(50)]
pub proof fn lemma_numeric_line(status: StatusModel)
    requires
        status.numeric(),
    ensures
        vstd::utf8::is_ascii_chars(status.line()),
        unbroken(status.line()),
        ansi::plain(status.line()),
{
    reveal(ansi::plain);
    reveal_strlit("mem: ");
    reveal_strlit(" min / ");
    reveal_strlit(" avg / ");
    reveal_strlit(" max [ ");
    reveal_strlit(" fps ]");
    assert forall|i: int| 0 <= i < status.line().len() implies ' ' <= #[trigger] status.line()[i]
        <= 'z' && status.line()[i] != '?' by {}
}

#[verifier::rlimit(50)]
proof fn lemma_status_text(size: TermSize, status: StatusModel)
    requires
        size.valid(),
        status.numeric(),
    ensures
        vstd::utf8::is_ascii_chars(status.clipped(size.width as nat)),
        status.clipped(size.width as nat).len() < size.width,
        text::utf8(frame::status_text(size, status)).len() <= 34 + size.width,
        half_blocks(frame::status_text(size, status)) == 0,
{
    crate::size::lemma_valid_bounds(size);
    lemma_numeric_line(status);
    let clipped = status.clipped(size.width as nat);
    text::lemma_utf8_ascii(clipped);
    lemma_row_start(size.height as nat);
    reveal_strlit("\x1B[48;5;0m\x1B[38;5;15m");
    reveal_strlit("\x1B[0K");
    text::lemma_utf8_ascii(COLOR_DEF@);
    text::lemma_utf8_ascii(LINE_CLEAR_TO_EOL@);
    let start = ansi::row_start(size.height as nat);
    assert(text::utf8(start + COLOR_DEF@ + clipped + LINE_CLEAR_TO_EOL@) == text::utf8(start)
        + text::utf8(COLOR_DEF@) + text::utf8(clipped) + text::utf8(LINE_CLEAR_TO_EOL@));
    assert(vstd::utf8::is_ascii_chars(frame::status_text(size, status)));
    lemma_no_half_blocks(frame::status_text(size, status));
}

/// The room reserved for a frame is known, and small enough for every machine.
pub proof fn lemma_frame_capacity(size: TermSize)
    requires
        size.valid(),
    ensures
        frame::frame_capacity(size, ansi::fg_table(), ansi::bg_table()) == 25 * size.width * (
        size.height - 1) + size.height * 24 + size.width + 128,
        frame::frame_capacity(size, ansi::fg_table(), ansi::bg_table()) <= 50_000_128,
{
    lemma_px();
    crate::size::lemma_valid_bounds(size);
    assert(ansi::bg_table()[LAST_COLOR as int] == ansi::color(BG_KIND@, 255));
    assert(ansi::fg_table()[LAST_COLOR as int] == ansi::color(FG_KIND@, 255));
    lemma_color(BG_KIND@, 255);
    lemma_color(FG_KIND@, 255);
    assert(25 * size.width * (size.height - 1) == 25 * (size.width * (size.height - 1)))
        by (nonlinear_arith);
}

/// A frame with its status line fits in the memory that was reserved for it, whatever burns:
/// drawing it never needs more.
pub proof fn law_frame_fits_reserved_memory(fire: FireModel, size: TermSize, status: StatusModel)
    requires
        size.valid(),
        fills(fire, size),
        status.numeric(),
    ensures
        ({
            let capacity = frame::frame_capacity(size, ansi::fg_table(), ansi::bg_table());
            let drawn = text::utf8(
                frame::frame_text(fire, ansi::fg_table(), ansi::bg_table()),
            );
            &&& drawn.len() <= capacity
            &&& (drawn + text::utf8(frame::status_text(size, status))).len() <= capacity
        }),
{
    lemma_frame_capacity(size);
    lemma_frame_text(fire, size);
    lemma_status_text(size, status);
}

/// A frame buffer made for a terminal has room for its frames, whatever burns and whatever was
/// counted: neither the fire nor the status line ever outgrows what was reserved.
pub proof fn law_frame_stays_in_its_buffer(
    before: FrameModel,
    fire: FireModel,
    size: TermSize,
    status: StatusModel,
)
    requires
        size.valid(),
        fills(fire, size),
        status.numeric(),
        before.term_sz == size,
        before.room == frame::frame_capacity(size, ansi::fg_table(), ansi::bg_table()),
    ensures
        ({
            let drawn = before.drawn(fire, ansi::fg_table(), ansi::bg_table());
            let complete = drawn.with_status(status);
            &&& drawn.room == before.room && drawn.bytes.len() <= before.room
            &&& complete.room == before.room && complete.bytes.len() <= before.room
        }),
{
    law_frame_fits_reserved_memory(fire, size, status);
}

/// The bytes of a text without line breaks hold no line break.
proof fn lemma_unbroken_bytes(s: Seq<char>)
    requires
        unbroken(s),
    ensures
        forall|i: int|
            0 <= i < text::utf8(s).len() ==> #[trigger] text::utf8(s)[i] != 10 && text::utf8(s)[i]
                != 13,
    decreases s.len(),
{
    reveal(text::utf8);
    if s.len() > 0 {
        let first_char: char = s[0];
        let c = first_char as u32;
        assert(unbroken(s.drop_first()));
        lemma_unbroken_bytes(s.drop_first());
        vstd::utf8::char_is_scalar(s[0]);
        assert(first_char != '\n' && first_char != '\r');
        vstd::utf8::char_u32_cast(first_char, c);
        assert(c != 10 && c != 13);
        assert(c <= 0x7F && c != 10 && c != 13 ==> vstd::utf8::leading_byte_width_1(c) != 10
            && vstd::utf8::leading_byte_width_1(c) != 13) by (bit_vector);
        assert(vstd::utf8::leading_byte_width_2(c) >= 0x80) by (bit_vector);
        assert(vstd::utf8::leading_byte_width_3(c) >= 0x80) by (bit_vector);
        assert(vstd::utf8::leading_byte_width_4(c) >= 0x80) by (bit_vector);
        assert(vstd::utf8::last_continuation_byte(c) >= 0x80) by (bit_vector);
        assert(vstd::utf8::second_last_continuation_byte(c) >= 0x80) by (bit_vector);
        assert(vstd::utf8::third_last_continuation_byte(c) >= 0x80) by (bit_vector);
        let first = vstd::utf8::encode_scalar(c);
        let rest = vstd::utf8::encode_utf8(s.drop_first());
        assert forall|i: int| 0 <= i < text::utf8(s).len() implies #[trigger] text::utf8(s)[i] != 10
            && text::utf8(s)[i] != 13 by {
            assert(text::utf8(s) == first + rest);
            if i >= first.len() {
                assert(text::utf8(s)[i] == text::utf8(s.drop_first())[i - first.len()]);
            }
        }
    }
}

/// A frame is text without line breaks.
pub proof fn lemma_frame_unbroken(fire: FireModel, size: TermSize, status: StatusModel)
    requires
        size.valid(),
        fills(fire, size),
        status.numeric(),
    ensures
        unbroken(frame::frame_text(fire, ansi::fg_table(), ansi::bg_table())),
        unbroken(frame::status_text(size, status)),
        unbroken(
            frame::frame_text(fire, ansi::fg_table(), ansi::bg_table()) + frame::status_text(
                size,
                status,
            ),
        ),
{
    lemma_frame_text(fire, size);
    lemma_status_unbroken(size, status);
    lemma_unbroken_concat(
        frame::frame_text(fire, ansi::fg_table(), ansi::bg_table()),
        frame::status_text(size, status),
    );
}

proof fn lemma_unbroken_concat(a: Seq<char>, b: Seq<char>)
    requires
        unbroken(a),
        unbroken(b),
    ensures
        unbroken(a + b),
{
}

proof fn lemma_status_unbroken(size: TermSize, status: StatusModel)
    requires
        size.valid(),
        status.numeric(),
    ensures
        unbroken(frame::status_text(size, status)),
{
    let start = ansi::row_start(size.height as nat);
    let clipped = status.clipped(size.width as nat);
    crate::size::lemma_valid_bounds(size);
    lemma_row_start(size.height as nat);
    assert(unbroken(COLOR_DEF@)) by {
        reveal_strlit("\x1B[48;5;0m\x1B[38;5;15m");
    }
    assert(unbroken(LINE_CLEAR_TO_EOL@)) by {
        reveal_strlit("\x1B[0K");
    }
    assert(unbroken(clipped)) by {
        lemma_numeric_line(status);
    }
    lemma_unbroken_concat(start, COLOR_DEF@);
    lemma_unbroken_concat(start + COLOR_DEF@, clipped);
    lemma_unbroken_concat(start + COLOR_DEF@ + clipped, LINE_CLEAR_TO_EOL@);
}

/// A frame holds no line break, so that the terminal never scrolls.
pub proof fn law_frame_has_no_line_break(fire: FireModel, size: TermSize, status: StatusModel)
    requires
        size.valid(),
        fills(fire, size),
        status.numeric(),
    ensures
        ({
            let bytes = text::utf8(
                frame::frame_text(fire, ansi::fg_table(), ansi::bg_table()),
            ) + text::utf8(frame::status_text(size, status));
            forall|i: int| 0 <= i < bytes.len() ==> #[trigger] bytes[i] != 10 && bytes[i] != 13
        }),
{
    lemma_frame_unbroken(fire, size, status);
    lemma_unbroken_bytes(frame::frame_text(fire, ansi::fg_table(), ansi::bg_table()));
    lemma_unbroken_bytes(frame::status_text(size, status));
}

/// Every row of the fire has one half block for each column of the terminal.
pub proof fn law_row_has_a_half_block_per_column(fire: FireModel, r: nat)
    requires
        fire.shaped(),
        fire.in_palette(),
        r < fire.height / 2,
    ensures
        half_blocks(frame::row_text(fire, ansi::fg_table(), ansi::bg_table(), r, fire.width))
            == fire.width,
{
    lemma_row_text(fire, r, fire.width);
}

/// A whole frame with its status line has one half block for each cell of the terminal but those
/// of the last row.
pub proof fn law_frame_has_a_half_block_per_cell(
    fire: FireModel,
    size: TermSize,
    status: StatusModel,
)
    requires
        size.valid(),
        fills(fire, size),
        status.numeric(),
    ensures
        half_blocks(
            frame::frame_text(fire, ansi::fg_table(), ansi::bg_table()) + frame::status_text(
                size,
                status,
            ),
        ) == size.width * (size.height - 1),
{
    lemma_frame_text(fire, size);
    lemma_status_text(size, status);
    lemma_half_blocks_concat(
        frame::frame_text(fire, ansi::fg_table(), ansi::bg_table()),
        frame::status_text(size, status),
    );
}

/// The fire of a terminal has all of its rows but the last, each of which starts with a movement
/// to it (the first one with the movement home); the status line has the last row to itself and
/// leaves the last column free.
pub proof fn law_fire_and_status_have_their_rows(
    fire: FireModel,
    size: TermSize,
    status: StatusModel,
)
    requires
        size.valid(),
        fills(fire, size),
        status.numeric(),
    ensures
        fire.height / 2 == size.height - 1,
        forall|r: nat|
            0 < r < fire.height / 2 ==> #[trigger] frame::row_move(r) == ansi::row_start(r + 1) && r
                + 1 < size.height,
        vstd::utf8::is_ascii_chars(status.clipped(size.width as nat)),
        status.clipped(size.width as nat).len() < size.width,
{
    lemma_status_text(size, status);
}

/// Every cell is drawn in the background of its lower half, though a color is only sent where it
/// changes.
pub proof fn law_cell_has_its_background(fire: FireModel, r: nat, x: nat)
    requires
        fire.shaped(),
        fire.in_palette(),
        r < fire.height / 2,
        x < fire.width,
    ensures
        background_at(fire, r, x) == ansi::bg_color(
            FIRE_PALETTE@[frame::lower(fire, r, x) as int] as nat,
        ),
    decreases r, x,
{
    lemma_cell_in_palette(fire, r, x);
    let lo = FIRE_PALETTE@[frame::lower(fire, r, x) as int];
    assert(ansi::bg_table()[lo as int] == ansi::color(BG_KIND@, lo as nat));
    assert(ansi::bg_table()[0] == ansi::color(BG_KIND@, 0));
    lemma_color(BG_KIND@, lo as nat);
    if x > 0 {
        law_cell_has_its_background(fire, r, (x - 1) as nat);
    } else if r > 0 {
        law_cell_has_its_background(fire, (r - 1) as nat, (fire.width - 1) as nat);
    }
}

/// Every cell is drawn in the foreground of its upper half, though a color is only sent where it
/// changes.
pub proof fn law_cell_has_its_foreground(fire: FireModel, r: nat, x: nat)
    requires
        fire.shaped(),
        fire.in_palette(),
        r < fire.height / 2,
        x < fire.width,
    ensures
        foreground_at(fire, r, x) == ansi::fg_color(
            FIRE_PALETTE@[frame::upper(fire, r, x) as int] as nat,
        ),
    decreases r, x,
{
    lemma_cell_in_palette(fire, r, x);
    let hi = FIRE_PALETTE@[frame::upper(fire, r, x) as int];
    assert(ansi::fg_table()[hi as int] == ansi::color(FG_KIND@, hi as nat));
    assert(ansi::fg_table()[0] == ansi::color(FG_KIND@, 0));
    lemma_color(FG_KIND@, hi as nat);
    if x > 0 {
        law_cell_has_its_foreground(fire, r, (x - 1) as nat);
    } else if r > 0 {
        law_cell_has_its_foreground(fire, (r - 1) as nat, (fire.width - 1) as nat);
    }
}

/// The statistics are those of all frames so far: their number, their exact total, and the
/// shortest and the longest of them.
pub proof fn law_stats_are_exact(lens: Seq<nat>)
    ensures
        Stats::record_all(lens).frame_count == lens.len(),
        Stats::record_all(lens).total_len == sum(lens),
        forall|i: int|
            0 <= i < lens.len() ==> Stats::record_all(lens).min_len <= #[trigger] lens[i]
                <= Stats::record_all(lens).max_len,
        lens.len() > 0 ==> lens.contains(Stats::record_all(lens).min_len) && lens.contains(
            Stats::record_all(lens).max_len,
        ),
    decreases lens.len(),
{
    if lens.len() > 0 {
        let rest = lens.drop_last();
        law_stats_are_exact(rest);
        let before = Stats::record_all(rest);
        let after = Stats::record_all(lens);
        assert forall|i: int| 0 <= i < lens.len() implies after.min_len <= #[trigger] lens[i]
            <= after.max_len by {
            if i < rest.len() {
                assert(lens[i] == rest[i]);
            }
        }
        assert(lens[lens.len() - 1] == lens.last());
        if rest.len() > 0 {
            let a = choose|i: int| 0 <= i < rest.len() && rest[i] == before.min_len;
            let b = choose|i: int| 0 <= i < rest.len() && rest[i] == before.max_len;
            assert(lens[a] == before.min_len);
            assert(lens[b] == before.max_len);
        }
    }
}

/// A frame is valid UTF-8.
pub proof fn law_frame_is_valid_utf8(fire: FireModel, size: TermSize, status: StatusModel)
    ensures
        vstd::utf8::valid_utf8(
            text::utf8(frame::frame_text(fire, ansi::fg_table(), ansi::bg_table())) + text::utf8(
                frame::status_text(size, status),
            ),
        ),
{
    text::lemma_utf8_valid(
        frame::frame_text(fire, ansi::fg_table(), ansi::bg_table()) + frame::status_text(
            size,
            status,
        ),
    );
}

/// A cell whose two heat values are those of the cell drawn before it, to the left or at the end of
/// the row above, costs only its half block: its colors are not sent again. So it is for the first
/// cell if it is cold.
pub proof fn law_unchanged_colors_are_not_sent(fire: FireModel, r: nat, x: nat)
    requires
        fire.shaped(),
        r < fire.height / 2,
        x < fire.width,
        ({
            let w = fire.width;
            let above = fire.pixels[(2 * r * w + x) as int];
            let below = fire.pixels[((2 * r + 1) * w + x) as int];
            if x > 0 {
                &&& above == fire.pixels[2 * r * w + x - 1]
                &&& below == fire.pixels[(2 * r + 1) * w + x - 1]
            } else if r > 0 {
                &&& above == fire.pixels[2 * (r - 1) * w + w - 1]
                &&& below == fire.pixels[(2 * (r - 1) + 1) * w + w - 1]
            } else {
                above == 0 && below == 0
            }
        }),
    ensures
        frame::cell_text(fire, ansi::fg_table(), ansi::bg_table(), r, x) == "\u{2580}"@,
{
    assert(Seq::<char>::empty() + Seq::<char>::empty() + PX@ =~= PX@);
}

} // verus!
