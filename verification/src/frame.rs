//! Frames: the fire as text for the terminal, and the statistics below it.

use vstd::prelude::*;

use crate::ansi;
use crate::ansi::COLOR_DEF;
use crate::ansi::COLOR_RESET;
use crate::ansi::CSI;
use crate::ansi::CURSOR_HOME;
use crate::ansi::LAST_COLOR;
use crate::ansi::LINE_CLEAR_TO_EOL;
use crate::ansi::MAX_COLOR;
use crate::ansi::PX;
use crate::fire::Fire;
use crate::fire::FireModel;
use crate::fire::FIRE_PALETTE;
use crate::memory::reserved_buffer;
use crate::memory::Buffer;
use crate::memory::SetupError;
use crate::size::TermSize;
use crate::text;

verus! {

broadcast use text::group_text;

/// The bytes of one frame, and how long the frames so far were.
pub struct FrameBuffer {
    pub bytes: Vec<u8>,
    /// The number of bytes that room was reserved for.
    pub room: Ghost<nat>,
    pub term_sz: TermSize,
    pub min_len: u64,
    pub max_len: u64,
    pub total_len: u128,
    pub frame_count: u64,
    /// When the animation started, in nanoseconds of a clock that the caller reads.
    pub start: u64,
}

/// The numbers of the status line, as text: the shortest, average and longest frame, and the
/// frames per second.
pub struct StatusText {
    pub min: String,
    pub avg: String,
    pub max: String,
    pub fps: String,
}

/// How long the frames so far were.
pub struct Stats {
    pub min_len: nat,
    pub max_len: nat,
    pub total_len: nat,
    pub frame_count: nat,
}

/// What a frame buffer holds.
#[verifier::ext_equal]
pub struct FrameModel {
    pub bytes: Seq<u8>,
    pub room: nat,
    pub term_sz: TermSize,
    pub stats: Stats,
    pub start: nat,
}

/// What a status text says.
pub struct StatusModel {
    pub min: Seq<char>,
    pub avg: Seq<char>,
    pub max: Seq<char>,
    pub fps: Seq<char>,
}

impl View for FrameBuffer {
    type V = FrameModel;

    open spec fn view(&self) -> FrameModel {
        FrameModel {
            bytes: self.bytes@,
            room: self.room@,
            term_sz: self.term_sz,
            stats: Stats {
                min_len: self.min_len as nat,
                max_len: self.max_len as nat,
                total_len: self.total_len as nat,
                frame_count: self.frame_count as nat,
            },
            start: self.start as nat,
        }
    }
}

impl View for StatusText {
    type V = StatusModel;

    open spec fn view(&self) -> StatusModel {
        StatusModel { min: self.min@, avg: self.avg@, max: self.max@, fps: self.fps@ }
    }
}

impl StatusModel {
    /// The numbers are written as numbers are.
    pub open spec fn numeric(self) -> bool {
        &&& text::number_text(self.min)
        &&& text::number_text(self.avg)
        &&& text::number_text(self.max)
        &&& text::number_text(self.fps)
    }

    /// The whole status line.
    pub open spec fn line(self) -> Seq<char> {
        "mem: "@ + self.min + " min / "@ + self.avg + " avg / "@ + self.max + " max [ "@ + self.fps
            + " fps ]"@
    }

    /// The status line on a terminal with `width` columns. The last column is left unused, so that
    /// the cursor does not wrap.
    pub open spec fn clipped(self, width: nat) -> Seq<char> {
        if self.line().len() <= width - 1 {
            self.line()
        } else {
            self.line().take(width - 1)
        }
    }
}

impl Stats {
    /// Before the first frame.
    pub open spec fn none() -> Stats {
        Stats { min_len: 0, max_len: 0, total_len: 0, frame_count: 0 }
    }

    /// After one more frame.
    pub open spec fn record(self, len: nat) -> Stats {
        Stats {
            min_len: if self.frame_count == 0 || len < self.min_len {
                len
            } else {
                self.min_len
            },
            max_len: if len > self.max_len {
                len
            } else {
                self.max_len
            },
            total_len: self.total_len + len,
            frame_count: self.frame_count + 1,
        }
    }

    /// After a number of frames.
    pub open spec fn record_all(lens: Seq<nat>) -> Stats
        decreases lens.len(),
    {
        if lens.len() == 0 {
            Stats::none()
        } else {
            Stats::record_all(lens.drop_last()).record(lens.last())
        }
    }

    /// The total is one of as many frames as were counted, none longer than `u64::MAX` bytes.
    pub open spec fn bounded(self) -> bool {
        self.total_len <= self.frame_count * u64::MAX
    }
}

/// The heat in the upper half of the cell in row `r` (counted from 0) and column `x`.
pub open spec fn upper(fire: FireModel, r: nat, x: nat) -> u8 {
    fire.pixels[((2 * r) * fire.width + x) as int]
}

/// The heat in the lower half of the cell in row `r` (counted from 0) and column `x`.
pub open spec fn lower(fire: FireModel, r: nat, x: nat) -> u8 {
    fire.pixels[((2 * r + 1) * fire.width + x) as int]
}

/// The upper heat that was drawn last before a cell: that of the cell to the left, or of the last
/// cell of the row above, or the cold one that a frame starts with.
pub open spec fn upper_before(fire: FireModel, r: nat, x: nat) -> u8 {
    if x > 0 {
        upper(fire, r, (x - 1) as nat)
    } else if r > 0 {
        upper(fire, (r - 1) as nat, (fire.width - 1) as nat)
    } else {
        0
    }
}

/// The lower heat that was drawn last before a cell.
pub open spec fn lower_before(fire: FireModel, r: nat, x: nat) -> u8 {
    if x > 0 {
        lower(fire, r, (x - 1) as nat)
    } else if r > 0 {
        lower(fire, (r - 1) as nat, (fire.width - 1) as nat)
    } else {
        0
    }
}

/// What sets the background for a cell: nothing where it is the one of the cell before.
pub open spec fn bg_change(fire: FireModel, bg: Seq<Seq<char>>, r: nat, x: nat) -> Seq<char> {
    if lower(fire, r, x) != lower_before(fire, r, x) {
        bg[FIRE_PALETTE@[lower(fire, r, x) as int] as int]
    } else {
        Seq::empty()
    }
}

/// What sets the foreground for a cell: nothing where it is the one of the cell before.
pub open spec fn fg_change(fire: FireModel, fg: Seq<Seq<char>>, r: nat, x: nat) -> Seq<char> {
    if upper(fire, r, x) != upper_before(fire, r, x) {
        fg[FIRE_PALETTE@[upper(fire, r, x) as int] as int]
    } else {
        Seq::empty()
    }
}

/// One cell: its colors where they change, and the half block.
pub open spec fn cell_text(
    fire: FireModel,
    fg: Seq<Seq<char>>,
    bg: Seq<Seq<char>>,
    r: nat,
    x: nat,
) -> Seq<char> {
    bg_change(fire, bg, r, x) + fg_change(fire, fg, r, x) + PX@
}

/// The first `n` cells of row `r`.
pub open spec fn row_text(
    fire: FireModel,
    fg: Seq<Seq<char>>,
    bg: Seq<Seq<char>>,
    r: nat,
    n: nat,
) -> Seq<char>
    decreases n,
{
    if n == 0 {
        Seq::empty()
    } else {
        row_text(fire, fg, bg, r, (n - 1) as nat) + cell_text(fire, fg, bg, r, (n - 1) as nat)
    }
}

/// What moves the cursor to row `r` (counted from 0): nothing for the first row, where it is.
pub open spec fn row_move(r: nat) -> Seq<char> {
    if r == 0 {
        Seq::empty()
    } else {
        ansi::row_start(r + 1)
    }
}

/// The first `n` rows, each put at its place.
pub open spec fn rows_text(fire: FireModel, fg: Seq<Seq<char>>, bg: Seq<Seq<char>>, n: nat) -> Seq<
    char,
>
    decreases n,
{
    if n == 0 {
        Seq::empty()
    } else {
        let r = (n - 1) as nat;
        rows_text(fire, fg, bg, r) + row_move(r) + row_text(fire, fg, bg, r, fire.width)
    }
}

/// What a frame starts with: the first cell, and the colors of cold.
pub open spec fn frame_head(fg: Seq<Seq<char>>, bg: Seq<Seq<char>>) -> Seq<char> {
    CURSOR_HOME@ + COLOR_RESET@ + bg[0] + fg[0]
}

/// A whole frame, without the status line.
pub open spec fn frame_text(fire: FireModel, fg: Seq<Seq<char>>, bg: Seq<Seq<char>>) -> Seq<char> {
    frame_head(fg, bg) + rows_text(fire, fg, bg, fire.height / 2)
}

/// The status line at its place, in the last row.
pub open spec fn status_text(size: TermSize, status: StatusModel) -> Seq<char> {
    ansi::row_start(size.height as nat) + COLOR_DEF@ + status.clipped(size.width as nat)
        + LINE_CLEAR_TO_EOL@
}

/// The room that is reserved for a frame: the longest cell for each cell, a cursor movement for
/// each row, the initial colors and the status line.
pub open spec fn frame_capacity(size: TermSize, fg: Seq<Seq<char>>, bg: Seq<Seq<char>>) -> nat {
    let cell = text::utf8(PX@).len() + text::utf8(bg[LAST_COLOR as int]).len() + text::utf8(
        fg[LAST_COLOR as int],
    ).len();
    (cell * size.width * (size.height - 1) + size.height * 24 + size.width + 128) as nat
}

impl FrameModel {
    /// A frame buffer with room for a number of bytes, before the first frame.
    pub open spec fn blank(size: TermSize, room: nat, start: nat) -> FrameModel {
        FrameModel { bytes: Seq::empty(), room, term_sz: size, stats: Stats::none(), start }
    }

    /// How long the animation has run.
    pub open spec fn elapsed(self, now: nat) -> nat {
        if now > self.start {
            (now - self.start) as nat
        } else {
            0
        }
    }

    /// The animation started that much later, as far as the clock goes.
    pub open spec fn postponed(self, paused: nat) -> FrameModel {
        FrameModel {
            start: if self.start + paused <= u64::MAX {
                self.start + paused
            } else {
                u64::MAX as nat
            },
            ..self
        }
    }

    /// The next frame, drawn and counted.
    pub open spec fn drawn(self, fire: FireModel, fg: Seq<Seq<char>>, bg: Seq<Seq<char>>)
        -> FrameModel {
        let bytes = text::utf8(frame_text(fire, fg, bg));
        FrameModel { bytes, stats: self.stats.record(bytes.len()), ..self }
    }

    /// The frame with its status line.
    pub open spec fn with_status(self, status: StatusModel) -> FrameModel {
        FrameModel { bytes: self.bytes + text::utf8(status_text(self.term_sz, status)), ..self }
    }
}

impl FrameBuffer {
    /// A frame buffer for a terminal of the given size. It fails for a size that cannot be drawn
    /// on, and otherwise only if there is no memory.
    pub fn new(term_sz: TermSize, fg: &[String], bg: &[String], start: u64) -> (result: Result<
        FrameBuffer,
        SetupError,
    >)
        requires
            term_sz.valid() ==> {
                &&& fg@.len() > LAST_COLOR
                &&& bg@.len() > LAST_COLOR
                &&& frame_capacity(term_sz, ansi::texts(fg@), ansi::texts(bg@)) <= usize::MAX
            },
        ensures
            term_sz.defect() matches Some(e) ==> result == Err::<FrameBuffer, SetupError>(
                SetupError::Size(e),
            ),
            term_sz.valid() ==> match result {
                Ok(frame) => frame@ == FrameModel::blank(
                    term_sz,
                    frame_capacity(term_sz, ansi::texts(fg@), ansi::texts(bg@)),
                    start as nat,
                ),
                Err(e) => e == SetupError::OutOfMemory,
            },
    {
        match term_sz.validate() {
            Err(e) => Err(SetupError::Size(e)),
            Ok(term_sz) => {
                let buffer = reserved_buffer(FrameBuffer::capacity(term_sz, fg, bg));
                FrameBuffer::blank_in(term_sz, buffer, start)
            },
        }
    }

    /// The number of bytes to reserve for the frames of a terminal.
    pub fn capacity(term_sz: TermSize, fg: &[String], bg: &[String]) -> (n: usize)
        requires
            term_sz.valid(),
            fg@.len() > LAST_COLOR,
            bg@.len() > LAST_COLOR,
            frame_capacity(term_sz, ansi::texts(fg@), ansi::texts(bg@)) <= usize::MAX,
        ensures
            n == frame_capacity(term_sz, ansi::texts(fg@), ansi::texts(bg@)),
    {
        let px: usize = PX.as_bytes().len();
        let bg_len: usize = bg[LAST_COLOR].as_str().as_bytes().len();
        let fg_len: usize = fg[LAST_COLOR].as_str().as_bytes().len();
        proof {
            reveal(text::utf8);
            let w = term_sz.width as int;
            let h = term_sz.height - 1;
            let cell = px + bg_len + fg_len;
            assert(cell <= cell * w <= cell * w * h) by (nonlinear_arith)
                requires
                    cell >= 0,
                    w >= 1,
                    h >= 1,
            ;
        }
        let px_sz: usize = px + bg_len + fg_len;
        let screen_sz: usize = px_sz * term_sz.width * (term_sz.height - 1);
        screen_sz + term_sz.height * 24 + term_sz.width + 128
    }

    /// A frame buffer in the memory that was reserved for it, if it was.
    pub fn blank_in(term_sz: TermSize, buffer: Option<Buffer>, start: u64) -> (result: Result<
        FrameBuffer,
        SetupError,
    >)
        requires
            buffer matches Some(b) ==> b.bytes@.len() == 0,
        ensures
            match buffer {
                Some(b) => result matches Ok(frame) && frame@ == FrameModel::blank(
                    term_sz,
                    b.asked@,
                    start as nat,
                ),
                None => result == Err::<FrameBuffer, SetupError>(SetupError::OutOfMemory),
            },
    {
        match buffer {
            None => Err(SetupError::OutOfMemory),
            Some(buffer) => {
                let frame = FrameBuffer {
                    bytes: buffer.bytes,
                    room: buffer.asked,
                    term_sz,
                    min_len: 0,
                    max_len: 0,
                    total_len: 0,
                    frame_count: 0,
                    start,
                };
                assert(frame@ =~= FrameModel::blank(term_sz, frame.room@, start as nat));
                Ok(frame)
            },
        }
    }

    /// Appends a text to the frame.
    pub fn draw_str(&mut self, s: &str)
        ensures
            final(self)@ == (FrameModel {
                bytes: old(self)@.bytes + text::utf8(s@),
                ..old(self)@
            }),
    {
        text::push_str(&mut self.bytes, s);
    }

    /// Draws a fire over the frame before.
    #[verifier::rlimit(50)]
    pub fn draw_fire(&mut self, fire: &Fire, fg: &[String], bg: &[String])
        requires
            fire@.shaped(),
            fire@.in_palette(),
            fg@.len() >= MAX_COLOR,
            bg@.len() >= MAX_COLOR,
        ensures
            final(self)@ == (FrameModel {
                bytes: text::utf8(frame_text(fire@, ansi::texts(fg@), ansi::texts(bg@))),
                ..old(self)@
            }),
    {
        let ghost f = fire@;
        let ghost fgs = ansi::texts(fg@);
        let ghost bgs = ansi::texts(bg@);
        let ghost w = fire@.width;
        self.bytes.clear();
        proof {
            text::lemma_utf8_empty();
            assert(Seq::<u8>::empty() + text::utf8(CURSOR_HOME@) =~= text::utf8(CURSOR_HOME@));
        }
        self.draw_str(CURSOR_HOME);
        self.draw_str(COLOR_RESET);
        self.draw_str(bg[0].as_str());
        self.draw_str(fg[0].as_str());
        let mut prev_hi: u8 = 0;
        let mut prev_lo: u8 = 0;
        let mut r: usize = 0;
        let rows: usize = fire.height / 2;
        let ghost head = frame_head(fgs, bgs);
        while r < rows
            invariant
                f == fire@,
                w == fire.width,
                rows == fire.height / 2,
                f.shaped(),
                f.in_palette(),
                fg@.len() >= MAX_COLOR,
                fgs == ansi::texts(fg@),
                bg@.len() >= MAX_COLOR,
                bgs == ansi::texts(bg@),
                r <= rows,
                self@ == (FrameModel { bytes: self@.bytes, ..old(self)@ }),
                self@.bytes == text::utf8(head) + text::utf8(rows_text(f, fgs, bgs, r as nat)),
                prev_hi == upper_before(f, r as nat, 0),
                prev_lo == lower_before(f, r as nat, 0),
            decreases rows - r,
        {
            let ghost before = rows_text(f, fgs, bgs, r as nat);
            if r != 0 {
                self.draw_str(CSI);
                text::push_decimal(&mut self.bytes, r + 1);
                self.draw_str(";1H");
                assert(row_move(r as nat) == ansi::row_start(r as nat + 1));
            } else {
                assert(row_move(r as nat) == Seq::<char>::empty());
            }
            let ghost moved = before + row_move(r as nat);
            proof {
                text::lemma_utf8_empty();
            }
            assert(self@.bytes == text::utf8(head) + text::utf8(moved));
            assert(moved + row_text(f, fgs, bgs, r as nat, 0) =~= moved);
            let mut x: usize = 0;
            while x < fire.width
                invariant
                    f == fire@,
                    w == fire.width,
                    rows == fire.height / 2,
                    f.shaped(),
                    f.in_palette(),
                    fg@.len() >= MAX_COLOR,
                    fgs == ansi::texts(fg@),
                    bg@.len() >= MAX_COLOR,
                    bgs == ansi::texts(bg@),
                    r < rows,
                    x <= w,
                    self@ == (FrameModel { bytes: self@.bytes, ..old(self)@ }),
                    self@.bytes == text::utf8(head) + text::utf8(
                        moved + row_text(f, fgs, bgs, r as nat, x as nat),
                    ),
                    prev_hi == upper_before(f, r as nat, x as nat),
                    prev_lo == lower_before(f, r as nat, x as nat),
                decreases w - x,
            {
                proof {
                    crate::fire::lemma_cell_index(w, f.height, x as nat, (2 * r) as nat);
                    crate::fire::lemma_cell_index(w, f.height, x as nat, (2 * r + 1) as nat);
                    assert(fire.pixels.len() == w * f.height);
                    text::lemma_utf8_empty();
                }
                let hi: u8 = fire.pixels[(2 * r) * fire.width + x];
                let lo: u8 = fire.pixels[(2 * r + 1) * fire.width + x];
                proof {
                    crate::fire::law_palette_fits_color_table(hi);
                    crate::fire::law_palette_fits_color_table(lo);
                }
                let ghost start = self@.bytes;
                if lo != prev_lo {
                    self.draw_str(bg[FIRE_PALETTE[lo as usize]].as_str());
                }
                assert(self@.bytes == start + text::utf8(bg_change(f, bgs, r as nat, x as nat)));
                let ghost backed = self@.bytes;
                if hi != prev_hi {
                    self.draw_str(fg[FIRE_PALETTE[hi as usize]].as_str());
                }
                assert(self@.bytes == backed + text::utf8(fg_change(f, fgs, r as nat, x as nat)));
                self.draw_str(PX);
                assert(self@.bytes == start + text::utf8(
                    cell_text(f, fgs, bgs, r as nat, x as nat),
                ));
                prev_hi = hi;
                prev_lo = lo;
                x = x + 1;
            }
            r = r + 1;
        }
    }

    /// Counts a frame of `len` bytes.
    pub fn record_frame(&mut self, len: u64)
        requires
            old(self)@.stats.bounded(),
            old(self).frame_count < u64::MAX,
        ensures
            final(self)@ == (FrameModel {
                stats: old(self)@.stats.record(len as nat),
                ..old(self)@
            }),
            final(self)@.stats.bounded(),
    {
        if self.frame_count == 0 {
            self.min_len = len;
        }
        if len < self.min_len {
            self.min_len = len;
        }
        if len > self.max_len {
            self.max_len = len;
        }
        self.total_len = self.total_len + len as u128;
        self.frame_count = self.frame_count + 1;
    }

    /// Nanoseconds since the animation started.
    pub fn elapsed(&self, now: u64) -> (nanos: u64)
        ensures
            nanos == self@.elapsed(now as nat),
    {
        now.saturating_sub(self.start)
    }

    /// Leaves a pause out of the time that the animation has run.
    pub fn postpone(&mut self, paused: u64)
        ensures
            final(self)@ == old(self)@.postponed(paused as nat),
    {
        self.start = self.start.saturating_add(paused);
    }

    /// Draws the status line below the fire, clipped to the width of the terminal.
    #[verifier::rlimit(50)]
    pub fn draw_status(&mut self, status: &StatusText)
        requires
            status@.numeric(),
            old(self).term_sz.width >= 1,
        ensures
            final(self)@ == old(self)@.with_status(status@),
    {
        let mut line: Vec<u8> = Vec::new();
        text::push_str(&mut line, "mem: ");
        assert(line@ =~= text::utf8("mem: "@));
        text::push_str(&mut line, status.min.as_str());
        text::push_str(&mut line, " min / ");
        text::push_str(&mut line, status.avg.as_str());
        text::push_str(&mut line, " avg / ");
        text::push_str(&mut line, status.max.as_str());
        text::push_str(&mut line, " max [ ");
        text::push_str(&mut line, status.fps.as_str());
        text::push_str(&mut line, " fps ]");
        proof {
            reveal_strlit("mem: ");
            reveal_strlit(" min / ");
            reveal_strlit(" avg / ");
            reveal_strlit(" max [ ");
            reveal_strlit(" fps ]");
            assert(vstd::utf8::is_ascii_chars(status@.line()));
            text::lemma_utf8_ascii(status@.line());
            text::lemma_utf8_ascii(status@.clipped(self.term_sz.width as nat));
        }
        assert(line@ == text::utf8(status@.line()));
        line.truncate(self.term_sz.width - 1);
        assert(line@ =~= text::utf8(status@.clipped(self.term_sz.width as nat)));
        self.draw_str(CSI);
        text::push_decimal(&mut self.bytes, self.term_sz.height);
        self.draw_str(";1H");
        self.draw_str(COLOR_DEF);
        text::push_bytes(&mut self.bytes, line.as_slice());
        self.draw_str(LINE_CLEAR_TO_EOL);
    }

    /// Completes the frame with its status line and hands it out. The frame was counted before, by
    /// [`FrameBuffer::record_frame`], since it is among those that the numbers are about.
    pub fn paint(&mut self, status: &StatusText, out: &mut Vec<u8>)
        requires
            status@.numeric(),
            old(self).term_sz.width >= 1,
        ensures
            final(self)@ == old(self)@.with_status(status@),
            final(out)@ == old(out)@ + final(self)@.bytes,
    {
        self.draw_status(status);
        text::push_bytes(out, self.bytes.as_slice());
    }
}

} // verus!
