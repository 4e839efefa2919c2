//! What a terminal shows of what is written to it, as far as the program's frames need it.

use vstd::prelude::*;

use crate::ansi;
use crate::ansi::BG_KIND;
use crate::ansi::COLOR_DEF;
use crate::ansi::COLOR_RESET;
use crate::ansi::CSI;
use crate::ansi::CURSOR_HOME;
use crate::ansi::FG_KIND;
use crate::ansi::LINE_CLEAR_TO_EOL;
use crate::ansi::PX;
use crate::fire::FireModel;
use crate::fire::FIRE_PALETTE;
use crate::frame;
use crate::frame::StatusModel;
use crate::frame_laws;
use crate::size::TermSize;
use crate::text;

verus! {

/// A character on the screen with its colors; there is no color where it is the terminal's own.
pub struct Cell {
    pub symbol: char,
    pub fg: Option<nat>,
    pub bg: Option<nat>,
}

/// How the terminal takes the next character.
pub enum Reading {
    /// As text.
    Text,
    /// As what follows an escape character.
    Escape,
    /// As part of a control sequence with these numbers so far.
    Sequence(Seq<nat>),
}

/// A terminal: where the cursor is (from row 1 and column 1), the colors in force, and the cells
/// that were written.
pub struct Display {
    pub row: nat,
    pub column: nat,
    pub fg: Option<nat>,
    pub bg: Option<nat>,
    pub reading: Reading,
    pub cells: Map<(nat, nat), Cell>,
}

impl Display {
    /// After a complete control sequence.
    pub open spec fn controlled(self, numbers: Seq<nat>, end: char) -> Display {
        if end == 'H' && numbers.len() == 2 {
            Display { row: numbers[0], column: numbers[1], ..self }
        } else if end == 'm' && numbers.len() == 1 && numbers[0] == 0 {
            Display { fg: None, bg: None, ..self }
        } else if end == 'm' && numbers.len() == 3 && numbers[0] == 38 && numbers[1] == 5 {
            Display { fg: Some(numbers[2]), ..self }
        } else if end == 'm' && numbers.len() == 3 && numbers[0] == 48 && numbers[1] == 5 {
            Display { bg: Some(numbers[2]), ..self }
        } else if end == 'K' && numbers.len() == 1 && numbers[0] == 0 {
            Display {
                cells: self.cells.remove_keys(
                    Set::new(|p: (nat, nat)| p.0 == self.row && p.1 >= self.column),
                ),
                ..self
            }
        } else if end == 'J' && numbers.len() == 1 && numbers[0] == 2 {
            Display { cells: Map::empty(), ..self }
        } else {
            self
        }
    }

    /// After a character.
    pub open spec fn fed(self, c: char) -> Display {
        match self.reading {
            Reading::Text => if c == '\x1B' {
                Display { reading: Reading::Escape, ..self }
            } else if c == '\n' {
                Display { row: self.row + 1, column: 1, ..self }
            } else {
                Display {
                    cells: self.cells.insert(
                        (self.row, self.column),
                        Cell { symbol: c, fg: self.fg, bg: self.bg },
                    ),
                    column: self.column + 1,
                    ..self
                }
            },
            Reading::Escape => if c == '[' {
                Display { reading: Reading::Sequence(seq![0nat]), ..self }
            } else {
                Display { reading: Reading::Text, ..self }
            },
            Reading::Sequence(numbers) => if '0' <= c <= '9' {
                let n = (numbers.last() * 10 + (c as nat - 48)) as nat;
                Display {
                    reading: Reading::Sequence(numbers.update(numbers.len() - 1, n)),
                    ..self
                }
            } else if c == ';' {
                Display { reading: Reading::Sequence(numbers.push(0)), ..self }
            } else if c == '?' {
                self
            } else {
                Display { reading: Reading::Text, ..self }.controlled(numbers, c)
            },
        }
    }

    /// What is at a place of the screen, if anything was written there.
    pub open spec fn at(self, row: nat, column: nat) -> Option<Cell> {
        if self.cells.contains_key((row, column)) {
            Some(self.cells[(row, column)])
        } else {
            None
        }
    }

    /// After a text.
    pub open spec fn shown(self, s: Seq<char>) -> Display
        decreases s.len(),
    {
        if s.len() == 0 {
            self
        } else {
            self.fed(s[0]).shown(s.drop_first())
        }
    }

}

proof fn lemma_shown_concat(d: Display, a: Seq<char>, b: Seq<char>)
    ensures
        d.shown(a + b) == d.shown(a).shown(b),
    decreases a.len(),
{
    if a.len() == 0 {
        assert(a + b =~= b);
    } else {
        assert((a + b).drop_first() =~= a.drop_first() + b);
        lemma_shown_concat(d.fed(a[0]), a.drop_first(), b);
    }
}

/// A number in a control sequence is read as that number.
proof fn lemma_shown_decimal(d: Display, numbers: Seq<nat>, n: nat)
    requires
        d.reading == Reading::Sequence(numbers),
        numbers.len() > 0,
        numbers.last() == 0,
    ensures
        d.shown(text::decimal(n)) == (Display {
            reading: Reading::Sequence(numbers.update(numbers.len() - 1, n)),
            ..d
        }),
    decreases n,
{
    let t = text::decimal(n);
    let c = text::digit(n % 10);
    assert('0' <= c <= '9' && c as nat == 48 + n % 10);
    if n < 10 {
        assert(t.drop_first() =~= Seq::<char>::empty());
        assert(d.fed(c).shown(Seq::<char>::empty()) == d.fed(c));
        assert(t[0] == c);
    } else {
        let rest = text::decimal(n / 10);
        lemma_shown_decimal(d, numbers, n / 10);
        assert(t =~= rest + seq![c]);
        lemma_shown_concat(d, rest, seq![c]);
        let m = d.shown(rest);
        assert(seq![c].drop_first() =~= Seq::<char>::empty());
        assert(m.shown(seq![c]) == m.fed(c)) by {
            assert(m.fed(c).shown(Seq::<char>::empty()) == m.fed(c));
        }
        assert(numbers.update(numbers.len() - 1, n / 10).update(numbers.len() - 1, n)
            =~= numbers.update(numbers.len() - 1, n));
    }
}

/// What starts a control sequence.
proof fn lemma_shown_csi(d: Display)
    requires
        d.reading is Text,
    ensures
        d.shown(CSI@) == (Display { reading: Reading::Sequence(seq![0nat]), ..d }),
{
    reveal_strlit("\x1B[");
    reveal_with_fuel(Display::shown, 3);
}

/// The sequence that selects a color selects that color, in the foreground or in the background.
pub proof fn law_color_sequence_selects_its_color(d: Display, n: nat)
    requires
        d.reading is Text,
    ensures
        d.shown(ansi::fg_color(n)) == (Display { fg: Some(n), ..d }),
        d.shown(ansi::bg_color(n)) == (Display { bg: Some(n), ..d }),
{
    reveal_strlit("38;5;");
    reveal_strlit("48;5;");
    reveal_strlit("m");
    lemma_shown_csi(d);
    let start = d.shown(CSI@);
    let fg = seq![38nat, 5, 0];
    let bg = seq![48nat, 5, 0];
    assert(start.shown(FG_KIND@) == (Display { reading: Reading::Sequence(fg), ..d })) by {
        assert(FG_KIND@ =~= seq![text::digit(3), text::digit(8), ';', '5', ';']);
        lemma_kind(start, FG_KIND@, 3, 8);
    }
    assert(start.shown(BG_KIND@) == (Display { reading: Reading::Sequence(bg), ..d })) by {
        assert(BG_KIND@ =~= seq![text::digit(4), text::digit(8), ';', '5', ';']);
        lemma_kind(start, BG_KIND@, 4, 8);
    }
    let a = start.shown(FG_KIND@);
    let b = start.shown(BG_KIND@);
    lemma_shown_decimal(a, fg, n);
    lemma_shown_decimal(b, bg, n);
    lemma_shown_concat(d, CSI@, FG_KIND@);
    lemma_shown_concat(d, CSI@ + FG_KIND@, text::decimal(n));
    lemma_shown_concat(d, CSI@ + FG_KIND@ + text::decimal(n), "m"@);
    lemma_shown_concat(d, CSI@, BG_KIND@);
    lemma_shown_concat(d, CSI@ + BG_KIND@, text::decimal(n));
    lemma_shown_concat(d, CSI@ + BG_KIND@ + text::decimal(n), "m"@);
    reveal_with_fuel(Display::shown, 2);
}

proof fn lemma_kind(d: Display, kind: Seq<char>, tens: nat, ones: nat)
    requires
        d.reading == Reading::Sequence(seq![0nat]),
        tens < 10,
        ones < 10,
        kind == seq![text::digit(tens), text::digit(ones), ';', '5', ';'],
    ensures
        d.shown(kind) == (Display {
            reading: Reading::Sequence(seq![(tens * 10 + ones) as nat, 5, 0]),
            ..d
        }),
{
    let n = tens * 10 + ones;
    let d1 = d.fed(kind[0]);
    assert(seq![0nat].update(0, tens) =~= seq![tens]);
    assert(d1.reading == Reading::Sequence(seq![tens]));
    let d2 = d1.fed(kind[1]);
    assert(seq![tens].update(0, n) =~= seq![n]);
    assert(d2.reading == Reading::Sequence(seq![n]));
    let d3 = d2.fed(kind[2]);
    assert(seq![n].push(0) =~= seq![n, 0]);
    let d4 = d3.fed(kind[3]);
    assert(seq![n, 0nat].update(1, 5) =~= seq![n, 5]);
    let d5 = d4.fed(kind[4]);
    assert(seq![n, 5nat].push(0) =~= seq![n, 5, 0]);
    reveal_with_fuel(Display::shown, 6);
}

/// The sequence that moves the cursor to a row moves it to the first column of that row.
pub proof fn law_row_start_moves_to_its_row(d: Display, row: nat)
    requires
        d.reading is Text,
    ensures
        d.shown(ansi::row_start(row)) == (Display { row, column: 1, ..d }),
{
    lemma_shown_csi(d);
    let start = d.shown(CSI@);
    lemma_shown_decimal(start, seq![0nat], row);
    lemma_shown_concat(d, CSI@, text::decimal(row));
    lemma_shown_concat(d, CSI@ + text::decimal(row), ";1H"@);
    assert(seq![0nat].update(0, row) =~= seq![row]);
    lemma_position_end(start.shown(text::decimal(row)), row);
}

/// The end of a sequence that moves the cursor to the first column.
proof fn lemma_position_end(d: Display, row: nat)
    requires
        d.reading == Reading::Sequence(seq![row]),
    ensures
        d.shown(";1H"@) == (Display { row, column: 1, reading: Reading::Text, ..d }),
{
    reveal_strlit(";1H");
    let t = ";1H"@;
    let d1 = d.fed(t[0]);
    assert(seq![row].push(0) =~= seq![row, 0]);
    let d2 = d1.fed(t[1]);
    assert(seq![row, 0nat].update(1, 1) =~= seq![row, 1]);
    assert(d2.reading == Reading::Sequence(seq![row, 1]));
    reveal_with_fuel(Display::shown, 4);
}

/// The cursor goes home.
proof fn lemma_shown_home(d: Display)
    requires
        d.reading is Text,
    ensures
        d.shown(CURSOR_HOME@) == (Display { row: 1, column: 1, ..d }),
{
    reveal_strlit("\x1B[1;1H");
    reveal_strlit("\x1B[");
    reveal_strlit(";1H");
    assert(text::decimal(1) =~= seq!['1']) by {
        assert(text::digit(1) == '1');
    }
    assert(CURSOR_HOME@ =~= ansi::row_start(1));
    law_row_start_moves_to_its_row(d, 1);
}

/// The colors are reset.
proof fn lemma_shown_reset(d: Display)
    requires
        d.reading is Text,
    ensures
        d.shown(COLOR_RESET@) == (Display { fg: None, bg: None, ..d }),
{
    reveal_strlit("\x1B[0m");
    let t = COLOR_RESET@;
    let d1 = d.fed(t[0]);
    let d2 = d1.fed(t[1]);
    let d3 = d2.fed(t[2]);
    assert(seq![0nat].update(0, 0) =~= seq![0nat]);
    assert(d3.reading == Reading::Sequence(seq![0nat]));
    reveal_with_fuel(Display::shown, 5);
}

/// White on black is selected.
proof fn lemma_shown_def(d: Display)
    requires
        d.reading is Text,
    ensures
        d.shown(COLOR_DEF@) == (Display { fg: Some(15), bg: Some(0), ..d }),
{
    reveal_strlit("\x1B[48;5;0m\x1B[38;5;15m");
    reveal_strlit("\x1B[");
    reveal_strlit("48;5;");
    reveal_strlit("38;5;");
    reveal_strlit("m");
    assert(text::decimal(0) =~= seq!['0']) by {
        assert(text::digit(0) == '0');
    }
    assert(text::decimal(15) =~= seq!['1', '5']) by {
        reveal_with_fuel(text::decimal, 2);
        assert(text::digit(1) == '1' && text::digit(5) == '5');
    }
    let a = ansi::bg_color(0);
    let b = ansi::fg_color(15);
    assert(a =~= seq!['\x1B', '[', '4', '8', ';', '5', ';', '0', 'm']);
    assert(b =~= seq!['\x1B', '[', '3', '8', ';', '5', ';', '1', '5', 'm']);
    assert(COLOR_DEF@ =~= a + b);
    lemma_shown_concat(d, a, b);
    law_color_sequence_selects_its_color(d, 0);
    law_color_sequence_selects_its_color(d.shown(a), 15);
}

/// The rest of the row is cleared.
proof fn lemma_shown_clear(d: Display)
    requires
        d.reading is Text,
    ensures
        d.shown(LINE_CLEAR_TO_EOL@) == d.controlled(seq![0nat], 'K'),
{
    reveal_strlit("\x1B[0K");
    let t = LINE_CLEAR_TO_EOL@;
    let d1 = d.fed(t[0]);
    let d2 = d1.fed(t[1]);
    let d3 = d2.fed(t[2]);
    assert(seq![0nat].update(0, 0) =~= seq![0nat]);
    assert(d3.reading == Reading::Sequence(seq![0nat]));
    reveal_with_fuel(Display::shown, 5);
}

/// Whether a text is shown as it is: it holds no control character that the terminal acts on.
pub open spec fn printable(s: Seq<char>) -> bool {
    forall|i: int| 0 <= i < s.len() ==> #[trigger] s[i] != '\x1B' && s[i] != '\n'
}

/// Plain text is written from the cursor on, in the colors in force.
proof fn lemma_shown_text(d: Display, s: Seq<char>)
    requires
        d.reading is Text,
        printable(s),
    ensures
        ({
            let e = d.shown(s);
            &&& e == (Display { column: d.column + s.len(), cells: e.cells, ..d })
            &&& forall|c: nat|
                d.column <= c < d.column + s.len() ==> #[trigger] e.at(d.row, c) == Some(
                    Cell { symbol: s[c - d.column], fg: d.fg, bg: d.bg },
                )
            &&& forall|r: nat, c: nat|
                r != d.row || c < d.column || c >= d.column + s.len() ==> #[trigger] e.at(r, c)
                    == d.at(r, c)
        }),
    decreases s.len(),
{
    if s.len() > 0 {
        let rest = s.drop_first();
        assert forall|i: int| 0 <= i < rest.len() implies #[trigger] rest[i] != '\x1B' && rest[i]
            != '\n' by {
            assert(rest[i] == s[i + 1]);
        }
        assert(s[0] != '\x1B' && s[0] != '\n');
        let m = d.fed(s[0]);
        lemma_fed_text(d, s[0]);
        lemma_shown_text(m, rest);
        let e = d.shown(s);
        assert forall|c: nat| d.column <= c < d.column + s.len() implies #[trigger] e.at(d.row, c)
            == Some(Cell { symbol: s[c - d.column], fg: d.fg, bg: d.bg }) by {
            if c > d.column {
                assert(rest[c - m.column] == s[c - d.column]);
            } else {
                assert(e.at(d.row, c) == m.at(d.row, c));
            }
        }
    }
}

/// A character is written at the cursor.
proof fn lemma_fed_text(d: Display, symbol: char)
    requires
        d.reading is Text,
        symbol != '\x1B',
        symbol != '\n',
    ensures
        ({
            let e = d.fed(symbol);
            &&& e == (Display { column: d.column + 1, cells: e.cells, ..d })
            &&& e.at(d.row, d.column) == Some(Cell { symbol, fg: d.fg, bg: d.bg })
            &&& forall|r: nat, c: nat|
                r != d.row || c != d.column ==> #[trigger] e.at(r, c) == d.at(r, c)
        }),
{
    let e = d.fed(symbol);
    assert forall|r: nat, c: nat| r != d.row || c != d.column implies #[trigger] e.at(r, c)
        == d.at(r, c) by {
        assert((r, c) != (d.row, d.column));
    }
}

/// The color of a heat value.
spec fn heat_color(heat: u8) -> Option<nat> {
    Some(FIRE_PALETTE@[heat as int] as nat)
}

/// The heat in the upper half of a cell.
spec fn hi(fire: FireModel, r: nat, x: nat) -> u8 {
    fire.pixels[((2 * r) * fire.width + x) as int]
}

/// The heat in the lower half of a cell.
spec fn lo(fire: FireModel, r: nat, x: nat) -> u8 {
    fire.pixels[((2 * r + 1) * fire.width + x) as int]
}

/// Whether a cell of the screen shows the two heat values that belong there.
spec fn shows(d: Display, fire: FireModel, r: nat, x: nat) -> bool {
    d.at(r + 1, x + 1) == Some(
        Cell {
            symbol: '\u{2580}',
            fg: heat_color(hi(fire, r, x)),
            bg: heat_color(lo(fire, r, x)),
        },
    )
}

/// Whether the colors in force are those of the cell before a given one.
spec fn carried(d: Display, fire: FireModel, r: nat, x: nat) -> bool {
    &&& d.reading is Text
    &&& d.fg == heat_color(frame::upper_before(fire, r, x))
    &&& d.bg == heat_color(frame::lower_before(fire, r, x))
}

/// A cell is drawn at its place in its colors, which then are in force.
proof fn lemma_shown_cell(d: Display, fire: FireModel, r: nat, x: nat)
    requires
        fire.shaped(),
        fire.in_palette(),
        r < fire.height / 2,
        x < fire.width,
        carried(d, fire, r, x),
        d.row == r + 1,
        d.column == x + 1,
    ensures
        ({
            let e = d.shown(frame::cell_text(fire, ansi::fg_table(), ansi::bg_table(), r, x));
            &&& carried(e, fire, r, x + 1)
            &&& e.row == r + 1 && e.column == x + 2
            &&& shows(e, fire, r, x)
            &&& forall|a: nat, b: nat|
                a != r + 1 || b != x + 1 ==> #[trigger] e.at(a, b) == d.at(a, b)
        }),
{
    let up = frame::upper(fire, r, x);
    let low = frame::lower(fire, r, x);
    crate::fire::lemma_cell_index(fire.width, fire.height, x, 2 * r);
    crate::fire::lemma_cell_index(fire.width, fire.height, x, 2 * r + 1);
    crate::fire::law_palette_fits_color_table(up);
    crate::fire::law_palette_fits_color_table(low);
    let fg = FIRE_PALETTE@[up as int] as nat;
    let bg = FIRE_PALETTE@[low as int] as nat;
    assert(ansi::fg_table()[fg as int] == ansi::fg_color(fg));
    assert(ansi::bg_table()[bg as int] == ansi::bg_color(bg));
    let b = frame::bg_change(fire, ansi::bg_table(), r, x);
    let f = frame::fg_change(fire, ansi::fg_table(), r, x);
    lemma_shown_concat(d, b, f);
    lemma_shown_concat(d, b + f, PX@);
    law_color_sequence_selects_its_color(d, bg);
    let d1 = d.shown(b);
    assert(d1 == (Display { bg: Some(bg), ..d }));
    law_color_sequence_selects_its_color(d1, fg);
    let d2 = d1.shown(f);
    assert(d2 == (Display { fg: Some(fg), bg: Some(bg), ..d }));
    reveal_strlit("\u{2580}");
    lemma_fed_text(d2, '\u{2580}');
    assert(d2.shown(PX@) == d2.fed('\u{2580}')) by {
        reveal_with_fuel(Display::shown, 2);
    }
    let e = d2.fed('\u{2580}');
    assert forall|a: nat, b: nat| a != r + 1 || b != x + 1 implies #[trigger] e.at(a, b) == d.at(
        a,
        b,
    ) by {
        assert(d2.at(a, b) == d.at(a, b));
    }
}

proof fn lemma_shown_row(d: Display, fire: FireModel, r: nat, n: nat)
    requires
        fire.shaped(),
        fire.in_palette(),
        r < fire.height / 2,
        n <= fire.width,
        carried(d, fire, r, 0),
        d.row == r + 1,
        d.column == 1,
    ensures
        ({
            let e = d.shown(frame::row_text(fire, ansi::fg_table(), ansi::bg_table(), r, n));
            &&& carried(e, fire, r, n)
            &&& e.row == r + 1 && e.column == n + 1
            &&& forall|x: nat| x < n ==> #[trigger] shows(e, fire, r, x)
            &&& forall|a: nat, b: nat|
                a != r + 1 || b < 1 || b > n ==> #[trigger] e.at(a, b) == d.at(a, b)
        }),
    decreases n,
{
    if n > 0 {
        let m = (n - 1) as nat;
        let t = frame::row_text(fire, ansi::fg_table(), ansi::bg_table(), r, m);
        let c = frame::cell_text(fire, ansi::fg_table(), ansi::bg_table(), r, m);
        lemma_shown_row(d, fire, r, m);
        lemma_shown_cell(d.shown(t), fire, r, m);
        lemma_shown_concat(d, t, c);
        let e = d.shown(t).shown(c);
        assert forall|x: nat| x < n implies #[trigger] shows(e, fire, r, x) by {
            if x < m {
                assert(shows(d.shown(t), fire, r, x));
            }
        }
    }
}

proof fn lemma_shown_rows(d: Display, fire: FireModel, n: nat)
    requires
        fire.shaped(),
        fire.in_palette(),
        n <= fire.height / 2,
        carried(d, fire, 0, 0),
        d.row == 1,
        d.column == 1,
    ensures
        ({
            let e = d.shown(frame::rows_text(fire, ansi::fg_table(), ansi::bg_table(), n));
            &&& carried(e, fire, n, 0)
            &&& n == 0 ==> e == d
            &&& forall|r: nat, x: nat|
                r < n && x < fire.width ==> #[trigger] shows(e, fire, r, x)
            &&& forall|a: nat, b: nat|
                a < 1 || a > n || b < 1 || b > fire.width ==> #[trigger] e.at(a, b) == d.at(a, b)
        }),
    decreases n,
{
    if n > 0 {
        let r = (n - 1) as nat;
        let t = frame::rows_text(fire, ansi::fg_table(), ansi::bg_table(), r);
        let mv = frame::row_move(r);
        let row = frame::row_text(fire, ansi::fg_table(), ansi::bg_table(), r, fire.width);
        lemma_shown_rows(d, fire, r);
        lemma_shown_concat(d, t, mv);
        lemma_shown_concat(d, t + mv, row);
        let d1 = d.shown(t);
        law_row_start_moves_to_its_row(d1, r + 1);
        let d2 = d1.shown(mv);
        assert(d2.row == r + 1 && d2.column == 1 && carried(d2, fire, r, 0) && d2.cells
            == d1.cells);
        lemma_shown_row(d2, fire, r, fire.width);
        let e = d2.shown(row);
        assert forall|q: nat, x: nat| q < n && x < fire.width implies #[trigger] shows(
            e,
            fire,
            q,
            x,
        ) by {
            if q < r {
                assert(shows(d1, fire, q, x));
                assert(e.at(q + 1, x + 1) == d2.at(q + 1, x + 1));
                assert(d2.at(q + 1, x + 1) == d1.at(q + 1, x + 1));
            }
        }
        assert forall|a: nat, b: nat|
            a < 1 || a > n || b < 1 || b > fire.width implies #[trigger] e.at(a, b) == d.at(
            a,
            b,
        ) by {
            assert(d2.at(a, b) == d1.at(a, b));
        }
    }
}

/// What a frame shows, whatever was on the screen and wherever the cursor was. The cell in row `r`
/// and column `x` (counted from 0) is the upper half block. Its foreground is the color of the heat
/// in row `2 * r` of the grid, and its background that of the heat in row `2 * r + 1`, both in
/// column `x`. Nothing else on the screen changes.
pub proof fn law_frame_shows_the_fire(d: Display, fire: FireModel, r: nat, x: nat)
    requires
        d.reading is Text,
        fire.shaped(),
        fire.in_palette(),
        r < fire.height / 2,
        x < fire.width,
    ensures
        ({
            let e = d.shown(frame::frame_text(fire, ansi::fg_table(), ansi::bg_table()));
            let above = fire.pixels[((2 * r) * fire.width + x) as int];
            let below = fire.pixels[((2 * r + 1) * fire.width + x) as int];
            &&& e.reading is Text
            &&& e.at(r + 1, x + 1) == Some(
                Cell {
                    symbol: '\u{2580}',
                    fg: Some(FIRE_PALETTE@[above as int] as nat),
                    bg: Some(FIRE_PALETTE@[below as int] as nat),
                },
            )
            &&& forall|a: nat, b: nat|
                a < 1 || 2 * a > fire.height || b < 1 || b > fire.width ==> #[trigger] e.at(a, b)
                    == d.at(a, b)
        }),
{
    let bg = ansi::bg_table()[0];
    let fg = ansi::fg_table()[0];
    assert(fg == ansi::fg_color(0) && bg == ansi::bg_color(0));
    let rows = frame::rows_text(fire, ansi::fg_table(), ansi::bg_table(), fire.height / 2);
    lemma_shown_concat(d, CURSOR_HOME@, COLOR_RESET@);
    lemma_shown_concat(d, CURSOR_HOME@ + COLOR_RESET@, bg);
    lemma_shown_concat(d, CURSOR_HOME@ + COLOR_RESET@ + bg, fg);
    lemma_shown_concat(d, CURSOR_HOME@ + COLOR_RESET@ + bg + fg, rows);
    lemma_shown_home(d);
    let d1 = d.shown(CURSOR_HOME@);
    lemma_shown_reset(d1);
    let d2 = d1.shown(COLOR_RESET@);
    law_color_sequence_selects_its_color(d2, 0);
    let d3 = d2.shown(bg);
    law_color_sequence_selects_its_color(d3, 0);
    let d4 = d3.shown(fg);
    lemma_shown_rows(d4, fire, fire.height / 2);
    let e = d4.shown(rows);
    assert(shows(e, fire, r, x));
    assert forall|a: nat, b: nat|
        a < 1 || 2 * a > fire.height || b < 1 || b > fire.width implies #[trigger] e.at(a, b)
        == d.at(a, b) by {
        assert(d4.at(a, b) == d.at(a, b));
    }
}

/// What a status line shows, whatever was on the screen. It stands in the last row, from the first
/// column on, in white on black, and says in this order how long the shortest, the average and the
/// longest frame were and how many frames a second there were. What does not fit in all columns but
/// the last is left out, and the rest of the row is cleared. No other row changes.
pub proof fn law_status_line_shows_its_numbers(d: Display, size: TermSize, status: StatusModel)
    requires
        d.reading is Text,
        size.valid(),
        status.numeric(),
    ensures
        ({
            let e = d.shown(frame::status_text(size, status));
            let line = "mem: "@ + status.min + " min / "@ + status.avg + " avg / "@ + status.max
                + " max [ "@ + status.fps + " fps ]"@;
            &&& forall|c: nat|
                1 <= c <= line.len() && c < size.width ==> #[trigger] e.at(size.height as nat, c)
                    == Some(Cell { symbol: line[c - 1], fg: Some(15), bg: Some(0) })
            &&& forall|c: nat|
                c > line.len() || c >= size.width && c >= 1 ==> #[trigger] e.at(
                    size.height as nat,
                    c,
                ) is None
            &&& forall|a: nat, b: nat| a != size.height ==> #[trigger] e.at(a, b) == d.at(a, b)
        }),
{
    let h = size.height as nat;
    let start = ansi::row_start(h);
    let clipped = status.clipped(size.width as nat);
    frame_laws::lemma_numeric_line(status);
    assert(printable(status.line())) by {
        reveal_strlit("mem: ");
        reveal_strlit(" min / ");
        reveal_strlit(" avg / ");
        reveal_strlit(" max [ ");
        reveal_strlit(" fps ]");
    }
    assert forall|i: int| 0 <= i < clipped.len() implies #[trigger] clipped[i] != '\x1B'
        && clipped[i] != '\n' by {
        assert(status.line()[i] == clipped[i]);
    }
    lemma_shown_concat(d, start, COLOR_DEF@);
    lemma_shown_concat(d, start + COLOR_DEF@, clipped);
    lemma_shown_concat(d, start + COLOR_DEF@ + clipped, LINE_CLEAR_TO_EOL@);
    law_row_start_moves_to_its_row(d, h);
    let d1 = d.shown(start);
    lemma_shown_def(d1);
    let d2 = d1.shown(COLOR_DEF@);
    lemma_shown_text(d2, clipped);
    let d3 = d2.shown(clipped);
    lemma_shown_clear(d3);
    let e = d3.shown(LINE_CLEAR_TO_EOL@);
    assert forall|a: nat, b: nat| true implies #[trigger] e.at(a, b) == (if a == h && b >= 1
        + clipped.len() {
        None::<Cell>
    } else {
        d3.at(a, b)
    }) by {}
    assert forall|a: nat, b: nat| a != h implies #[trigger] e.at(a, b) == d.at(a, b) by {
        assert(d3.at(a, b) == d2.at(a, b));
    }
}

} // verus!
