//! The terminal's control sequences.

use vstd::prelude::*;
use vstd::string::StringExecFns;

use crate::text;

verus! {

/// The number of colors of the terminal.
pub const MAX_COLOR: usize = 256;

/// The highest color number.
pub const LAST_COLOR: usize = 255;

pub const CSI: &'static str = "\x1B[";

pub const LINE_CLEAR_TO_EOL: &'static str = "\x1B[0K";

pub const LINE_NEW: &'static str = "\x1B[0K\x1B[1E\x1B[1G";

pub const CURSOR_SAVE: &'static str = "\x1B7";

pub const CURSOR_LOAD: &'static str = "\x1B8";

pub const CURSOR_SHOW: &'static str = "\x1B[?25h";

pub const CURSOR_HIDE: &'static str = "\x1B[?25l";

pub const CURSOR_HOME: &'static str = "\x1B[1;1H";

pub const SCREEN_CLEAR: &'static str = "\x1B[2J";

pub const SCREEN_BUF_ON: &'static str = "\x1B[?1049h";

pub const SCREEN_BUF_OFF: &'static str = "\x1B[?1049l";

pub const CHAR_SET_ASCII: &'static str = "\x1B(B";

pub const COLOR_RESET: &'static str = "\x1B[0m";

pub const COLOR_DEF: &'static str = "\x1B[48;5;0m\x1B[38;5;15m";

pub const COLOR_ITALIC: &'static str = "\x1B[3m";

pub const COLOR_NOT_ITALIC: &'static str = "\x1B[23m";

/// The upper half block: its foreground is the upper pixel of a cell, its background the lower.
pub const PX: &'static str = "\u{2580}";

/// What selects a foreground color.
pub const FG_KIND: &'static str = "38;5;";

/// What selects a background color.
pub const BG_KIND: &'static str = "48;5;";

/// The kind of system that the terminal belongs to.
#[derive(Clone, Copy, Debug, PartialEq, Eq, Structural)]
pub enum Platform {
    Unix,
    Windows,
}

/// The sequence that selects a color.
pub open spec fn color(kind: Seq<char>, idx: nat) -> Seq<char> {
    CSI@ + kind + text::decimal(idx) + "m"@
}

/// The sequence that selects a foreground color.
pub open spec fn fg_color(idx: nat) -> Seq<char> {
    color(FG_KIND@, idx)
}

/// The sequence that selects a background color.
pub open spec fn bg_color(idx: nat) -> Seq<char> {
    color(BG_KIND@, idx)
}

/// The sequences of one kind for all colors.
pub open spec fn color_table(kind: Seq<char>) -> Seq<Seq<char>> {
    Seq::new(MAX_COLOR as nat, |i: int| color(kind, i as nat))
}

/// The sequences that select the foreground colors.
pub open spec fn fg_table() -> Seq<Seq<char>> {
    color_table(FG_KIND@)
}

/// The sequences that select the background colors.
pub open spec fn bg_table() -> Seq<Seq<char>> {
    color_table(BG_KIND@)
}

/// The texts in a row of strings.
pub open spec fn texts(strings: Seq<String>) -> Seq<Seq<char>> {
    Seq::new(strings.len(), |i: int| strings[i]@)
}

/// The sequence that moves the cursor to the start of a row; the first row is row 1.
pub open spec fn row_start(row: nat) -> Seq<char> {
    CSI@ + text::decimal(row) + ";1H"@
}

/// What ends a line.
pub open spec fn newline(platform: Platform) -> Seq<char> {
    match platform {
        Platform::Unix => "\n"@,
        Platform::Windows => LINE_NEW@,
    }
}

/// What separates the fields of the color charts.
pub open spec fn separator(platform: Platform) -> Seq<char> {
    match platform {
        Platform::Unix => "\u{258f}"@,
        Platform::Windows => "|"@,
    }
}

/// What takes the screen over: the alternate screen without a cursor, cleared to black.
#[verifier::opaque]
pub open spec fn screen_on() -> Seq<char> {
    SCREEN_BUF_ON@ + CURSOR_HIDE@ + CURSOR_HOME@ + COLOR_DEF@ + SCREEN_CLEAR@
}

/// What gives the screen back.
#[verifier::opaque]
pub open spec fn screen_off() -> Seq<char> {
    COLOR_RESET@ + CURSOR_SHOW@ + SCREEN_BUF_OFF@
}

/// Whether a text holds no sequence about the screen or the cursor's visibility: those have a
/// question mark behind the bracket.
#[verifier::opaque]
pub open spec fn plain(t: Seq<char>) -> bool {
    forall|i: int| 0 <= i < t.len() && #[trigger] t[i] == '?' ==> i > 0 && t[i - 1] != '['
}

/// Plain texts make up plain text.
pub broadcast proof fn lemma_plain_concat(a: Seq<char>, b: Seq<char>)
    requires
        plain(a),
        plain(b),
    ensures
        #[trigger] plain(a + b),
{
    reveal(plain);
    assert forall|i: int| 0 <= i < (a + b).len() && #[trigger] (a + b)[i] == '?' implies i > 0 && (a
        + b)[i - 1] != '[' by {
        if i < a.len() {
            assert(a[i] == '?');
        } else {
            assert(b[i - a.len()] == '?');
        }
    }
}

/// The table of the sequences of one kind for all colors.
pub fn init_colors(kind: &str) -> (table: Vec<String>)
    ensures
        texts(table@) == color_table(kind@),
{
    let mut table: Vec<String> = Vec::new();
    let mut idx: usize = 0;
    while idx < MAX_COLOR
        invariant
            idx <= MAX_COLOR,
            table@.len() == idx,
            forall|i: int| 0 <= i < idx ==> #[trigger] table@[i]@ == color(kind@, i as nat),
        decreases MAX_COLOR - idx,
    {
        let mut s: String = String::new();
        s.append(CSI);
        s.append(kind);
        text::append_decimal(&mut s, idx);
        s.append("m");
        assert(s@ =~= color(kind@, idx as nat));
        table.push(s);
        idx = idx + 1;
    }
    assert(texts(table@) =~= color_table(kind@));
    table
}

/// What ends a line.
pub fn nl(platform: Platform) -> (s: &'static str)
    ensures
        s@ == newline(platform),
{
    match platform {
        Platform::Unix => "\n",
        Platform::Windows => LINE_NEW,
    }
}

/// What separates the fields of the color charts.
pub fn sep(platform: Platform) -> (s: &'static str)
    ensures
        s@ == separator(platform),
{
    match platform {
        Platform::Unix => "\u{258f}",
        Platform::Windows => "|",
    }
}

/// What takes the screen over.
pub fn term_on() -> (s: String)
    ensures
        s@ == screen_on(),
{
    let mut s: String = String::new();
    s.append(SCREEN_BUF_ON);
    s.append(CURSOR_HIDE);
    s.append(CURSOR_HOME);
    s.append(COLOR_DEF);
    s.append(SCREEN_CLEAR);
    proof {
        reveal(screen_on);
    }
    assert(s@ =~= screen_on());
    s
}

/// What gives the screen back.
pub fn term_off() -> (s: String)
    ensures
        s@ == screen_off(),
{
    let mut s: String = String::new();
    s.append(COLOR_RESET);
    s.append(CURSOR_SHOW);
    s.append(SCREEN_BUF_OFF);
    proof {
        reveal(screen_off);
    }
    assert(s@ =~= screen_off());
    s
}

} // verus!
