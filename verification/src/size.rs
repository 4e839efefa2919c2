//! Terminal dimensions: where they come from, and which of them can be drawn on.

use vstd::prelude::*;

use crate::text;

verus! {

/// Bounds both the simulation and the largest encoded frame to a few dozen MiB.
pub const MAX_TERM_CELLS: usize = 1_000_000;

/// The size of a terminal in character cells.
#[derive(Clone, Copy, Debug, PartialEq, Eq, Structural)]
pub struct TermSize {
    pub height: usize,
    pub width: usize,
}

/// Why a terminal cannot be drawn on.
#[derive(Clone, Copy, Debug, PartialEq, Eq, Structural)]
pub enum SizeError {
    /// There is no column, or no row for the fire beside the status row.
    TooSmall,
    /// There are more than [`MAX_TERM_CELLS`] cells.
    TooLarge,
}

impl SizeError {
    /// The message shown to the user.
    pub fn message(self) -> (text: &'static str)
        ensures
            text@ == (match self {
                SizeError::TooSmall => "terminal must be at least 1 column by 2 rows"@,
                SizeError::TooLarge => "terminal exceeds the limit of 1,000,000 cells"@,
            }),
    {
        match self {
            SizeError::TooSmall => "terminal must be at least 1 column by 2 rows",
            SizeError::TooLarge => "terminal exceeds the limit of 1,000,000 cells",
        }
    }
}

impl Default for TermSize {
    fn default() -> (size: TermSize)
        ensures
            size.height == 0 && size.width == 0,
    {
        TermSize { height: 0, width: 0 }
    }
}

impl TermSize {
    /// What is wrong with a size, if anything is.
    pub open spec fn defect(self) -> Option<SizeError> {
        if self.width == 0 || self.height < 2 {
            Some(SizeError::TooSmall)
        } else if self.width * self.height > MAX_TERM_CELLS {
            Some(SizeError::TooLarge)
        } else {
            None
        }
    }

    /// Whether the terminal can be drawn on.
    pub open spec fn valid(self) -> bool {
        self.defect() is None
    }

    /// Accepts the sizes that can be drawn on.
    pub fn validate(self) -> (result: Result<TermSize, SizeError>)
        ensures
            result == (match self.defect() {
                Some(e) => Err::<TermSize, SizeError>(e),
                None => Ok::<TermSize, SizeError>(self),
            }),
    {
        if self.width == 0 || self.height < 2 {
            return Err(SizeError::TooSmall);
        }
        match self.width.checked_mul(self.height) {
            None => Err(SizeError::TooLarge),
            Some(cells) => if cells > MAX_TERM_CELLS {
                Err(SizeError::TooLarge)
            } else {
                Ok(self)
            },
        }
    }
}

/// A valid size has at most [`MAX_TERM_CELLS`] columns and as many rows.
pub proof fn lemma_valid_bounds(size: TermSize)
    requires
        size.valid(),
    ensures
        1 <= size.width <= MAX_TERM_CELLS,
        2 <= size.height <= MAX_TERM_CELLS,
        size.width * (size.height - 1) <= MAX_TERM_CELLS - size.width,
{
    let w = size.width as int;
    let h = size.height as int;
    assert(w <= w * h) by (nonlinear_arith)
        requires
            w >= 1,
            h >= 2,
    ;
    assert(h <= w * h) by (nonlinear_arith)
        requires
            w >= 1,
            h >= 2,
    ;
    assert(w * (h - 1) == w * h - w) by (nonlinear_arith);
}

/// The size that the window-size request reported: none if the request failed or if the terminal
/// does not know its size.
pub open spec fn reported_size(status: i32, rows: u16, columns: u16) -> Option<TermSize> {
    if status < 0 || rows == 0 || columns == 0 {
        None
    } else {
        Some(TermSize { height: rows as usize, width: columns as usize })
    }
}

/// Reads the reply to a window-size request; see [`reported_size`].
pub fn ioctl_term_size(status: i32, rows: u16, columns: u16) -> (size: Option<TermSize>)
    ensures
        size == reported_size(status, rows, columns),
{
    if status < 0 {
        return None;
    }
    if rows == 0 || columns == 0 {
        return None;
    }
    Some(TermSize { height: rows as usize, width: columns as usize })
}

/// The number in an environment variable, if it is set to one.
pub open spec fn variable_value(text: Option<Seq<char>>) -> Option<nat> {
    match text {
        None => None,
        Some(t) => match text::unsigned_value(t) {
            Some(v) if v <= usize::MAX => Some(v),
            _ => None,
        },
    }
}

/// The view of an optional text.
pub open spec fn optional_text(text: Option<&str>) -> Option<Seq<char>> {
    match text {
        None => None,
        Some(t) => Some(t@),
    }
}

/// The size that the environment gives: none unless both variables hold numbers.
pub open spec fn environment_size(
    columns: Option<Seq<char>>,
    lines: Option<Seq<char>>,
) -> Option<TermSize> {
    match (variable_value(columns), variable_value(lines)) {
        (Some(width), Some(height)) => Some(
            TermSize { height: height as usize, width: width as usize },
        ),
        _ => None,
    }
}

/// Reads the size from the values of the variables `COLUMNS` and `LINES`.
pub fn env_term_size(columns: Option<&str>, lines: Option<&str>) -> (size: Option<TermSize>)
    ensures
        size == environment_size(optional_text(columns), optional_text(lines)),
{
    let width = match columns {
        None => {
            return None;
        },
        Some(value) => text::parse_usize(value),
    };
    let height = match lines {
        None => {
            return None;
        },
        Some(value) => text::parse_usize(value),
    };
    match (width, height) {
        (Some(width), Some(height)) => Some(TermSize { height, width }),
        _ => None,
    }
}

/// The size to work with: what the terminal reported goes before what the environment gives.
pub open spec fn known_size(reported: Option<TermSize>, environment: Option<TermSize>) -> TermSize {
    if reported is Some {
        reported.unwrap()
    } else if environment is Some {
        environment.unwrap()
    } else {
        TermSize { height: 0, width: 0 }
    }
}

/// The size to work with: what the terminal reported, else what the environment gives, else
/// zero by zero.
pub fn term_size(reported: Option<TermSize>, environment: Option<TermSize>) -> (size: TermSize)
    ensures
        size == (match (reported, environment) {
            (Some(s), _) => s,
            (None, Some(s)) => s,
            (None, None) => TermSize { height: 0, width: 0 },
        }),
        size == known_size(reported, environment),
{
    match reported {
        Some(size) => size,
        None => match environment {
            Some(size) => size,
            None => TermSize { height: 0, width: 0 },
        },
    }
}

/// A size is rejected exactly if it has no column, fewer than two rows or too many cells.
pub proof fn law_accepted_sizes(size: TermSize)
    ensures
        size.valid() <==> 1 <= size.width && 2 <= size.height && size.width * size.height
            <= 1_000_000,
{
}

/// Which error a size is rejected with: being too small comes first, and only a size that is not
/// too small is too large.
pub proof fn law_rejected_sizes(size: TermSize)
    ensures
        size.defect() == Some(SizeError::TooSmall) <==> size.width == 0 || size.height < 2,
        size.defect() == Some(SizeError::TooLarge) <==> size.width >= 1 && size.height >= 2
            && size.width * size.height > 1_000_000,
{
}

/// What the terminal reports is taken as it is, rows as the height and columns as the width, unless
/// the request failed or a number is zero.
pub proof fn law_reported_size_is_taken(status: i32, rows: u16, columns: u16)
    ensures
        reported_size(status, rows, columns) is Some <==> status >= 0 && rows > 0 && columns > 0,
        reported_size(status, rows, columns) matches Some(size) ==> size.height == rows
            && size.width == columns,
{
}

/// The environment gives a size exactly if both variables are set to numbers that fit: `COLUMNS` is
/// the width and `LINES` the height. A number written out is read as that number, with or without a
/// plus sign.
pub proof fn law_environment_gives_its_numbers(width: usize, height: usize)
    ensures
        environment_size(
            Some(text::decimal(width as nat)),
            Some(text::decimal(height as nat)),
        ) == Some(TermSize { height, width }),
        environment_size(
            Some(seq!['+'] + text::decimal(width as nat)),
            Some(text::decimal(height as nat)),
        ) == Some(TermSize { height, width }),
        environment_size(None, Some(text::decimal(height as nat))) is None,
        environment_size(Some(text::decimal(width as nat)), None) is None,
{
    text::law_decimal_reads_back(width as nat);
    text::law_decimal_reads_back(height as nat);
    text::lemma_decimal_digits(width as nat);
    let plus = seq!['+'] + text::decimal(width as nat);
    assert(plus.drop_first() =~= text::decimal(width as nat));
}

/// A variable that holds anything but digits after at most one plus sign, or nothing but the sign,
/// gives no size.
pub proof fn law_environment_rejects_other_text(
    columns: Seq<char>,
    lines: Option<Seq<char>>,
    i: int,
)
    requires
        0 <= i < columns.len(),
        columns[i] < '0' || columns[i] > '9',
        i > 0 || columns[i] != '+' || columns.len() == 1,
    ensures
        environment_size(Some(columns), lines) is None,
{
    if columns[0] == '+' {
        let digits = columns.drop_first();
        if i > 0 {
            assert(digits[i - 1] == columns[i]);
        }
    }
}

/// What the terminal reports settles its size, whatever the environment says; only where it reports
/// nothing does the environment count, and where that says nothing either, no terminal is accepted.
pub proof fn law_terminal_goes_before_the_environment(
    size: TermSize,
    reported: Option<TermSize>,
    environment: Option<TermSize>,
)
    ensures
        known_size(Some(size), environment) == size,
        known_size(None, Some(size)) == size,
        !known_size(None, None).valid(),
{
}

/// A number that is too large for the machine gives no size.
pub proof fn law_environment_rejects_too_large_numbers(n: nat, lines: Option<Seq<char>>)
    requires
        n > usize::MAX,
    ensures
        environment_size(Some(text::decimal(n)), lines) is None,
        environment_size(lines, Some(text::decimal(n))) is None,
{
    text::law_decimal_reads_back(n);
}

} // verus!
