//! The fire: a grid of heat values, fed by its bottom row, that cools as it rises.

use vstd::prelude::*;

use crate::ansi::MAX_COLOR;
use crate::memory::reserved_buffer;
use crate::memory::Buffer;
use crate::memory::SetupError;
use crate::rng;
use crate::rng::Rng;
use crate::size::TermSize;

verus! {

/// The colors of the heat values, from cold to hot.
pub const FIRE_PALETTE: [usize; 26] = [
    0, 233, 234, 52, 53, 88, 89, 94, 95, 96, 130, 131, 132, 133, 172, 214, 215, 220, 220, 221, 3,
    226, 227, 230, 195, 230,
];

/// The heat of the bottom row, which is the last one in the palette.
pub const MAX_HEAT: u8 = 25;

/// A grid of heat values, row by row from the top.
pub struct Fire {
    pub width: usize,
    pub height: usize,
    pub pixels: Vec<u8>,
}

/// What a fire is: its grid.
#[verifier::ext_equal]
pub struct FireModel {
    pub width: nat,
    pub height: nat,
    pub pixels: Seq<u8>,
}

/// A grid and the state of the generator that it draws from.
#[verifier::ext_equal]
pub struct Burn {
    pub pixels: Seq<u8>,
    pub rng: u64,
}

impl View for Fire {
    type V = FireModel;

    open spec fn view(&self) -> FireModel {
        FireModel {
            width: self.width as nat,
            height: self.height as nat,
            pixels: self.pixels@,
        }
    }
}

/// One cell passes its heat on. A cold cell puts out the cell above. Any other cell draws a
/// number from 0 to 3 and heats the row above, that many cells to the left of the next column;
/// an odd draw costs one degree. Heat that would leave at the top is lost.
pub open spec fn burn_cell(b: Burn, width: nat, idx: int) -> Burn {
    let heat = b.pixels[idx];
    if heat == 0 && idx >= width {
        Burn { pixels: b.pixels.update(idx - width, 0), rng: b.rng }
    } else {
        let rng = rng::next_state(b.rng);
        let spread = rng::output_0_to_3(rng);
        let dst = if idx > spread {
            idx - spread + 1
        } else {
            idx
        };
        let rest = heat.saturating_sub((spread % 2) as u8);
        if dst >= width {
            Burn { pixels: b.pixels.update(dst - width, rest), rng }
        } else {
            Burn { pixels: b.pixels, rng }
        }
    }
}

/// The first `rows` cells of column `x` pass their heat on, from the top down.
pub open spec fn burn_column(b: Burn, width: nat, x: nat, rows: nat) -> Burn
    decreases rows,
{
    if rows == 0 {
        b
    } else {
        burn_cell(
            burn_column(b, width, x, (rows - 1) as nat),
            width,
            (rows - 1) * width + x,
        )
    }
}

/// The first `columns` columns pass their heat on, from the left.
pub open spec fn burn_columns(b: Burn, width: nat, height: nat, columns: nat) -> Burn
    decreases columns,
{
    if columns == 0 {
        b
    } else {
        burn_column(
            burn_columns(b, width, height, (columns - 1) as nat),
            width,
            (columns - 1) as nat,
            height,
        )
    }
}

impl FireModel {
    /// The grid is rectangular.
    pub open spec fn rectangular(self) -> bool {
        self.pixels.len() == self.width * self.height
    }

    /// The grid is rectangular, has an even number of rows and is not empty.
    pub open spec fn shaped(self) -> bool {
        &&& self.width >= 1
        &&& self.height >= 2
        &&& self.height % 2 == 0
        &&& self.rectangular()
    }

    /// No heat value is above `bound`.
    pub open spec fn cooler_than(self, bound: u8) -> bool {
        forall|i: int| 0 <= i < self.pixels.len() ==> #[trigger] self.pixels[i] <= bound
    }

    /// The heat values all have a color.
    pub open spec fn in_palette(self) -> bool {
        self.cooler_than(MAX_HEAT)
    }

    /// The bottom row is as hot as can be.
    pub open spec fn fed(self) -> bool {
        forall|i: int|
            (self.height - 1) * self.width <= i < self.pixels.len() ==> #[trigger] self.pixels[i]
                == MAX_HEAT
    }

    /// A fire that was just lit for a terminal of the given size: two rows of heat values for each
    /// row of the terminal but the last, all cold except for the bottom row.
    pub open spec fn lit(size: TermSize) -> FireModel {
        let width = size.width as nat;
        let height = ((size.height - 1) * 2) as nat;
        FireModel {
            width,
            height,
            pixels: Seq::new(
                width * height,
                |i: int|
                    if i >= (height - 1) * width {
                        MAX_HEAT
                    } else {
                        0u8
                    },
            ),
        }
    }

    /// The fire one frame later.
    pub open spec fn advanced(self, rng: u64) -> (FireModel, u64) {
        let b = burn_columns(
            Burn { pixels: self.pixels, rng },
            self.width,
            self.height,
            self.width,
        );
        (FireModel { width: self.width, height: self.height, pixels: b.pixels }, b.rng)
    }
}

/// The index of a cell lies in the grid.
pub proof fn lemma_cell_index(width: nat, height: nat, x: nat, y: nat)
    requires
        x < width,
        y < height,
    ensures
        0 <= y * width + x < width * height,
        y < height - 1 ==> y * width + x < (height - 1) * width,
        (height - 1) * width == width * height - width,
{
    assert(y * width + x < width * height) by (nonlinear_arith)
        requires
            x < width,
            y < height,
    ;
    assert(0 <= y * width) by (nonlinear_arith)
        requires
            0 <= y,
            0 <= width,
    ;
    assert((height - 1) * width == width * height - width) by (nonlinear_arith);
    if y < height - 1 {
        assert(y * width + x < (height - 1) * width) by (nonlinear_arith)
            requires
                x < width,
                y < height - 1,
        ;
    }
}

/// What one cell does keeps the size of the grid, a generator that is not stuck, every bound on the
/// heat, and a hot bottom row.
proof fn lemma_burn_cell(b: Burn, width: nat, height: nat, idx: int, bound: u8)
    requires
        width >= 1,
        height >= 1,
        b.pixels.len() == width * height,
        0 <= idx < width * height,
    ensures
        burn_cell(b, width, idx).pixels.len() == b.pixels.len(),
        b.rng != 0 ==> burn_cell(b, width, idx).rng != 0,
        (forall|i: int| 0 <= i < b.pixels.len() ==> #[trigger] b.pixels[i] <= bound) ==> (forall|
            i: int,
        |
            0 <= i < b.pixels.len() ==> #[trigger] burn_cell(b, width, idx).pixels[i] <= bound),
        (forall|i: int|
            (height - 1) * width <= i < b.pixels.len() ==> #[trigger] b.pixels[i] == MAX_HEAT)
            ==> (forall|i: int|
            (height - 1) * width <= i < b.pixels.len() ==> #[trigger] burn_cell(
                b,
                width,
                idx,
            ).pixels[i] == MAX_HEAT),
{
    lemma_cell_index(width, height, 0, 0);
    if b.rng != 0 {
        rng::law_state_never_becomes_zero(b.rng);
    }
    assert(b.pixels.len() - 1 >= (height - 1) * width);
}

proof fn lemma_burn_column(b: Burn, width: nat, height: nat, x: nat, rows: nat, bound: u8)
    requires
        b.pixels.len() == width * height,
        x < width,
        rows <= height,
        height >= 1,
    ensures
        burn_column(b, width, x, rows).pixels.len() == b.pixels.len(),
        b.rng != 0 ==> burn_column(b, width, x, rows).rng != 0,
        (forall|i: int| 0 <= i < b.pixels.len() ==> #[trigger] b.pixels[i] <= bound) ==> (forall|
            i: int,
        |
            0 <= i < b.pixels.len() ==> #[trigger] burn_column(b, width, x, rows).pixels[i]
                <= bound),
        (forall|i: int|
            (height - 1) * width <= i < b.pixels.len() ==> #[trigger] b.pixels[i] == MAX_HEAT)
            ==> (forall|i: int|
            (height - 1) * width <= i < b.pixels.len() ==> #[trigger] burn_column(
                b,
                width,
                x,
                rows,
            ).pixels[i] == MAX_HEAT),
    decreases rows,
{
    if rows > 0 {
        let y = (rows - 1) as nat;
        lemma_burn_column(b, width, height, x, y, bound);
        lemma_cell_index(width, height, x, y);
        lemma_burn_cell(
            burn_column(b, width, x, y),
            width,
            height,
            (y * width + x) as int,
            bound,
        );
    }
}

proof fn lemma_burn_columns(b: Burn, width: nat, height: nat, columns: nat, bound: u8)
    requires
        b.pixels.len() == width * height,
        columns <= width,
        height >= 1,
    ensures
        burn_columns(b, width, height, columns).pixels.len() == b.pixels.len(),
        b.rng != 0 ==> burn_columns(b, width, height, columns).rng != 0,
        (forall|i: int| 0 <= i < b.pixels.len() ==> #[trigger] b.pixels[i] <= bound) ==> (forall|
            i: int,
        |
            0 <= i < b.pixels.len() ==> #[trigger] burn_columns(
                b,
                width,
                height,
                columns,
            ).pixels[i] <= bound),
        (forall|i: int|
            (height - 1) * width <= i < b.pixels.len() ==> #[trigger] b.pixels[i] == MAX_HEAT)
            ==> (forall|i: int|
            (height - 1) * width <= i < b.pixels.len() ==> #[trigger] burn_columns(
                b,
                width,
                height,
                columns,
            ).pixels[i] == MAX_HEAT),
    decreases columns,
{
    if columns > 0 {
        let x = (columns - 1) as nat;
        lemma_burn_columns(b, width, height, x, bound);
        lemma_burn_column(
            burn_columns(b, width, height, x),
            width,
            height,
            x,
            height,
            bound,
        );
    }
}

/// A frame keeps the shape of the grid.
pub proof fn law_advance_keeps_shape(fire: FireModel, rng: u64)
    requires
        fire.shaped(),
    ensures
        fire.advanced(rng).0.shaped(),
        fire.advanced(rng).0.width == fire.width,
        fire.advanced(rng).0.height == fire.height,
{
    lemma_burn_columns(
        Burn { pixels: fire.pixels, rng },
        fire.width,
        fire.height,
        fire.width,
        0,
    );
}

/// No cell ever gets hotter than the hottest cell was.
pub proof fn law_fire_never_heats_up(fire: FireModel, rng: u64, bound: u8)
    requires
        fire.shaped(),
        fire.cooler_than(bound),
    ensures
        fire.advanced(rng).0.cooler_than(bound),
{
    lemma_burn_columns(
        Burn { pixels: fire.pixels, rng },
        fire.width,
        fire.height,
        fire.width,
        bound,
    );
}

/// A fire whose bottom row is as hot as can be keeps it so: it never burns out.
pub proof fn law_fire_stays_fed(fire: FireModel, rng: u64)
    requires
        fire.shaped(),
        fire.fed(),
    ensures
        fire.advanced(rng).0.fed(),
{
    lemma_burn_columns(
        Burn { pixels: fire.pixels, rng },
        fire.width,
        fire.height,
        fire.width,
        0,
    );
}

/// A frame never leaves the generator stuck at zero.
pub proof fn law_advance_keeps_generator_going(fire: FireModel, rng: u64)
    requires
        fire.shaped(),
        rng != 0,
    ensures
        fire.advanced(rng).1 != 0,
{
    lemma_burn_columns(
        Burn { pixels: fire.pixels, rng },
        fire.width,
        fire.height,
        fire.width,
        0,
    );
}

/// Whether a cell passed its heat on, from the grid before to the grid after.
#[verifier::opaque]
spec fn passed_on(before: Burn, after: Burn, w: nat, h: nat, x: int, y: int) -> bool {
    let i = y * w + x;
    let heat = before.pixels[i];
    let draw = after.rng % 4;
    let target = if i > draw {
        i + 1 - draw - w
    } else {
        i - w
    };
    &&& before.pixels.len() == w * h && after.pixels.len() == w * h
    &&& heat == 0 && y > 0 ==> {
        &&& after.rng == before.rng
        &&& after.pixels[i - w] == 0
        &&& forall|j: int|
            0 <= j < w * h && j != i - w ==> #[trigger] after.pixels[j] == before.pixels[j]
    }
    &&& heat > 0 || y == 0 ==> {
        &&& after.rng == rng::next_state(before.rng)
        &&& target >= 0 && draw % 2 == 1 && heat > 0 ==> after.pixels[target] == heat - 1
        &&& target >= 0 && draw % 2 == 0 ==> after.pixels[target] == heat
        &&& target >= 0 && heat == 0 ==> after.pixels[target] == 0
        &&& forall|j: int|
            0 <= j < w * h && j != target ==> #[trigger] after.pixels[j] == before.pixels[j]
    }
}

proof fn lemma_passed_on(before: Burn, w: nat, h: nat, x: int, y: int)
    requires
        before.pixels.len() == w * h,
        0 <= x < w,
        0 <= y < h,
    ensures
        passed_on(before, burn_cell(before, w, y * w + x), w, h, x, y),
{
    reveal(passed_on);
    lemma_cell_index(w, h, x as nat, y as nat);
    rng::law_draw_is_the_low_bits(rng::next_state(before.rng));
    if y > 0 {
        assert(y * w >= w) by (nonlinear_arith)
            requires
                y >= 1,
                w >= 1,
        ;
    } else {
        assert(y * w == 0) by (nonlinear_arith)
            requires
                y == 0,
        ;
    }
}

/// What a frame does, cell by cell. The cells of the first column pass their heat on from the top
/// down, then those of the next column. `trace[x][y]` is the grid and the generator just before the
/// cell in column `x` and row `y` does so.
///
/// A cold cell puts out the cell straight above it and draws nothing. Any other cell draws a number
/// (the two low bits of the generator's next state) and heats the cell in the row above that lies
/// one column to the right, less as many columns as were drawn. That cell gets exactly one degree
/// less if the draw is odd, and exactly the same heat if it is even. No other cell changes. A
/// draw that leads out of the grid at the top is lost, and near the first cell nothing drifts.
#[verifier::rlimit(50)]
pub proof fn law_each_cell_passes_its_heat_on(fire: FireModel, rng: u64) -> (trace: Seq<Seq<Burn>>)
    requires
        fire.rectangular(),
        fire.width >= 1,
    ensures
        ({
            let w = fire.width as int;
            let h = fire.height as int;
            &&& trace.len() == w
            &&& trace[0][0].pixels == fire.pixels && trace[0][0].rng == rng
            &&& fire.advanced(rng).0.width == w && fire.advanced(rng).0.height == h
            &&& fire.advanced(rng).0.pixels == trace[w - 1][h].pixels
            &&& fire.advanced(rng).1 == trace[w - 1][h].rng
            &&& forall|x: int| 0 < x < w ==> (#[trigger] trace[x])[0] == trace[x - 1][h]
            &&& forall|x: int, y: int|
                0 <= x < w && 0 <= y < h ==> {
                    let before = #[trigger] trace[x][y];
                    let after = trace[x][y + 1];
                    let i = y * w + x;
                    let heat = before.pixels[i];
                    let draw = after.rng % 4;
                    let target = if i > draw {
                        i + 1 - draw - w
                    } else {
                        i - w
                    };
                    &&& before.pixels.len() == w * h && after.pixels.len() == w * h
                    &&& heat == 0 && y > 0 ==> {
                        &&& after.rng == before.rng
                        &&& after.pixels[i - w] == 0
                        &&& forall|j: int|
                            0 <= j < w * h && j != i - w ==> #[trigger] after.pixels[j]
                                == before.pixels[j]
                    }
                    &&& heat > 0 || y == 0 ==> {
                        &&& after.rng == rng::next_state(before.rng)
                        &&& target >= 0 && draw % 2 == 1 && heat > 0 ==> after.pixels[target]
                            == heat - 1
                        &&& target >= 0 && draw % 2 == 0 ==> after.pixels[target] == heat
                        &&& target >= 0 && heat == 0 ==> after.pixels[target] == 0
                        &&& forall|j: int|
                            0 <= j < w * h && j != target ==> #[trigger] after.pixels[j]
                                == before.pixels[j]
                    }
                }
        }),
{
    let w = fire.width;
    let h = fire.height;
    let start = Burn { pixels: fire.pixels, rng };
    let trace = Seq::new(
        w,
        |x: int|
            Seq::new(
                h + 1,
                |y: int| burn_column(burn_columns(start, w, h, x as nat), w, x as nat, y as nat),
            ),
    );
    assert forall|x: int, y: int| 0 <= x < w && 0 <= y < h implies passed_on(
        #[trigger] trace[x][y],
        trace[x][y + 1],
        w,
        h,
        x,
        y,
    ) by {
        let column = burn_columns(start, w, h, x as nat);
        lemma_burn_columns(start, w, h, x as nat, 0);
        lemma_burn_column(column, w, h, x as nat, y as nat, 0);
        lemma_passed_on(trace[x][y], w, h, x, y);
        assert(trace[x][y + 1] == burn_cell(trace[x][y], w, y * w + x));
    }
    reveal(passed_on);
    assert(trace[w - 1][h as int] == burn_columns(start, w, h, w));
    trace
}

/// A fire that was just lit has two rows of heat values for each row of the terminal but the last,
/// has a color for each value, and is fed.
pub proof fn law_lit_fire_is_ready(size: TermSize)
    requires
        size.valid(),
    ensures
        FireModel::lit(size).shaped(),
        FireModel::lit(size).in_palette(),
        FireModel::lit(size).fed(),
        FireModel::lit(size).pixels.len() == size.width * (size.height - 1) * 2,
{
    let width = size.width as nat;
    let height = ((size.height - 1) * 2) as nat;
    assert(size.width * (size.height - 1) * 2 == width * height) by (nonlinear_arith)
        requires
            width == size.width,
            height == (size.height - 1) * 2,
    ;
}

/// Every color of the palette is one of the terminal's.
pub proof fn law_palette_fits_color_table(heat: u8)
    requires
        heat <= MAX_HEAT,
    ensures
        FIRE_PALETTE@.len() == MAX_HEAT + 1,
        FIRE_PALETTE@[heat as int] < MAX_COLOR,
{
}

impl Fire {
    /// Lights a fire for a terminal of the given size. It fails for a size that cannot be drawn on,
    /// and otherwise only if there is no memory.
    pub fn new(size: TermSize) -> (result: Result<Fire, SetupError>)
        ensures
            size.defect() matches Some(e) ==> result == Err::<Fire, SetupError>(
                SetupError::Size(e),
            ),
            size.valid() ==> match result {
                Ok(fire) => fire@ == FireModel::lit(size),
                Err(e) => e == SetupError::OutOfMemory,
            },
    {
        match size.validate() {
            Err(e) => Err(SetupError::Size(e)),
            Ok(size) => Fire::lit_in(size, reserved_buffer(Fire::capacity(size))),
        }
    }

    /// The number of heat values to reserve room for.
    pub fn capacity(size: TermSize) -> (n: usize)
        requires
            size.valid(),
        ensures
            n == FireModel::lit(size).pixels.len(),
    {
        proof {
            law_lit_fire_is_ready(size);
            crate::size::lemma_valid_bounds(size);
            assert(size.width * (size.height - 1) * 2 == ((size.height - 1) * 2) * size.width)
                by (nonlinear_arith);
        }
        (size.height - 1) * 2 * size.width
    }

    /// Lights a fire in the buffer that was reserved for it, if one was.
    pub fn lit_in(size: TermSize, buffer: Option<Buffer>) -> (result: Result<Fire, SetupError>)
        requires
            size.valid(),
            buffer matches Some(b) ==> b.bytes@.len() == 0 && b.asked@ == FireModel::lit(
                size,
            ).pixels.len(),
        ensures
            buffer is None <==> result is Err,
            match result {
                Ok(fire) => fire@ == FireModel::lit(size),
                Err(e) => e == SetupError::OutOfMemory,
            },
    {
        let mut pixels = match buffer {
            None => {
                return Err(SetupError::OutOfMemory);
            },
            Some(buffer) => buffer.bytes,
        };
        proof {
            law_lit_fire_is_ready(size);
            crate::size::lemma_valid_bounds(size);
            let w = size.width as int;
            let h = (size.height - 1) * 2;
            assert(w * (size.height - 1) * 2 == w * h) by (nonlinear_arith)
                requires
                    h == (size.height - 1) * 2,
            ;
            assert(h * w == w * h) by (nonlinear_arith);
            assert((h - 1) * w == w * h - w) by (nonlinear_arith);
        }
        let width: usize = size.width;
        let height: usize = (size.height - 1) * 2;
        pixels.resize(height * width, 0);
        let mut i: usize = (height - 1) * width;
        while i < pixels.len()
            invariant
                pixels@.len() == width * height,
                (height - 1) * width <= i <= pixels@.len(),
                forall|j: int|
                    0 <= j < pixels@.len() ==> #[trigger] pixels@[j] == (if (height - 1) * width
                        <= j < i {
                        MAX_HEAT
                    } else {
                        0u8
                    }),
            decreases pixels.len() - i,
        {
            pixels.set(i, MAX_HEAT);
            i = i + 1;
        }
        let fire = Fire { width, height, pixels };
        assert(fire@.pixels =~= FireModel::lit(size).pixels);
        Ok(fire)
    }

    /// Lets the fire burn for one frame; see [`burn_cell`] for what each cell does.
    #[verifier::rlimit(50)]
    pub fn advance(&mut self, rng: &mut Rng)
        requires
            old(self)@.rectangular(),
        ensures
            (final(self)@, final(rng).state) == old(self)@.advanced(old(rng).state),
            final(self)@.rectangular(),
    {
        let ghost start = Burn { pixels: self.pixels@, rng: rng.state };
        let ghost w = self.width as nat;
        let ghost h = self.height as nat;
        let mut x: usize = 0;
        while x < self.width
            invariant
                self.width == w,
                self.height == h,
                x <= w,
                start.pixels.len() == w * h,
                self.pixels@.len() == w * h,
                (Burn { pixels: self.pixels@, rng: rng.state }) == burn_columns(
                    start,
                    w,
                    h,
                    x as nat,
                ),
            decreases w - x,
        {
            let ghost column = Burn { pixels: self.pixels@, rng: rng.state };
            let mut y: usize = 0;
            while y < self.height
                invariant
                    self.width == w,
                    self.height == h,
                    x < w,
                    y <= h,
                    column.pixels.len() == w * h,
                    self.pixels@.len() == w * h,
                    (Burn { pixels: self.pixels@, rng: rng.state }) == burn_column(
                        column,
                        w,
                        x as nat,
                        y as nat,
                    ),
                decreases h - y,
            {
                proof {
                    lemma_cell_index(w, h, x as nat, y as nat);
                    assert(self.pixels.len() == w * h);
                }
                let ghost before = Burn { pixels: self.pixels@, rng: rng.state };
                let idx: usize = y * self.width + x;
                let px: u8 = self.pixels[idx];
                if px == 0 && idx >= self.width {
                    self.pixels.set(idx - self.width, 0);
                } else {
                    let spread: usize = rng.next_0_to_3();
                    assert(spread & 1 == spread % 2) by (bit_vector);
                    let dst: usize = if idx > spread {
                        idx - spread + 1
                    } else {
                        idx
                    };
                    if dst >= self.width {
                        self.pixels.set(dst - self.width, px.saturating_sub((spread & 1) as u8));
                    }
                }
                y = y + 1;
                assert((Burn { pixels: self.pixels@, rng: rng.state }) =~= burn_cell(
                    before,
                    w,
                    (y - 1) * w + x,
                ));
            }
            x = x + 1;
        }
    }
}

/// The colors from cold to hot.
pub proof fn law_palette_goes_from_black_to_white()
    ensures
        FIRE_PALETTE@ == seq![
            0usize, 233, 234, 52, 53, 88, 89, 94, 95, 96, 130, 131, 132, 133, 172, 214, 215, 220,
            220, 221, 3, 226, 227, 230, 195, 230,
        ],
{
    assert(FIRE_PALETTE@ =~= seq![
        0usize, 233, 234, 52, 53, 88, 89, 94, 95, 96, 130, 131, 132, 133, 172, 214, 215, 220, 220,
        221, 3, 226, 227, 230, 195, 230,
    ]);
}

} // verus!
