use vstd::prelude::*;
use vstd::string::*;
use vstd::utf8::encode_utf8;
use crate::colors::Pixel;
use crate::text::{decimal, decimal_text, triple, triple_text};

verus! {

/// What can be written out as text.
pub trait PrettyPrint {
    /// The text that stands for the value.
    spec fn printed(&self) -> Seq<char>;

    fn pp(&self) -> (s: String)
        ensures
            s@ == self.printed(),
    ;
}

/// The two formats of a portable pixmap: `P3` holds its pixels as decimal text,
/// `P6` as raw bytes.
#[derive(Debug, Clone, Copy, PartialEq, Eq, Structural)]
pub enum PpmFormat {
    P3,
    P6,
}

impl PrettyPrint for PpmFormat {
    /// The magic number that opens a file in the format.
    open spec fn printed(&self) -> Seq<char> {
        match self {
            PpmFormat::P3 => seq!['P', '3'],
            PpmFormat::P6 => seq!['P', '6'],
        }
    }

    fn pp(&self) -> (s: String) {
        proof {
            reveal_strlit("P3");
            reveal_strlit("P6");
        }
        let s = match self {
            PpmFormat::P3 => String::from_str("P3"),
            PpmFormat::P6 => String::from_str("P6"),
        };
        assert(s@ =~= self.printed());
        s
    }
}

/// What can be laid out as bytes.
pub trait Serialize {
    /// The bytes that stand for the value.
    spec fn bytes(&self) -> Seq<u8>;

    fn to_bytes(&self) -> (b: Vec<u8>)
        ensures
            b@ == self.bytes(),
    ;
}

/// A colour of three channels of eight bits each.
#[derive(Debug, Clone, Copy, PartialEq, Eq, Structural)]
pub struct Color {
    r: u8,
    g: u8,
    b: u8,
}

impl Color {
    /// The three channels: red, green, blue.
    pub closed spec fn channels(self) -> (u8, u8, u8) {
        (self.r, self.g, self.b)
    }

    pub fn red() -> (c: Self)
        ensures
            c.channels() == (255u8, 0u8, 0u8),
    {
        Color { r: 255, g: 0, b: 0 }
    }

    pub fn green() -> (c: Self)
        ensures
            c.channels() == (0u8, 255u8, 0u8),
    {
        Color { r: 0, g: 255, b: 0 }
    }

    pub fn blue() -> (c: Self)
        ensures
            c.channels() == (0u8, 0u8, 255u8),
    {
        Color { r: 0, g: 0, b: 255 }
    }

    pub fn black() -> (c: Self)
        ensures
            c.channels() == (0u8, 0u8, 0u8),
    {
        Color { r: 0, g: 0, b: 0 }
    }

    pub fn white() -> (c: Self)
        ensures
            c.channels() == (255u8, 255u8, 255u8),
    {
        Color { r: 255, g: 255, b: 255 }
    }

    /// The colour of the pixel `p`.
    pub fn of_pixel(p: Pixel) -> (c: Self)
        ensures
            c.channels() == (p.r, p.g, p.b),
    {
        Color { r: p.r, g: p.g, b: p.b }
    }

    /// The channels, computed.
    pub fn rgb(&self) -> (c: (u8, u8, u8))
        ensures
            c == self.channels(),
    {
        (self.r, self.g, self.b)
    }
}

impl PrettyPrint for Color {
    /// The three channels in decimal, a blank between them.
    open spec fn printed(&self) -> Seq<char> {
        triple_text(self.channels().0, self.channels().1, self.channels().2)
    }

    fn pp(&self) -> (s: String) {
        triple(self.r, self.g, self.b)
    }
}

/// The cells of one row as text: each cell's text with a blank behind it.
pub open spec fn cells_text<T: PrettyPrint>(cells: Seq<T>) -> Seq<char>
    decreases cells.len(),
{
    if cells.len() == 0 {
        Seq::empty()
    } else {
        cells_text(cells.drop_last()) + cells.last().printed() + seq![' ']
    }
}

/// The first `rows` rows of a grid of `cols` columns as text: each row's
/// cells with a line break behind them.
pub open spec fn rows_text<T: PrettyPrint>(data: Seq<T>, rows: nat, cols: nat) -> Seq<char>
    decreases rows,
{
    if rows == 0 {
        Seq::empty()
    } else {
        rows_text(data, (rows - 1) as nat, cols) + cells_text(
            data.subrange((rows - 1) * cols, (rows * cols) as int),
        ) + seq!['\n']
    }
}

/// The channels of `cells`, cell by cell: red, green, blue.
pub open spec fn channel_bytes(cells: Seq<Color>) -> Seq<u8>
    decreases cells.len(),
{
    if cells.len() == 0 {
        Seq::empty()
    } else {
        channel_bytes(cells.drop_last()) + seq![
            cells.last().channels().0,
            cells.last().channels().1,
            cells.last().channels().2,
        ]
    }
}

/// A grid of `ROWS` rows and `COLS` columns, kept row by row.
pub struct HeapMatrix<T: Copy + PrettyPrint, const ROWS: usize, const COLS: usize> {
    data: Vec<T>,
}

impl<T: Copy + PrettyPrint, const ROWS: usize, const COLS: usize> View for HeapMatrix<T, ROWS, COLS> {
    type V = Seq<T>;

    /// The cells, row by row.
    closed spec fn view(&self) -> Seq<T> {
        self.data@
    }
}

impl<T: Copy + PrettyPrint, const ROWS: usize, const COLS: usize> HeapMatrix<T, ROWS, COLS> {
    #[verifier::type_invariant]
    spec fn filled(&self) -> bool {
        self.data@.len() == ROWS * COLS
    }

    /// The grid that holds `value` in every cell.
    pub fn new(value: T) -> (m: Self)
        requires
            ROWS * COLS <= usize::MAX,
        ensures
            m@.len() == ROWS * COLS,
            forall|i: int| 0 <= i < ROWS * COLS ==> m@[i] == value,
    {
        let n: usize = ROWS * COLS;
        let mut data: Vec<T> = Vec::new();
        let mut i: usize = 0;
        while i < n
            invariant
                i <= n,
                n == ROWS * COLS,
                data@.len() == i,
                forall|j: int| 0 <= j < i ==> data@[j] == value,
            decreases n - i,
        {
            data.push(value);
            i += 1;
        }
        HeapMatrix { data }
    }

    /// How many cells the grid has, which is `ROWS * COLS`.
    pub fn size(&self) -> (n: usize)
        ensures
            n == ROWS * COLS,
            n == self@.len(),
    {
        proof {
            use_type_invariant(self);
        }
        self.data.len()
    }

    /// Puts `value` into the cell in row `row` and column `col`.
    pub fn set(&mut self, value: T, row: usize, col: usize)
        requires
            row * COLS + col < ROWS * COLS,
        ensures
            final(self)@ == old(self)@.update(row * COLS + col, value),
    {
        let cells: usize = self.data.len();
        proof {
            use_type_invariant(&*self);
            lemma_row_start(row as int, row as int, COLS as int);
            assert(row * COLS + col < cells);
        }
        let index: usize = row * COLS + col;
        self.data[index] = value;
    }

    /// The cell in row `row` and column `col`.
    pub fn get(&self, row: usize, col: usize) -> (cell: &T)
        requires
            row * COLS + col < ROWS * COLS,
        ensures
            *cell == self@[row * COLS + col],
    {
        let cells: usize = self.data.len();
        proof {
            use_type_invariant(self);
            lemma_row_start(row as int, row as int, COLS as int);
            assert(row * COLS + col < cells);
        }
        &self.data[row * COLS + col]
    }
}

/// Row `row` of a grid of `rows` rows and `cols` columns starts at a place
/// inside the grid's cells, or at their end.
pub proof fn lemma_row_start(row: int, rows: int, cols: int)
    requires
        0 <= row <= rows,
        0 <= cols,
    ensures
        0 <= row * cols <= rows * cols,
{
    assert(0 <= row * cols <= rows * cols) by (nonlinear_arith)
        requires
            0 <= row <= rows,
            0 <= cols,
    ;
}

/// Cell `(row, col)` of a grid of `rows` rows and `cols` columns lies inside
/// the grid, at place `row * cols + col` of its cells.
pub proof fn lemma_cell_inside(row: int, col: int, rows: int, cols: int)
    requires
        0 <= row < rows,
        0 <= col < cols,
    ensures
        0 <= row * cols,
        row * cols + col < rows * cols,
        (row + 1) * cols == row * cols + cols,
        (row + 1) * cols <= rows * cols,
{
    assert(0 <= row * cols) by (nonlinear_arith)
        requires
            0 <= row,
            0 <= cols,
    ;
    assert((row + 1) * cols == row * cols + cols) by (nonlinear_arith);
    assert((row + 1) * cols <= rows * cols) by (nonlinear_arith)
        requires
            row + 1 <= rows,
            0 <= cols,
    ;
}

impl<T: Copy + PrettyPrint, const ROWS: usize, const COLS: usize> PrettyPrint for HeapMatrix<
    T,
    ROWS,
    COLS,
> {
    /// Row by row: each cell's text with a blank behind it, and a line break
    /// behind each row.
    open spec fn printed(&self) -> Seq<char> {
        rows_text(self@, ROWS as nat, COLS as nat)
    }

    fn pp(&self) -> (s: String) {
        proof {
            reveal_strlit(" ");
            reveal_strlit("\n");
        }
        let _ = self.size();
        let mut sb = String::new();
        let mut row: usize = 0;
        while row < ROWS
            invariant
                row <= ROWS,
                self@.len() == ROWS * COLS,
                sb@ == rows_text(self@, row as nat, COLS as nat),
                " "@ == seq![' '],
                "\n"@ == seq!['\n'],
            decreases ROWS - row,
        {
            proof {
                lemma_row_start(row as int, ROWS as int, COLS as int);
                assert(self@.subrange(row * COLS, row * COLS + 0) =~= Seq::<T>::empty());
            }
            let mut col: usize = 0;
            while col < COLS
                invariant
                    row < ROWS,
                    col <= COLS,
                    self@.len() == ROWS * COLS,
                    sb@ == rows_text(self@, row as nat, COLS as nat) + cells_text(
                        self@.subrange(row * COLS, row * COLS + col),
                    ),
                    " "@ == seq![' '],
                decreases COLS - col,
            {
                proof {
                    lemma_cell_inside(row as int, col as int, ROWS as int, COLS as int);
                }
                let cell = self.get(row, col).pp();
                sb.append(cell.as_str());
                sb.append(" ");
                proof {
                    let from: int = row * COLS;
                    let longer = self@.subrange(from, from + col + 1);
                    assert(longer.drop_last() =~= self@.subrange(from, from + col));
                    assert(longer.last() == self@[from + col]);
                    assert(sb@ =~= rows_text(self@, row as nat, COLS as nat) + cells_text(longer));
                }
                col += 1;
            }
            sb.append("\n");
            proof {
                assert((row + 1) * COLS == row * COLS + COLS) by (nonlinear_arith);
                assert(sb@ =~= rows_text(self@, (row + 1) as nat, COLS as nat));
            }
            row += 1;
        }
        sb
    }
}

/// An image of `ROWS` rows and `COLS` columns.
pub struct Canvas<const ROWS: usize, const COLS: usize> {
    pixels: HeapMatrix<Color, ROWS, COLS>,
}

impl<const ROWS: usize, const COLS: usize> View for Canvas<ROWS, COLS> {
    type V = Seq<Color>;

    /// The pixels, row by row.
    closed spec fn view(&self) -> Seq<Color> {
        self.pixels@
    }
}

/// The head of a portable pixmap: the magic number, the width and the
/// height, and the level of full light, each on a line of its own but the
/// width and the height, which share one. No line break ends it.
pub open spec fn header_text(format: PpmFormat, cols: nat, rows: nat, max_color: u8) -> Seq<char> {
    format.printed() + seq!['\n'] + decimal_text(cols) + seq![' '] + decimal_text(rows) + seq!['\n']
        + decimal_text(max_color as nat)
}

impl<const ROWS: usize, const COLS: usize> Canvas<ROWS, COLS> {
    /// The image that is black all over.
    pub fn new() -> (c: Self)
        requires
            ROWS * COLS <= usize::MAX,
        ensures
            c@.len() == ROWS * COLS,
            forall|i: int| 0 <= i < ROWS * COLS ==> (#[trigger] c@[i]).channels() == (0u8, 0u8, 0u8),
    {
        Canvas { pixels: HeapMatrix::new(Color::black()) }
    }

    /// Gives the pixel in row `row` and column `col` the colour `value`, and
    /// hands the canvas back for the next pixel.
    pub fn set(&mut self, value: Color, row: usize, col: usize) -> (canvas: &mut Self)
        requires
            row * COLS + col < ROWS * COLS,
        ensures
            canvas@ == old(self)@.update(row * COLS + col, value),
            *final(self) == *final(canvas),
    {
        self.pixels.set(value, row, col);
        self
    }

    /// The colour of the pixel in row `row` and column `col`.
    pub fn get(&self, row: usize, col: usize) -> (c: Color)
        requires
            row * COLS + col < ROWS * COLS,
        ensures
            c == self@[row * COLS + col],
    {
        *self.pixels.get(row, col)
    }

    /// The pixels as text, as a pixmap in the format `P3` holds them.
    pub fn pixels_text(&self) -> (s: String)
        ensures
            s@ == rows_text(self@, ROWS as nat, COLS as nat),
    {
        self.pixels.pp()
    }

    /// The head of the image as a portable pixmap in the format `format`, in which
    /// full light is `max_color`.
    pub fn header(format: PpmFormat, max_color: u8) -> (s: String)
        ensures
            s@ == header_text(format, COLS as nat, ROWS as nat, max_color),
    {
        proof {
            reveal_strlit(" ");
            reveal_strlit("\n");
        }
        let mut s = format.pp();
        s.append("\n");
        let cols = decimal(COLS);
        s.append(cols.as_str());
        s.append(" ");
        let rows = decimal(ROWS);
        s.append(rows.as_str());
        s.append("\n");
        let max = decimal(max_color as usize);
        s.append(max.as_str());
        assert(" "@ =~= seq![' ']);
        assert("\n"@ =~= seq!['\n']);
        assert(s@ =~= header_text(format, COLS as nat, ROWS as nat, max_color));
        s
    }
}

impl<const ROWS: usize, const COLS: usize> Canvas<ROWS, COLS> {
    /// The image as a portable pixmap file in the format `format`, in which full
    /// light is `max_color`: the head and a line break, in UTF-8, and then
    /// for `P3` the pixels as text and a line break, in UTF-8, and for `P6`
    /// the channels of the pixels as they are.
    pub open spec fn ppm_image(&self, format: PpmFormat, max_color: u8) -> Seq<u8> {
        encode_utf8(header_text(format, COLS as nat, ROWS as nat, max_color) + seq!['\n']) + match format {
            PpmFormat::P3 => encode_utf8(rows_text(self@, ROWS as nat, COLS as nat) + seq!['\n']),
            PpmFormat::P6 => channel_bytes(self@),
        }
    }

    /// The bytes of the image as a portable pixmap file.
    pub fn ppm(&self, format: PpmFormat, max_color: u8) -> (file: Vec<u8>)
        ensures
            file@ == self.ppm_image(format, max_color),
    {
        proof {
            reveal_strlit("\n");
        }
        assert("\n"@ =~= seq!['\n']);
        let mut head = Self::header(format, max_color);
        head.append("\n");
        let mut file = head.as_str().as_bytes_vec();
        let mut body = match format {
            PpmFormat::P3 => {
                let mut text = self.pixels_text();
                text.append("\n");
                text.as_str().as_bytes_vec()
            },
            PpmFormat::P6 => self.to_bytes(),
        };
        file.append(&mut body);
        file
    }
}

impl<const ROWS: usize, const COLS: usize> Serialize for Canvas<ROWS, COLS> {
    /// The channels of all pixels, row by row.
    open spec fn bytes(&self) -> Seq<u8> {
        channel_bytes(self@)
    }

    fn to_bytes(&self) -> (b: Vec<u8>) {
        let _ = self.pixels.size();
        let mut buffer: Vec<u8> = Vec::new();
        let mut row: usize = 0;
        proof {
            assert(0 * COLS == 0) by (nonlinear_arith);
        }
        while row < ROWS
            invariant
                row <= ROWS,
                self@.len() == ROWS * COLS,
                buffer@ == channel_bytes(self@.subrange(0, row * COLS)),
            decreases ROWS - row,
        {
            let mut col: usize = 0;
            while col < COLS
                invariant
                    row < ROWS,
                    col <= COLS,
                    self@.len() == ROWS * COLS,
                    buffer@ == channel_bytes(self@.subrange(0, row * COLS + col)),
                decreases COLS - col,
            {
                proof {
                    lemma_cell_inside(row as int, col as int, ROWS as int, COLS as int);
                }
                let pixel = self.pixels.get(row, col);
                buffer.push(pixel.r);
                buffer.push(pixel.g);
                buffer.push(pixel.b);
                proof {
                    let at: int = row * COLS + col;
                    let longer = self@.subrange(0, at + 1);
                    assert(longer.drop_last() =~= self@.subrange(0, at));
                    assert(longer.last() == self@[at]);
                    assert(buffer@ =~= channel_bytes(longer));
                }
                col += 1;
            }
            proof {
                assert((row + 1) * COLS == row * COLS + COLS) by (nonlinear_arith);
            }
            row += 1;
        }
        proof {
            assert(self@.subrange(0, ROWS * COLS) =~= self@);
        }
        buffer
    }
}

} // verus!
