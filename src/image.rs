use vstd::prelude::*;

use crate::pixel::Pixel;

verus! {

/// The decimal digits of `n`, as ASCII bytes, without leading zeros.
pub open spec fn decimal(n: nat) -> Seq<u8>
    decreases n,
{
    if n < 10 {
        seq![(48 + n) as u8]
    } else {
        decimal(n / 10) + seq![(48 + n % 10) as u8]
    }
}

/// One line of the image body: the three channels, separated by spaces.
pub open spec fn pixel_line(p: Pixel) -> Seq<u8> {
    decimal(p.r as nat) + seq![32u8] + decimal(p.g as nat) + seq![32u8] + decimal(p.b as nat)
        + seq![10u8]
}

/// The lines of a row of pixels, left to right.
pub open spec fn row_text(row: Seq<Pixel>) -> Seq<u8>
    decreases row.len(),
{
    if row.len() == 0 {
        seq![]
    } else {
        row_text(row.drop_last()) + pixel_line(row.last())
    }
}

/// The lines of all rows, top to bottom.
pub open spec fn rows_text(rows: Seq<Seq<Pixel>>) -> Seq<u8>
    decreases rows.len(),
{
    if rows.len() == 0 {
        seq![]
    } else {
        rows_text(rows.drop_last()) + row_text(rows.last())
    }
}

/// The ASCII "P3" header: `P3\n<width> <height>\n255\n`.
pub open spec fn ppm_header(width: nat, height: nat) -> Seq<u8> {
    seq![80u8, 51u8, 10u8] + decimal(width) + seq![32u8] + decimal(height) + seq![
        10u8,
        50u8,
        53u8,
        53u8,
        10u8,
    ]
}

/// The whole ASCII PPM text of a grid of pixels.
pub open spec fn ppm_text(width: nat, height: nat, rows: Seq<Seq<Pixel>>) -> Seq<u8> {
    ppm_header(width, height) + rows_text(rows)
}

/// Appends the decimal digits of `n`.
fn push_decimal(out: &mut Vec<u8>, n: usize)
    ensures
        final(out)@ == old(out)@ + decimal(n as nat),
    decreases n,
{
    if n >= 10 {
        push_decimal(out, n / 10);
    }
    let digit: usize = n % 10;
    out.push((48 + digit) as u8);
    assert(final(out)@ =~= old(out)@ + decimal(n as nat));
}

/// A grid of pixels, `height` rows of `width` pixels, and the file name it is meant for.
pub struct Image {
    pub canvas: Vec<Vec<Pixel>>,
    pub filename: String,
    pub width: usize,
    pub height: usize,
}

impl Image {
    /// The rows of the canvas, top to bottom.
    pub open spec fn rows(&self) -> Seq<Seq<Pixel>> {
        self.canvas@.map_values(|row: Vec<Pixel>| row@)
    }

    /// The canvas holds `height` rows of `width` pixels each.
    pub open spec fn wf(&self) -> bool {
        &&& self.canvas@.len() == self.height
        &&& forall|y: int| 0 <= y < self.height ==> #[trigger] self.canvas@[y]@.len() == self.width
    }

    /// A black image of the given size.
    pub fn new(filename: &str, width: usize, height: usize) -> (img: Image)
        ensures
            img.wf(),
            img.filename@ == filename@,
            img.width == width,
            img.height == height,
            forall|y: int, x: int|
                0 <= y < height && 0 <= x < width ==> #[trigger] img.canvas@[y]@[x] == (Pixel { r: 0, g: 0, b: 0 }),
    {
        let mut canvas: Vec<Vec<Pixel>> = Vec::new();
        let mut y: usize = 0;
        while y < height
            invariant
                y <= height,
                canvas@.len() == y,
                forall|k: int| 0 <= k < y ==> #[trigger] canvas@[k]@.len() == width,
                forall|k: int, x: int|
                    0 <= k < y && 0 <= x < width ==> #[trigger] canvas@[k]@[x] == (Pixel { r: 0, g: 0, b: 0 }),
            decreases height - y,
        {
            let mut row: Vec<Pixel> = Vec::new();
            let mut x: usize = 0;
            while x < width
                invariant
                    x <= width,
                    row@.len() == x,
                    forall|k: int| 0 <= k < x ==> #[trigger] row@[k] == (Pixel { r: 0, g: 0, b: 0 }),
                decreases width - x,
            {
                row.push(Pixel::black());
                x = x + 1;
            }
            canvas.push(row);
            y = y + 1;
        }
        Image { canvas, filename: filename.to_owned(), width, height }
    }

    /// Sets the pixel in column `x` of row `y` (row 0 is the top).
    pub fn set(&mut self, x: usize, y: usize, pixel: Pixel)
        requires
            old(self).wf(),
            x < old(self).width,
            y < old(self).height,
        ensures
            final(self).wf(),
            final(self).width == old(self).width,
            final(self).height == old(self).height,
            final(self).filename == old(self).filename,
            final(self).rows() == old(self).rows().update(
                y as int,
                old(self).rows()[y as int].update(x as int, pixel),
            ),
    {
        let mut row: Vec<Pixel> = Vec::new();
        std::mem::swap(&mut row, &mut self.canvas[y]);
        row.set(x, pixel);
        std::mem::swap(&mut row, &mut self.canvas[y]);
        proof {
            assert(self.rows() =~= old(self).rows().update(
                y as int,
                old(self).rows()[y as int].update(x as int, pixel),
            ));
        }
    }

    /// The pixel in column `x` of row `y`.
    pub fn get(&self, x: usize, y: usize) -> (p: Pixel)
        requires
            self.wf(),
            x < self.width,
            y < self.height,
        ensures
            p == self.rows()[y as int][x as int],
    {
        self.canvas[y][x]
    }

    /// The image as ASCII PPM ("P3") text: the header, then one line of three
    /// channels per pixel, rows top to bottom, left to right within a row.
    pub fn to_ppm(&self) -> (out: Vec<u8>)
        requires
            self.wf(),
        ensures
            out@ == ppm_text(self.width as nat, self.height as nat, self.rows()),
    {
        let mut out: Vec<u8> = Vec::new();
        out.push(80u8);
        out.push(51u8);
        out.push(10u8);
        push_decimal(&mut out, self.width);
        out.push(32u8);
        push_decimal(&mut out, self.height);
        out.push(10u8);
        out.push(50u8);
        out.push(53u8);
        out.push(53u8);
        out.push(10u8);
        let ghost header = out@;
        assert(header =~= ppm_header(self.width as nat, self.height as nat));
        let mut y: usize = 0;
        while y < self.canvas.len()
            invariant
                self.wf(),
                y <= self.canvas@.len(),
                header == ppm_header(self.width as nat, self.height as nat),
                out@ == header + rows_text(self.rows().take(y as int)),
            decreases self.canvas@.len() - y,
        {
            let row: &Vec<Pixel> = &self.canvas[y];
            let ghost before = out@;
            let mut x: usize = 0;
            while x < row.len()
                invariant
                    x <= row@.len(),
                    out@ == before + row_text(row@.take(x as int)),
                decreases row@.len() - x,
            {
                let p: Pixel = row[x];
                let ghost start = out@;
                push_decimal(&mut out, p.r as usize);
                out.push(32u8);
                push_decimal(&mut out, p.g as usize);
                out.push(32u8);
                push_decimal(&mut out, p.b as usize);
                out.push(10u8);
                proof {
                    assert(out@ =~= start + pixel_line(p));
                    assert(row@.take(x + 1).drop_last() =~= row@.take(x as int));
                    assert(out@ =~= before + row_text(row@.take(x + 1)));
                }
                x = x + 1;
            }
            proof {
                assert(row@.take(x as int) =~= row@);
                assert(self.rows().take(y + 1).drop_last() =~= self.rows().take(y as int));
                assert(self.rows()[y as int] == row@);
                assert(out@ =~= header + rows_text(self.rows().take(y + 1)));
            }
            y = y + 1;
        }
        proof {
            assert(self.rows().take(y as int) =~= self.rows());
        }
        out
    }
}

} // verus!
