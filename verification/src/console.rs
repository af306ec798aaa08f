//! The display drawn as text, for running without the hardware.

use vstd::prelude::*;

use crate::frame::Image;
use crate::panels::{MAJOR, MINOR};

verus! {

/// Top and bottom edge of the drawing.
pub const CONSOLE_EDGE: &'static str =
    "+------------------------------------------------------------+\n";

/// The character that stands for a pixel: nothing up to a faint glow, else a
/// block.
pub open spec fn console_cell(level: u8) -> char {
    if level <= 5 {
        ' '
    } else {
        '\u{a6}'
    }
}

/// One row of the drawing, each pixel two characters wide.
pub open spec fn console_row(image: Seq<u8>, y: int) -> Seq<char> {
    seq!['|'] + Seq::new(60, |k: int| console_cell(image[y * MAJOR + k / 2])) + "|\n"@
}

/// The first `n` rows of the drawing.
pub open spec fn console_rows(image: Seq<u8>, n: nat) -> Seq<char>
    decreases n,
{
    if n == 0 {
        Seq::empty()
    } else {
        console_rows(image, (n - 1) as nat) + console_row(image, n - 1)
    }
}

/// Draw an image between two edges.
pub fn console_text(image: &Image) -> (out: String)
    ensures
        out@ == "\n"@ + CONSOLE_EDGE@ + console_rows(image@, 10) + CONSOLE_EDGE@,
{
    let mut out = String::new();
    out.append("\n");
    out.append(CONSOLE_EDGE);
    let ghost head = "\n"@ + CONSOLE_EDGE@;
    assert(out@ =~= head + console_rows(image@, 0));
    let mut y: usize = 0;
    while y < MINOR
        invariant
            y <= MINOR,
            out@ == head + console_rows(image@, y as nat),
        decreases MINOR - y,
    {
        let ghost before = out@;
        let ghost cells = Seq::new(60, |k: int| console_cell(image@[y * MAJOR + k / 2]));
        out.push('|');
        assert(out@ =~= before + seq!['|'] + cells.take(0));
        let mut x: usize = 0;
        while x < MAJOR
            invariant
                y < MINOR,
                x <= MAJOR,
                cells == Seq::new(60, |k: int| console_cell(image@[y * MAJOR + k / 2])),
                out@ == before + seq!['|'] + cells.take(2 * x),
            decreases MAJOR - x,
        {
            let level: u8 = image[y * MAJOR + x];
            let c: char = if level <= 5 {
                ' '
            } else {
                '\u{a6}'
            };
            out.push(c);
            out.push(c);
            assert(cells.take(2 * x + 2) =~= cells.take(2 * x).push(c).push(c));
            x = x + 1;
            assert(out@ =~= before + seq!['|'] + cells.take(2 * x));
        }
        out.append("|\n");
        assert(cells.take(60) =~= cells);
        assert(out@ =~= head + (console_rows(image@, y as nat) + console_row(image@, y as int)));
        y = y + 1;
    }
    out.append(CONSOLE_EDGE);
    out
}

/// Where a pixel is in the drawing, and what it looks like there: every row of
/// the image is a line between two bars, every pixel two characters wide, a
/// block if it is brighter than five and blank otherwise.
pub proof fn every_pixel_is_drawn(image: Seq<u8>, x: int, y: int, half: int)
    requires
        0 <= x < 30,
        0 <= y < 10,
        0 <= half < 2,
    ensures
        console_rows(image, 10).len() == 630,
        console_rows(image, 10)[63 * y + 1 + 2 * x + half] == (if image[y * 30 + x] > 5 {
            '\u{a6}'
        } else {
            ' '
        }),
        console_rows(image, 10)[63 * y] == '|',
        console_rows(image, 10)[63 * y + 61] == '|',
        console_rows(image, 10)[63 * y + 62] == '\n',
{
    rows_are_in_order(image, 10, y);
    reveal_strlit("|\n");
    assert((2 * x + half) / 2 == x);
    let row = console_row(image, y);
    let at = 63 * y;
    assert(console_rows(image, 10).subrange(at, at + 63)[1 + 2 * x + half] == row[1 + 2 * x + half]);
    assert(console_rows(image, 10).subrange(at, at + 63)[0] == row[0]);
    assert(console_rows(image, 10).subrange(at, at + 63)[61] == row[61]);
    assert(console_rows(image, 10).subrange(at, at + 63)[62] == row[62]);
}

proof fn rows_are_in_order(image: Seq<u8>, n: nat, y: int)
    ensures
        console_rows(image, n).len() == 63 * n,
        0 <= y < n ==> console_rows(image, n).subrange(63 * y, 63 * y + 63) == console_row(
            image,
            y,
        ),
    decreases n,
{
    reveal_strlit("|\n");
    if n > 0 {
        let front = console_rows(image, (n - 1) as nat);
        let last = console_row(image, n - 1);
        rows_are_in_order(image, (n - 1) as nat, y);
        assert(last.len() == 63);
        if y == n - 1 {
            assert((front + last).subrange(63 * y, 63 * y + 63) =~= last);
        } else if 0 <= y < n - 1 {
            assert((front + last).subrange(63 * y, 63 * y + 63) =~= front.subrange(
                63 * y,
                63 * y + 63,
            ));
        }
    }
}

} // verus!
