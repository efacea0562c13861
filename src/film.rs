//! The per-pixel loop of a render: one value per pixel of the image, stored
//! in row-major order, with progress announced as rows finish.

use vstd::prelude::*;
use crate::config::RenderConfig;
use crate::progress::Progress;

verus! {

/// A pixel at `i`, `j` of an image `w` wide, with `i` before row `row`, lies
/// before the first pixel of that row.
proof fn lemma_earlier_row(i: nat, j: nat, row: nat, w: nat)
    requires
        i < row,
        j < w,
    ensures
        i * w + j < row * w,
{
    assert(i * w + j < row * w) by (nonlinear_arith)
        requires
            i < row,
            j < w,
    ;
}

/// Renders the image that `config` describes: calls `pixel(row, col)` for
/// every pixel, row by row and left to right within a row, and returns the
/// values in that order, so that the value of a pixel stands at its
/// `pixel_index`. After each finished row that brings at least five percent
/// more of the image, calls `report` with the percentage done.
pub fn render_film<T, F: Fn(u32, u32) -> T, R: Fn(u32)>(config: &RenderConfig, pixel: F, report: R) -> (r:
    Vec<T>)
    requires
        forall|row: u32, col: u32|
            row < config@.height && col < config@.width ==> #[trigger] pixel.requires((row, col)),
        forall|p: u32| p <= 100 ==> #[trigger] report.requires((p,)),
    ensures
        r.len() == config@.pixel_count(),
        forall|row: u32, col: u32|
            row < config@.height && col < config@.width ==> pixel.ensures(
                (row, col),
                #[trigger] r@[config@.pixel_index(row as nat, col as nat) as int],
            ),
{
    let width = config.width();
    let height = config.height();
    let mut progress = Progress::new(height);
    let mut film: Vec<T> = Vec::new();
    let mut row: u32 = 0;
    while row < height
        invariant
            width == config@.width,
            height == config@.height,
            width > 0,
            row <= height,
            progress@.height == height,
            film.len() == row * width,
            forall|i: u32, j: u32|
                i < config@.height && j < config@.width ==> #[trigger] pixel.requires((i, j)),
            forall|p: u32| p <= 100 ==> #[trigger] report.requires((p,)),
            forall|i: u32, j: u32|
                i < row && j < width ==> pixel.ensures(
                    (i, j),
                    #[trigger] film@[config@.pixel_index(i as nat, j as nat) as int],
                ),
        decreases height - row,
    {
        let mut col: u32 = 0;
        while col < width
            invariant
                width == config@.width,
                height == config@.height,
                row < height,
                col <= width,
                film.len() == row * width + col,
                forall|i: u32, j: u32|
                    i < config@.height && j < config@.width ==> #[trigger] pixel.requires((i, j)),
                forall|i: u32, j: u32|
                    (i < row && j < width) || (i == row && j < col) ==> pixel.ensures(
                        (i, j),
                        #[trigger] film@[config@.pixel_index(i as nat, j as nat) as int],
                    ),
            decreases width - col,
        {
            let v = pixel(row, col);
            let ghost before = film@;
            film.push(v);
            proof {
                assert forall|i: u32, j: u32|
                    (i < row && j < width) || (i == row && j < col + 1) implies pixel.ensures(
                    (i, j),
                    #[trigger] film@[config@.pixel_index(i as nat, j as nat) as int],
                ) by {
                    if i < row {
                        lemma_earlier_row(i as nat, j as nat, row as nat, width as nat);
                        assert(film@[config@.pixel_index(i as nat, j as nat) as int] == before[config@.pixel_index(i as nat, j as nat) as int]);
                    } else if j < col {
                        assert(film@[config@.pixel_index(i as nat, j as nat) as int] == before[config@.pixel_index(i as nat, j as nat) as int]);
                    }
                }
            }
            col = col + 1;
        }
        proof {
            assert(row * width + width == (row + 1) * width) by (nonlinear_arith);
        }
        match progress.row_done(row) {
            Some(p) => report(p),
            None => {},
        }
        row = row + 1;
    }
    proof {
        assert(height * width == width * height) by (nonlinear_arith);
    }
    film
}

} // verus!
