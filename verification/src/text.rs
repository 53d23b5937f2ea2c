use itertools::Itertools;
use rayon::iter::{IndexedParallelIterator, IntoParallelRefIterator, ParallelIterator};
use vstd::prelude::*;

use crate::glyph::{glyph_of, select_moon};
use crate::raster::{lemma_offset_in_range, Raster, RasterView};
use crate::tone::ToneCurve;

verus! {

/// The parts written one after another with `sep` between each two of them:
/// no separator before the first part and none after the last.
pub open spec fn joined(parts: Seq<Seq<char>>, sep: Seq<char>) -> Seq<char>
    decreases parts.len(),
{
    if parts.len() == 0 {
        Seq::empty()
    } else if parts.len() == 1 {
        parts[0]
    } else {
        joined(parts.drop_last(), sep) + sep + parts.last()
    }
}

/// What each string of a sequence holds.
pub open spec fn contents(parts: Seq<String>) -> Seq<Seq<char>> {
    Seq::new(parts.len(), |i: int| parts[i]@)
}

/// The glyph grid of a raster under a tone curve: one row per raster row,
/// one glyph per cell.
pub open spec fn glyph_rows(raster: RasterView, curve: Seq<u8>) -> Seq<Seq<char>> {
    Seq::new(
        raster.height,
        |y: int| Seq::new(raster.width, |x: int| raster.glyph_at(curve, x, y)),
    )
}

/// The text of a raster under a tone curve: the rows of its glyph grid, one
/// per line, with a newline between each two lines.
pub open spec fn rendered(raster: RasterView, curve: Seq<u8>) -> Seq<char> {
    joined(glyph_rows(raster, curve), seq!['\n'])
}

/// Where column `x` of line `y` stands in a text whose lines hold `width`
/// characters each and end in one newline; column `width` is that newline.
pub open spec fn position(width: nat, x: int, y: int) -> int {
    y * (width + 1) + x
}

/// Joining parts of one length `width` with a one-character separator puts
/// character `x` of part `y` at `position(width, x, y)` and the separator
/// after every part but the last.
pub proof fn lemma_joined_uniform(parts: Seq<Seq<char>>, sep: Seq<char>, width: nat)
    requires
        parts.len() > 0,
        sep.len() == 1,
        forall|y: int| 0 <= y < parts.len() ==> (#[trigger] parts[y]).len() == width,
    ensures
        joined(parts, sep).len() == parts.len() * (width + 1) - 1,
        forall|x: int, y: int|
            0 <= y < parts.len() && 0 <= x < width ==> joined(parts, sep)[#[trigger] position(
                width,
                x,
                y,
            )] == parts[y][x],
        forall|y: int|
            0 <= y < parts.len() - 1 ==> joined(parts, sep)[#[trigger] position(
                width,
                width as int,
                y,
            )] == sep[0],
    decreases parts.len(),
{
    let n = parts.len() as int;
    let w = width as int;
    let whole = joined(parts, sep);
    if n == 1 {
        assert(1 * (w + 1) - 1 == w) by (nonlinear_arith);
        assert forall|x: int, y: int| 0 <= y < n && 0 <= x < w implies whole[#[trigger] position(
            width,
            x,
            y,
        )] == parts[y][x] by {
            assert(0 * (w + 1) + x == x) by (nonlinear_arith);
        }
    } else {
        let init = parts.drop_last();
        let head = joined(init, sep);
        lemma_joined_uniform(init, sep, width);
        assert(head.len() == (n - 1) * (w + 1) - 1);
        assert(whole == head + sep + parts.last());
        assert(n * (w + 1) - 1 == (n - 1) * (w + 1) - 1 + 1 + w) by (nonlinear_arith);
        assert forall|x: int, y: int| 0 <= y < n && 0 <= x < w implies whole[#[trigger] position(
            width,
            x,
            y,
        )] == parts[y][x] by {
            if y < n - 1 {
                assert(y * (w + 1) + x < (n - 1) * (w + 1) - 1 && y * (w + 1) + x >= 0)
                    by (nonlinear_arith)
                    requires
                        0 <= y < n - 1,
                        0 <= x < w,
                ;
                assert(head[position(width, x, y)] == init[y][x]);
            } else {
                assert(position(width, x, y) == head.len() + 1 + x);
            }
        }
        assert forall|y: int| 0 <= y < n - 1 implies whole[#[trigger] position(
            width,
            w,
            y,
        )] == sep[0] by {
            if y < n - 2 {
                assert(y * (w + 1) + w < (n - 1) * (w + 1) - 1 && y * (w + 1) + w >= 0)
                    by (nonlinear_arith)
                    requires
                        0 <= y < n - 2,
                        0 <= w,
                ;
                assert(head[position(width, w, y)] == sep[0]);
            } else {
                assert(y * (w + 1) + w == (n - 1) * (w + 1) - 1) by (nonlinear_arith)
                    requires
                        y == n - 2,
                ;
            }
        }
    }
}

/// No moon is a newline, so the newlines of a rendered text are exactly its
/// line breaks.
pub proof fn lemma_glyph_not_newline(curve: Seq<u8>, luma: u8, gradient: u8)
    ensures
        glyph_of(curve, luma, gradient) != '\n',
{
}

/// The text of a raster `width` wide and `height` high has exactly `height`
/// lines of `width` glyphs each: the glyph of cell (`x`, `y`) stands in
/// column `x` of line `y`, a newline follows every line but the last, and
/// nothing else is in the text.
pub proof fn lemma_rendered_shape(raster: RasterView, curve: Seq<u8>)
    requires
        raster.wf(),
    ensures
        rendered(raster, curve).len() == raster.height * (raster.width + 1) - 1,
        forall|x: int, y: int|
            0 <= y < raster.height && 0 <= x < raster.width ==> rendered(
                raster,
                curve,
            )[#[trigger] position(raster.width, x, y)] == raster.glyph_at(curve, x, y),
        forall|y: int|
            0 <= y < raster.height - 1 ==> rendered(raster, curve)[#[trigger] position(
                raster.width,
                raster.width as int,
                y,
            )] == '\n',
{
    lemma_joined_uniform(glyph_rows(raster, curve), seq!['\n'], raster.width);
}

/// Rendering has no hidden state: the same cells under the same curve give
/// the same text, character for character.
pub proof fn lemma_render_deterministic(
    first: RasterView,
    second: RasterView,
    first_curve: Seq<u8>,
    second_curve: Seq<u8>,
)
    requires
        first.width == second.width,
        first.height == second.height,
        first.luma =~= second.luma,
        first.gradient =~= second.gradient,
        first_curve =~= second_curve,
    ensures
        rendered(first, first_curve) == rendered(second, second_curve),
{
}

/// Joins strings through `itertools::Itertools::join`.  Taken on trust from
/// its source: it writes the first item, then for every further item the
/// separator followed by that item, and gives the empty string when there is
/// no item.
#[verifier::external_body]
fn join_with(parts: &Vec<String>, sep: &str) -> (text: String)
    ensures
        text@ == joined(contents(parts@), sep@),
{
    parts.iter().join(sep)
}

/// Picks the glyph of every cell on rayon's thread pool: `par_iter` over both
/// planes, `zip`, `map` with `select_moon`, and `collect` into a vector.
/// Taken on trust from rayon: the vector holds one result per pair of bytes,
/// in the order of the planes, however the work was split among threads.
/// What `select_moon` returns for a pair is proved, not trusted.  Rayon
/// panics where the system grants it no thread at all; like running out of
/// memory, that lies outside this contract.
#[verifier::external_body]
fn select_moons(luma: &Vec<u8>, gradient: &Vec<u8>, curve: &ToneCurve) -> (glyphs: Vec<
    &'static str,
>)
    requires
        luma@.len() == gradient@.len(),
    ensures
        glyphs@.len() == luma@.len(),
        forall|i: int|
            0 <= i < luma@.len() ==> (#[trigger] glyphs@[i])@ == seq![
                glyph_of(curve@, luma@[i], gradient@[i]),
            ],
{
    luma.par_iter().zip(gradient.par_iter()).map(|(l, g)| select_moon(*l, *g, curve)).collect()
}

/// Cuts the glyphs into rows of `width` and writes each row out as one
/// string.
fn build_rows(glyphs: &Vec<&'static str>, width: usize, height: usize) -> (rows: Vec<String>)
    requires
        width > 0,
        glyphs@.len() == width * height,
        forall|i: int| 0 <= i < glyphs@.len() ==> (#[trigger] glyphs@[i])@.len() == 1,
    ensures
        rows@.len() == height,
        forall|y: int|
            0 <= y < height ==> (#[trigger] rows@[y])@ == Seq::new(
                width as nat,
                |x: int| glyphs@[y * width + x]@[0],
            ),
{
    assert(width * height == glyphs.len() <= usize::MAX);
    let mut rows: Vec<String> = Vec::new();
    let mut y: usize = 0;
    while y < height
        invariant
            width > 0,
            y <= height,
            glyphs@.len() == width * height <= usize::MAX,
            forall|i: int| 0 <= i < glyphs@.len() ==> (#[trigger] glyphs@[i])@.len() == 1,
            rows@.len() == y,
            forall|j: int|
                0 <= j < y ==> (#[trigger] rows@[j])@ == Seq::new(
                    width as nat,
                    |x: int| glyphs@[j * width + x]@[0],
                ),
        decreases height - y,
    {
        let mut row = String::new();
        let mut x: usize = 0;
        while x < width
            invariant
                width > 0,
                x <= width,
                y < height,
                glyphs@.len() == width * height <= usize::MAX,
                forall|i: int| 0 <= i < glyphs@.len() ==> (#[trigger] glyphs@[i])@.len() == 1,
                row@ == Seq::new(x as nat, |k: int| glyphs@[y * width + k]@[0]),
            decreases width - x,
        {
            proof {
                lemma_offset_in_range(width as nat, height as nat, x as int, y as int);
                assert(0 <= y * width <= y * width + x) by (nonlinear_arith)
                    requires
                        0 <= y,
                        0 <= width,
                        0 <= x,
                ;
            }
            let glyph = glyphs[y * width + x];
            row.append(glyph);
            x += 1;
            proof {
                assert(glyph@ =~= seq![glyph@[0]]);
                assert(row@ =~= Seq::new(x as nat, |k: int| glyphs@[y * width + k]@[0]));
            }
        }
        rows.push(row);
        y += 1;
    }
    rows
}

/// Renders a raster under a tone curve: every cell becomes its glyph, every
/// row of cells a line, and the lines are joined by single newlines.
pub fn render(raster: &Raster, curve: &ToneCurve) -> (text: String)
    ensures
        text@ == rendered(raster@, curve@),
{
    let dims = raster.dimensions();
    let luma = raster.luma();
    let gradient = raster.gradient();
    let width = dims.width() as usize;
    let height = dims.height() as usize;
    let glyphs = select_moons(luma, gradient, curve);
    let rows = build_rows(&glyphs, width, height);
    proof {
        reveal_strlit("\n");
        assert("\n"@ =~= seq!['\n']);
        assert forall|y: int| 0 <= y < height implies #[trigger] contents(rows@)[y] == glyph_rows(
            raster@,
            curve@,
        )[y] by {
            assert forall|x: int| 0 <= x < width implies glyphs@[y * width + x]@[0]
                == raster@.glyph_at(curve@, x, y) by {
                lemma_offset_in_range(width as nat, height as nat, x, y);
            }
            assert(rows@[y]@ =~= glyph_rows(raster@, curve@)[y]);
        }
        assert(contents(rows@) =~= glyph_rows(raster@, curve@));
    }
    join_with(&rows, "\n")
}

} // verus!
