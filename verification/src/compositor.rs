use vstd::prelude::*;
use vstd::arithmetic::div_mod::{lemma_fundamental_div_mod, lemma_fundamental_div_mod_converse};
use crate::types::PixelCoords;

verus! {

/// The rows of a sprite as sequences of packed colours. Rows may differ in
/// length: a row paints only the cells that it holds.
pub open spec fn sprite_rows(raster: &Vec<Vec<u32>>) -> Seq<Seq<u32>> {
    Seq::new(raster@.len(), |dy: int| raster@[dy]@)
}

/// Whether the sprite holds a cell in column `dx` of row `dy`.
pub open spec fn has_cell(rows: Seq<Seq<u32>>, dx: int, dy: int) -> bool {
    0 <= dy < rows.len() && 0 <= dx < rows[dy].len()
}

/// Colour of the viewport pixel `(x, y)` once the sprite is anchored at
/// `anchor`: the sprite's cell where it holds one, else what was there.
pub open spec fn painted_pixel(
    before: u32,
    rows: Seq<Seq<u32>>,
    anchor: PixelCoords,
    x: int,
    y: int,
) -> u32 {
    if has_cell(rows, x - anchor.x, y - anchor.y) {
        rows[y - anchor.y][x - anchor.x]
    } else {
        before
    }
}

/// The buffer after a sprite has been copied onto it. The buffer holds the
/// viewport row by row, pixel `(x, y)` at index `y * width + x`; what lies
/// behind the viewport's last pixel is kept.
pub open spec fn composited(
    before: Seq<u32>,
    width: int,
    height: int,
    rows: Seq<Seq<u32>>,
    anchor: PixelCoords,
) -> Seq<u32> {
    Seq::new(
        before.len(),
        |i: int|
            if i < width * height {
                painted_pixel(before[i], rows, anchor, i % width, i / width)
            } else {
                before[i]
            },
    )
}

/// A sprite and the pixel at which its top-left corner is anchored.
pub struct Sprite {
    pub rows: Seq<Seq<u32>>,
    pub anchor: PixelCoords,
}

/// The buffer after the sprites have been copied onto it one after the
/// other, so that a later sprite covers an earlier one.
pub open spec fn rendered(
    before: Seq<u32>,
    width: int,
    height: int,
    sprites: Seq<Sprite>,
) -> Seq<u32>
    decreases sprites.len(),
{
    if sprites.len() == 0 {
        before
    } else {
        composited(
            rendered(before, width, height, sprites.drop_last()),
            width,
            height,
            sprites.last().rows,
            sprites.last().anchor,
        )
    }
}

/// Copying sprites onto a buffer keeps its length.
pub proof fn lemma_rendered_len(before: Seq<u32>, width: int, height: int, sprites: Seq<Sprite>)
    ensures
        rendered(before, width, height, sprites).len() == before.len(),
    decreases sprites.len(),
{
    if sprites.len() > 0 {
        lemma_rendered_len(before, width, height, sprites.drop_last());
    }
}

/// The buffer while the sprite is being copied: the cells before `(dx, dy)`,
/// row by row, are painted, the others are not yet.
spec fn composited_upto(
    before: Seq<u32>,
    width: int,
    height: int,
    rows: Seq<Seq<u32>>,
    anchor: PixelCoords,
    dx: int,
    dy: int,
) -> Seq<u32> {
    Seq::new(
        before.len(),
        |i: int|
            {
                let cx = i % width - anchor.x;
                let cy = i / width - anchor.y;
                if i < width * height && has_cell(rows, cx, cy) && (cy < dy || (cy == dy && cx
                    < dx)) {
                    rows[cy][cx]
                } else {
                    before[i]
                }
            },
    )
}

/// A buffer index inside the viewport names one pixel of it.
proof fn lemma_index_to_pixel(i: int, width: int, height: int)
    requires
        0 <= i < width * height,
        0 <= width,
        0 <= height,
    ensures
        0 <= i % width < width,
        0 <= i / width < height,
        i == (i / width) * width + i % width,
{
    assert(width > 0) by (nonlinear_arith)
        requires
            0 <= i < width * height,
            0 <= width,
    ;
    lemma_fundamental_div_mod(i, width);
    let q = i / width;
    let r = i % width;
    assert(i == width * q + r);
    assert(0 <= r < width);
    assert(0 <= q < height) by (nonlinear_arith)
        requires
            i == width * q + r,
            0 <= r < width,
            0 <= i < width * height,
            0 < width,
    ;
    assert(q * width == width * q) by (nonlinear_arith);
}

/// A pixel of the viewport has one buffer index, inside the viewport's part.
proof fn lemma_pixel_to_index(x: int, y: int, width: int, height: int)
    requires
        0 <= x < width,
        0 <= y < height,
    ensures
        0 <= y * width + x < width * height,
        (y * width + x) % width == x,
        (y * width + x) / width == y,
{
    assert(0 <= y * width && y * width + width <= width * height) by (nonlinear_arith)
        requires
            0 <= x < width,
            0 <= y < height,
    ;
    lemma_fundamental_div_mod_converse(y * width + x, width, y, x);
}

/// Clipping: a sprite that reaches over the edge of the viewport paints
/// every pixel of the viewport that lies under one of its cells with that
/// cell, and changes nothing else: no other pixel of the viewport, nothing
/// behind the viewport's part of the buffer, and not the buffer's length.
pub proof fn lemma_composited_clips(
    before: Seq<u32>,
    width: int,
    height: int,
    rows: Seq<Seq<u32>>,
    anchor: PixelCoords,
)
    requires
        0 <= width,
        0 <= height,
        width * height <= before.len(),
    ensures
        composited(before, width, height, rows, anchor).len() == before.len(),
        forall|dx: int, dy: int|
            #![trigger has_cell(rows, dx, dy)]
            has_cell(rows, dx, dy) && 0 <= anchor.x + dx < width && 0 <= anchor.y + dy < height
                ==> {
                let i = (anchor.y + dy) * width + (anchor.x + dx);
                0 <= i < width * height && composited(before, width, height, rows, anchor)[i]
                    == rows[dy][dx]
            },
        forall|i: int|
            #![trigger composited(before, width, height, rows, anchor)[i]]
            0 <= i < before.len() && !(i < width * height && has_cell(
                rows,
                i % width - anchor.x,
                i / width - anchor.y,
            )) ==> composited(before, width, height, rows, anchor)[i] == before[i],
{
    assert forall|dx: int, dy: int|
        #![trigger has_cell(rows, dx, dy)]
        has_cell(rows, dx, dy) && 0 <= anchor.x + dx < width && 0 <= anchor.y + dy
            < height implies {
        let i = (anchor.y + dy) * width + (anchor.x + dx);
        0 <= i < width * height && composited(before, width, height, rows, anchor)[i]
            == rows[dy][dx]
    } by {
        lemma_pixel_to_index(anchor.x + dx, anchor.y + dy, width, height);
    }
}

/// Copies a sprite onto the buffer with its top-left corner at `coords`.
/// Cells that fall outside the viewport are dropped; nothing outside the
/// viewport's part of the buffer is touched.
pub fn draw_at(
    buffer: &mut Vec<u32>,
    buffer_width: usize,
    buffer_height: usize,
    raster_vecs: Vec<Vec<u32>>,
    coords: &PixelCoords,
)
    requires
        buffer_width * buffer_height <= old(buffer).len(),
    ensures
        final(buffer)@ == composited(
            old(buffer)@,
            buffer_width as int,
            buffer_height as int,
            sprite_rows(&raster_vecs),
            *coords,
        ),
    no_unwind
{
    let ghost before = buffer@;
    let ghost rows = sprite_rows(&raster_vecs);
    let ghost width = buffer_width as int;
    let ghost height = buffer_height as int;
    let mut dy: usize = 0;
    assert(buffer@ =~= composited_upto(before, width, height, rows, *coords, 0, 0));
    while dy < raster_vecs.len()
        invariant
            dy <= raster_vecs.len(),
            rows == sprite_rows(&raster_vecs),
            width == buffer_width,
            height == buffer_height,
            width * height <= before.len(),
            buffer.len() == before.len(),
            buffer@ == composited_upto(before, width, height, rows, *coords, 0, dy as int),
        decreases raster_vecs.len() - dy,
    {
        let row = &raster_vecs[dy];
        let mut dx: usize = 0;
        while dx < row.len()
            invariant
                dy < raster_vecs.len(),
                dx <= row.len(),
                row@ == rows[dy as int],
                rows == sprite_rows(&raster_vecs),
                width == buffer_width,
                height == buffer_height,
                width * height <= before.len(),
                buffer.len() == before.len(),
                buffer@ == composited_upto(
                    before,
                    width,
                    height,
                    rows,
                    *coords,
                    dx as int,
                    dy as int,
                ),
            decreases row.len() - dx,
        {
            let x: i128 = coords.x as i128 + dx as i128;
            let y: i128 = coords.y as i128 + dy as i128;
            let ghost step = composited_upto(
                before,
                width,
                height,
                rows,
                *coords,
                dx + 1,
                dy as int,
            );
            if 0 <= x && x < buffer_width as i128 && 0 <= y && y < buffer_height as i128 {
                proof {
                    lemma_pixel_to_index(x as int, y as int, width, height);
                }
                let index: usize = (y as usize) * buffer_width + (x as usize);
                buffer[index] = row[dx];
            }
            assert(buffer@ =~= step) by {
                assert forall|i: int| 0 <= i < before.len() implies buffer@[i] == step[i] by {
                    if i < width * height {
                        lemma_index_to_pixel(i, width, height);
                    }
                }
            }
            dx += 1;
        }
        assert(buffer@ =~= composited_upto(before, width, height, rows, *coords, 0, dy + 1));
        dy += 1;
    }
    assert(buffer@ =~= composited(before, width, height, rows, *coords));
}

} // verus!
