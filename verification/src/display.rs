//! The 64 by 32 monochrome display and the drawing of sprites on it.
//!
//! A display is a sequence of 2048 pixels, row after row: the pixel in column
//! `x` of row `y` has index `y * 64 + x`. A sprite is a sequence of bytes, one
//! per row, the highest bit leftmost. Drawing flips every pixel that a set
//! bit of the sprite lands on; a sprite that reaches past an edge goes on at
//! the opposite edge, in both directions.

use vstd::prelude::*;

verus! {

/// Pixels in a row of the display.
pub const WIDTH: usize = 64;

/// Rows of the display.
pub const HEIGHT: usize = 32;

/// Pixels of the display.
pub const PIXELS: usize = 2048;

/// The display with no pixel set.
pub open spec fn blank() -> Seq<bool> {
    Seq::new(2048, |p: int| false)
}

/// The sprite of `rows` bytes that memory holds from `index` on. An address
/// past the end of memory goes on at its start.
pub open spec fn sprite_at(memory: Seq<u8>, index: u16, rows: u8) -> Seq<u8> {
    Seq::new(rows as nat, |r: int| memory[(index + r) % 4096])
}

/// Whether a sprite row has its pixel in column `col` set, `col` counted from
/// the left, from 0 to 7.
pub open spec fn sprite_bit(row: u8, col: u8) -> bool {
    (row >> ((7 - col) as u8)) & 1 == 1
}

/// The column of the sprite that pixel `p` lies in, for a sprite whose left
/// edge is in display column `ox`.
pub open spec fn sprite_col(ox: int, p: int) -> int {
    (p % 64 - ox) % 64
}

/// The row of the sprite that pixel `p` lies in, for a sprite whose top edge
/// is in display row `oy`.
pub open spec fn sprite_row(oy: int, p: int) -> int {
    (p / 64 - oy) % 32
}

/// Whether a set bit of the sprite, drawn with its top left corner at column
/// `ox` and row `oy`, lands on pixel `p`.
pub open spec fn sprite_covers(sprite: Seq<u8>, ox: int, oy: int, p: int) -> bool {
    let col = sprite_col(ox, p);
    let row = sprite_row(oy, p);
    col < 8 && row < sprite.len() && sprite_bit(sprite[row], col as u8)
}

/// The display after the sprite was drawn on it: each pixel under a set bit
/// of the sprite is flipped, every other pixel is kept.
pub open spec fn blit(display: Seq<bool>, sprite: Seq<u8>, ox: int, oy: int) -> Seq<bool> {
    Seq::new(2048, |p: int| display[p] != sprite_covers(sprite, ox, oy, p))
}

/// Whether drawing the sprite turns a set pixel off.
pub open spec fn collides(display: Seq<bool>, sprite: Seq<u8>, ox: int, oy: int) -> bool {
    exists|p: int| 0 <= p < 2048 && display[p] && #[trigger] sprite_covers(sprite, ox, oy, p)
}

/// Whether pixel `p` is under a set bit of the sprite that comes before
/// column `c` of row `r`, going through the sprite row by row.
spec fn covered_before(sprite: Seq<u8>, ox: int, oy: int, p: int, r: int, c: int) -> bool {
    sprite_covers(sprite, ox, oy, p) && (sprite_row(oy, p) < r || (sprite_row(oy, p) == r
        && sprite_col(ox, p) < c))
}

/// The index of the pixel that column `c` of row `r` of the sprite lands on.
spec fn target(ox: int, oy: int, r: int, c: int) -> int {
    (oy + r) % 32 * 64 + (ox + c) % 64
}

/// Going one column further adds the one pixel that the column lands on, if
/// its bit is set, and no other.
proof fn lemma_next_column(sprite: Seq<u8>, ox: int, oy: int, r: int, c: int)
    requires
        0 <= ox < 64,
        0 <= oy < 32,
        0 <= r < sprite.len() <= 32,
        0 <= c < 8,
    ensures
        0 <= target(ox, oy, r, c) < 2048,
        !covered_before(sprite, ox, oy, target(ox, oy, r, c), r, c),
        forall|p: int|
            #![trigger covered_before(sprite, ox, oy, p, r, c + 1)]
            #![trigger covered_before(sprite, ox, oy, p, r, c)]
            0 <= p < 2048 ==> (covered_before(sprite, ox, oy, p, r, c + 1) <==> (covered_before(
                sprite,
                ox,
                oy,
                p,
                r,
                c,
            ) || (p == target(ox, oy, r, c) && sprite_bit(sprite[r], c as u8)))),
{
    let t = target(ox, oy, r, c);
    assert(sprite_row(oy, t) == r && sprite_col(ox, t) == c);
    assert forall|p: int| 0 <= p < 2048 && sprite_row(oy, p) == r && sprite_col(ox, p) == c implies p
        == t by {
        assert(p % 64 == (ox + c) % 64);
        assert(p / 64 == (oy + r) % 32);
    }
}

/// What lies before the end of a row lies before the start of the next.
proof fn lemma_next_row(sprite: Seq<u8>, ox: int, oy: int, r: int)
    ensures
        forall|p: int|
            #![trigger covered_before(sprite, ox, oy, p, r + 1, 0)]
            #![trigger covered_before(sprite, ox, oy, p, r, 8)]
            covered_before(sprite, ox, oy, p, r + 1, 0) <==> covered_before(sprite, ox, oy, p, r, 8),
{
}

/// Draws on `pixels` the sprite of `rows` bytes that `memory` holds from
/// `index` on, its top left corner at column `vx mod 64` and row `vy mod 32`.
/// Returns whether a set pixel was turned off.
pub(crate) fn draw_sprite(
    pixels: &mut [bool; 2048],
    memory: &[u8; 4096],
    index: u16,
    rows: u8,
    vx: u8,
    vy: u8,
) -> (collision: bool)
    requires
        rows < 16,
    ensures
        final(pixels)@ == blit(
            old(pixels)@,
            sprite_at(memory@, index, rows),
            vx as int % 64,
            vy as int % 32,
        ),
        collision == collides(
            old(pixels)@,
            sprite_at(memory@, index, rows),
            vx as int % 64,
            vy as int % 32,
        ),
    no_unwind
{
    let ox: usize = (vx % 64) as usize;
    let oy: usize = (vy % 32) as usize;
    let ghost before = pixels@;
    let ghost sprite = sprite_at(memory@, index, rows);
    let mut collision = false;
    let mut r: u8 = 0;
    while r < rows
        invariant
            r <= rows < 16,
            ox < 64,
            oy < 32,
            before.len() == 2048,
            sprite == sprite_at(memory@, index, rows),
            forall|p: int|
                0 <= p < 2048 ==> pixels@[p] == (before[p] != covered_before(
                    sprite,
                    ox as int,
                    oy as int,
                    p,
                    r as int,
                    0,
                )),
            collision == (exists|p: int|
                0 <= p < 2048 && before[p] && #[trigger] covered_before(
                    sprite,
                    ox as int,
                    oy as int,
                    p,
                    r as int,
                    0,
                )),
        decreases rows - r,
    {
        let byte = memory[(index as usize + r as usize) % 4096];
        let py: usize = (oy + r as usize) % 32;
        let mut c: u8 = 0;
        while c < 8
            invariant
                r < rows < 16,
                c <= 8,
                ox < 64,
                oy < 32,
                py == (oy + r) % 32,
                before.len() == 2048,
                sprite == sprite_at(memory@, index, rows),
                byte == sprite[r as int],
                forall|p: int|
                    0 <= p < 2048 ==> pixels@[p] == (before[p] != covered_before(
                        sprite,
                        ox as int,
                        oy as int,
                        p,
                        r as int,
                        c as int,
                    )),
                collision == (exists|p: int|
                    0 <= p < 2048 && before[p] && #[trigger] covered_before(
                        sprite,
                        ox as int,
                        oy as int,
                        p,
                        r as int,
                        c as int,
                    )),
            decreases 8 - c,
        {
            proof {
                lemma_next_column(sprite, ox as int, oy as int, r as int, c as int);
            }
            if (byte >> (7 - c)) & 1 == 1 {
                let idx: usize = py * 64 + (ox + c as usize) % 64;
                let lit = pixels[idx];
                if lit {
                    collision = true;
                }
                pixels[idx] = !lit;
            }
            c += 1;
        }
        proof {
            lemma_next_row(sprite, ox as int, oy as int, r as int);
        }
        r += 1;
    }
    collision
}

} // verus!
