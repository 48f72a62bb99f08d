//! Sprite drawing on the pixel buffer: what XORing a sprite onto the screen
//! means, pixel by pixel, and the loop that does it.

use crate::screen::{pixel_index, PixelState, Screen};
use vstd::prelude::*;

verus! {

/// Whether column `col` (0 is leftmost) of a sprite row is set. A row is
/// eight pixels wide, most significant bit first.
pub open spec fn sprite_bit(row: u8, col: u8) -> bool {
    row & (0x80u8 >> col) != 0
}

/// Column inside a sprite placed at column `left` that lands on the pixel
/// stored at index `p`, counting around the right edge.
pub open spec fn sprite_col(left: int, p: int) -> int {
    (p % 64 - left) % 64
}

/// Row inside a sprite placed at row `top` that lands on the pixel stored
/// at index `p`, counting around the bottom edge.
pub open spec fn sprite_row(top: int, p: int) -> int {
    (p / 64 - top) % 32
}

/// Whether the sprite `rows`, placed with its top-left corner at
/// `(left, top)`, has a set bit on the pixel stored at index `p`.
pub open spec fn sprite_hits(rows: Seq<u8>, left: int, top: int, p: int) -> bool {
    let dx = sprite_col(left, p);
    let dy = sprite_row(top, p);
    dx < 8 && dy < rows.len() && sprite_bit(rows[dy], dx as u8)
}

/// A pixel byte after it has been XORed with a set bit: lit becomes dark,
/// dark becomes lit.
pub open spec fn flipped(byte: u8) -> u8 {
    if byte == 0 {
        1
    } else {
        0
    }
}

/// The pixel buffer after `rows` has been XORed onto it at `(left, top)`:
/// exactly the pixels under a set sprite bit flip.
pub open spec fn xor_sprite(pixels: Seq<u8>, rows: Seq<u8>, left: int, top: int) -> Seq<u8> {
    Seq::new(
        pixels.len(),
        |p: int|
            if sprite_hits(rows, left, top, p) {
                flipped(pixels[p])
            } else {
                pixels[p]
            },
    )
}

/// Whether drawing `rows` at `(left, top)` turns some lit pixel off.
pub open spec fn collides(pixels: Seq<u8>, rows: Seq<u8>, left: int, top: int) -> bool {
    exists|p: int| 0 <= p < pixels.len() && sprite_hits(rows, left, top, p) && pixels[p] != 0
}

/// Whether the sprite hits pixel `p` with a bit that comes before row `r`,
/// column `c` in drawing order (rows top to bottom, columns left to
/// right).
spec fn hits_before(rows: Seq<u8>, left: int, top: int, r: int, c: int, p: int) -> bool {
    let dx = sprite_col(left, p);
    let dy = sprite_row(top, p);
    sprite_hits(rows, left, top, p) && (dy < r || (dy == r && dx < c))
}

/// The pixel buffer once every sprite bit before row `r`, column `c` has
/// been drawn.
spec fn xor_before(
    pixels: Seq<u8>,
    rows: Seq<u8>,
    left: int,
    top: int,
    r: int,
    c: int,
) -> Seq<u8> {
    Seq::new(
        pixels.len(),
        |p: int|
            if hits_before(rows, left, top, r, c, p) {
                flipped(pixels[p])
            } else {
                pixels[p]
            },
    )
}

/// Whether a sprite bit before row `r`, column `c` lands on a lit pixel.
spec fn collides_before(
    pixels: Seq<u8>,
    rows: Seq<u8>,
    left: int,
    top: int,
    r: int,
    c: int,
) -> bool {
    exists|p: int|
        0 <= p < pixels.len() && hits_before(rows, left, top, r, c, p) && pixels[p] != 0
}

/// The index of the screen pixel under row `r`, column `c` of a sprite
/// placed at `(left, top)`.
spec fn target(left: int, top: int, r: int, c: int) -> int {
    pixel_index((left + c) % 64, (top + r) % 32)
}

/// A pixel index splits back into the column and row it was made from.
proof fn lemma_pixel_index(x: int, y: int)
    requires
        0 <= x < 64,
        0 <= y < 32,
    ensures
        0 <= pixel_index(x, y) < 2048,
        pixel_index(x, y) % 64 == x,
        pixel_index(x, y) / 64 == y,
{
}

/// Stepping `d` places forward around a ring of `m` places and then
/// measuring the distance back gives `d`, and no other place is `d` away.
proof fn lemma_ring(m: int, start: int, d: int, at: int)
    requires
        m == 64 || m == 32,
        0 <= start < m,
        0 <= d < m,
        0 <= at < m,
    ensures
        ((start + d) % m - start) % m == d,
        (at - start) % m == d ==> at == (start + d) % m,
{
    if m == 64 {
        assert(((start + d) % 64 - start) % 64 == d);
        assert((at - start) % 64 == d ==> at == (start + d) % 64);
    } else {
        assert(((start + d) % 32 - start) % 32 == d);
        assert((at - start) % 32 == d ==> at == (start + d) % 32);
    }
}

/// The target of a sprite position is on the screen, and it is the only
/// pixel that sprite position lands on.
proof fn lemma_target(left: int, top: int, r: int, c: int)
    requires
        0 <= left < 64,
        0 <= top < 32,
        0 <= r < 32,
        0 <= c < 64,
    ensures
        0 <= target(left, top, r, c) < 2048,
        sprite_col(left, target(left, top, r, c)) == c,
        sprite_row(top, target(left, top, r, c)) == r,
        forall|p: int|
            0 <= p < 2048 && #[trigger] sprite_col(left, p) == c && sprite_row(top, p) == r
                ==> p == target(left, top, r, c),
{
    let t = target(left, top, r, c);
    let x = (left + c) % 64;
    let y = (top + r) % 32;
    lemma_pixel_index(x, y);
    lemma_ring(64, left, c, x);
    lemma_ring(32, top, r, y);
    assert forall|p: int|
        0 <= p < 2048 && #[trigger] sprite_col(left, p) == c && sprite_row(top, p) == r implies p
        == t by {
        lemma_ring(64, left, c, p % 64);
        lemma_ring(32, top, r, p / 64);
        lemma_pixel_index(p % 64, p / 64);
    }
}

/// Drawing one more sprite position adds at most its target to the pixels
/// hit so far, and only if its bit is set.
proof fn lemma_hits_step(rows: Seq<u8>, left: int, top: int, r: int, c: int)
    requires
        0 <= left < 64,
        0 <= top < 32,
        0 <= r < rows.len() <= 32,
        0 <= c < 8,
    ensures
        !hits_before(rows, left, top, r, c, target(left, top, r, c)),
        forall|p: int|
            0 <= p < 2048 ==> (#[trigger] hits_before(rows, left, top, r, c + 1, p) <==> {
                ||| hits_before(rows, left, top, r, c, p)
                ||| p == target(left, top, r, c) && sprite_bit(rows[r], c as u8)
            }),
{
    lemma_target(left, top, r, c);
}

/// Before the first position nothing is hit; the end of a row is the
/// start of the next; after the last row everything the sprite hits is
/// hit.
proof fn lemma_hits_rows(rows: Seq<u8>, left: int, top: int, r: int)
    requires
        0 <= r,
    ensures
        forall|p: int| !#[trigger] hits_before(rows, left, top, 0, 0, p),
        forall|p: int| #[trigger]
            hits_before(rows, left, top, r, 8, p) <==> hits_before(rows, left, top, r + 1, 0, p),
        forall|p: int| #[trigger]
            hits_before(rows, left, top, rows.len() as int, 0, p)
                <==> sprite_hits(rows, left, top, p),
{
}

/// Drawing one more sprite position collides exactly if an earlier one did
/// or if its own bit is set over a lit pixel.
proof fn lemma_collides_step(pixels: Seq<u8>, rows: Seq<u8>, left: int, top: int, r: int, c: int)
    requires
        pixels.len() == 2048,
        0 <= left < 64,
        0 <= top < 32,
        0 <= r < rows.len() <= 32,
        0 <= c < 8,
    ensures
        collides_before(pixels, rows, left, top, r, c + 1) <==> {
            ||| collides_before(pixels, rows, left, top, r, c)
            ||| sprite_bit(rows[r], c as u8) && pixels[target(left, top, r, c)] != 0
        },
{
    let t = target(left, top, r, c);
    lemma_target(left, top, r, c);
    lemma_hits_step(rows, left, top, r, c);
    if collides_before(pixels, rows, left, top, r, c + 1) {
        let p = choose|p: int|
            0 <= p < 2048 && hits_before(rows, left, top, r, c + 1, p) && pixels[p] != 0;
        assert(hits_before(rows, left, top, r, c, p) || p == t);
    }
    if collides_before(pixels, rows, left, top, r, c) {
        let p = choose|p: int|
            0 <= p < 2048 && hits_before(rows, left, top, r, c, p) && pixels[p] != 0;
        assert(hits_before(rows, left, top, r, c + 1, p));
    }
    if sprite_bit(rows[r], c as u8) && pixels[t] != 0 {
        assert(hits_before(rows, left, top, r, c + 1, t));
    }
}

/// XORs the sprite `rows` onto the screen with its top-left corner at
/// `(left, top)`. Pixels past the right or bottom edge wrap around to the
/// opposite edge. Returns whether a lit pixel was turned off.
pub fn draw_sprite(screen: &mut Screen, rows: &[u8], left: usize, top: usize) -> (collision: bool)
    requires
        left < 64,
        top < 32,
        rows@.len() <= 32,
    ensures
        final(screen).pixels@ == xor_sprite(old(screen).pixels@, rows@, left as int, top as int),
        collision == collides(old(screen).pixels@, rows@, left as int, top as int),
        old(screen).wf() ==> final(screen).wf(),
{
    let ghost before = screen.pixels@;
    let ghost (l, t) = (left as int, top as int);
    let mut collision = false;
    let mut r: usize = 0;
    proof {
        lemma_hits_rows(rows@, l, t, 0);
    }
    while r < rows.len()
        invariant
            l == left < 64,
            t == top < 32,
            r <= rows@.len() <= 32,
            before == old(screen).pixels@,
            screen.pixels@ == xor_before(before, rows@, l, t, r as int, 0),
            collision == collides_before(before, rows@, l, t, r as int, 0),
            old(screen).wf() ==> screen.wf(),
        decreases rows@.len() - r,
    {
        let row = rows[r];
        let y = (top + r) % 32;
        let mut c: u8 = 0;
        while c < 8
            invariant
                l == left < 64,
                t == top < 32,
                r < rows@.len() <= 32,
                c <= 8,
                row == rows@[r as int],
                y == (top + r) % 32,
                before == old(screen).pixels@,
                screen.pixels@ == xor_before(before, rows@, l, t, r as int, c as int),
                collision == collides_before(before, rows@, l, t, r as int, c as int),
                old(screen).wf() ==> screen.wf(),
            decreases 8 - c,
        {
            proof {
                lemma_target(l, t, r as int, c as int);
                lemma_hits_step(rows@, l, t, r as int, c as int);
                lemma_collides_step(before, rows@, l, t, r as int, c as int);
            }
            if row & (0x80u8 >> c) != 0 {
                let x = (left + c as usize) % 64;
                assert(pixel_index(x as int, y as int) == target(l, t, r as int, c as int));
                match screen.get_pixel_state((x, y)) {
                    PixelState::On => {
                        collision = true;
                        screen.update_pixel((x, y), PixelState::Off);
                    },
                    PixelState::Off => {
                        screen.update_pixel((x, y), PixelState::On);
                    },
                }
            }
            assert(screen.pixels@ =~= xor_before(before, rows@, l, t, r as int, c + 1));
            c += 1;
        }
        proof {
            lemma_hits_rows(rows@, l, t, r as int);
        }
        assert(screen.pixels@ =~= xor_before(before, rows@, l, t, r + 1, 0));
        r += 1;
    }
    proof {
        lemma_hits_rows(rows@, l, t, r as int);
    }
    assert(screen.pixels@ =~= xor_sprite(before, rows@, l, t));
    collision
}

} // verus!
