//! The window icon's square RGBA pixel buffer.
use vstd::prelude::*;

verus! {

/// The buffer after painting the pixel at column `x`, row `y` of a square
/// image `size` pixels wide: its four RGBA bytes take `color`; a pixel
/// outside the image changes nothing.
pub open spec fn painted(before: Seq<u8>, size: int, x: int, y: int, color: [u8; 4]) -> Seq<u8> {
    if x < size && y < size {
        let start = (y * size + x) * 4;
        Seq::new(before.len(), |i: int| if start <= i < start + 4 { color@[i - start] } else { before[i] })
    } else {
        before
    }
}

/// Paints one pixel of a square RGBA image.
pub fn set_icon_pixel(rgba: &mut Vec<u8>, size: usize, x: usize, y: usize, color: [u8; 4])
    requires
        old(rgba)@.len() == size * size * 4,
    ensures
        final(rgba)@ == painted(old(rgba)@, size as int, x as int, y as int, color),
{
    if x >= size || y >= size {
        return;
    }
    let length = rgba.len();
    proof {
        assert((y * size + x) * 4 + 4 <= size * size * 4 && y * size <= y * size + x) by (nonlinear_arith)
            requires
                x < size,
                y < size;
    }
    let start = (y * size + x) * 4;
    let ghost before = rgba@;
    let mut k: usize = 0;
    while k < 4
        invariant
            k <= 4,
            start + 4 <= rgba@.len(),
            rgba@.len() == before.len(),
            start == (y * size + x) * 4,
            forall|i: int| 0 <= i < rgba@.len() ==> #[trigger] rgba@[i] == if start <= i < start + k { color@[i - start] } else { before[i] },
        decreases 4 - k,
    {
        rgba.set(start + k, color[k]);
        k += 1;
    }
    assert(rgba@ =~= painted(before, size as int, x as int, y as int, color));
}

} // verus!
