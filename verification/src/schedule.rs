//! Traversal order of the renderer.
//!
//! The accumulation buffer is row-major and is filled in render order: rows
//! from the top of the image to the bottom, columns left to right within a
//! row. A pixel's row is named by its distance from the bottom of the image
//! (the vertical viewport coordinate grows upward), so the first row visited
//! is `height - 1` and the last is `0`.

use vstd::prelude::*;

verus! {

/// Row (counted from the bottom of the image) of the pixel that occupies
/// slot `k` of the accumulation buffer.
pub open spec fn row_of_slot(width: int, height: int, k: int) -> int {
    height - 1 - k / width
}

/// Column of the pixel that occupies slot `k` of the accumulation buffer.
pub open spec fn col_of_slot(width: int, k: int) -> int {
    k % width
}

/// The complete render schedule of a `width` by `height` image: one
/// `(row_from_bottom, column)` pair per pixel, in the order the renderer
/// visits them and the writer later emits them. Slot `k` of the
/// accumulation buffer belongs to the `k`-th pair, so every pixel is
/// visited exactly once and no slot is written twice.
pub fn render_order(width: u32, height: u32) -> (order: Vec<(u32, u32)>)
    requires
        width * height <= usize::MAX,
    ensures
        order@.len() == width * height,
        forall|k: int| #![trigger order@[k]]
            0 <= k < order@.len() ==> order@[k].0 == row_of_slot(width as int, height as int, k)
                && order@[k].1 == col_of_slot(width as int, k),
        forall|j: int, i: int|
            0 <= j < height && 0 <= i < width ==> #[trigger] order@[(height - 1 - j) * width
                + i] == (j as u32, i as u32),
{
    let mut order: Vec<(u32, u32)> = Vec::new();
    let mut rows_done: u32 = 0;
    while rows_done < height
        invariant
            rows_done <= height,
            width * height <= usize::MAX,
            order@.len() == rows_done * width,
            forall|k: int| #![trigger order@[k]]
                0 <= k < order@.len() ==> order@[k].0 == row_of_slot(
                    width as int,
                    height as int,
                    k,
                ) && order@[k].1 == col_of_slot(width as int, k),
        decreases height - rows_done,
    {
        let row: u32 = height - 1 - rows_done;
        let mut col: u32 = 0;
        while col < width
            invariant
                col <= width,
                rows_done < height,
                row == height - 1 - rows_done,
                width * height <= usize::MAX,
                order@.len() == rows_done * width + col,
                forall|k: int| #![trigger order@[k]]
                    0 <= k < order@.len() ==> order@[k].0 == row_of_slot(
                        width as int,
                        height as int,
                        k,
                    ) && order@[k].1 == col_of_slot(width as int, k),
            decreases width - col,
        {
            proof {
                vstd::arithmetic::div_mod::lemma_fundamental_div_mod_converse(
                    rows_done * width + col,
                    width as int,
                    rows_done as int,
                    col as int,
                );
            }
            order.push((row, col));
            col = col + 1;
        }
        proof {
            assert((rows_done + 1) * width == rows_done * width + width) by (nonlinear_arith);
        }
        rows_done = rows_done + 1;
    }
    proof {
        assert(order@.len() == height * width);
        assert(order@.len() == width * height);
        assert forall|j: int, i: int| 0 <= j < height && 0 <= i < width implies #[trigger] order@[(
            height - 1 - j) * width + i] == (j as u32, i as u32) by {
            let k = (height - 1 - j) * width + i;
            assert(0 <= k && k < height * width) by (nonlinear_arith)
                requires
                    0 <= j < height,
                    0 <= i < width,
                    k == (height - 1 - j) * width + i,
            ;
            vstd::arithmetic::div_mod::lemma_fundamental_div_mod_converse(
                k,
                width as int,
                height - 1 - j,
                i,
            );
        }
    }
    order
}

} // verus!
