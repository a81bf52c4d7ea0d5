use vstd::prelude::*;

verus! {

/// Index of pixel `(x, y)` in the row-major field buffer.
pub open spec fn spec_row_major(x: int, y: int, width: int) -> int {
    y * width + x
}

/// The slot of pixel `(x, y)` in the field buffer of a `width`-pixel-wide
/// image: rows are laid out one after the other, top to bottom.
pub fn row_major_index(x: u32, y: u32, width: u32) -> (r: u64)
    requires
        x < width,
    ensures
        r == spec_row_major(x as int, y as int, width as int),
{
    proof {
        assert((y as int) * (width as int) <= 0xffff_ffff * 0xffff_ffff) by (nonlinear_arith)
            requires
                y <= 0xffff_ffffu32,
                width <= 0xffff_ffffu32,
        ;
    }
    (y as u64) * (width as u64) + (x as u64)
}

/// Distinct pixels own distinct slots: the row-major layout never maps two
/// pixels of the grid to the same index, so workers that each own a set of
/// pixels write disjoint parts of the buffer.
pub proof fn law_row_major_injective(x1: int, y1: int, x2: int, y2: int, width: int)
    requires
        0 <= x1 < width,
        0 <= x2 < width,
        0 <= y1,
        0 <= y2,
        (x1, y1) != (x2, y2),
    ensures
        spec_row_major(x1, y1, width) != spec_row_major(x2, y2, width),
{
    if y1 == y2 {
    } else if y1 < y2 {
        lemma_row_below(x1, y1, x2, y2, width);
    } else {
        lemma_row_below(x2, y2, x1, y1, width);
    }
}

/// A pixel of an earlier row sits strictly before every pixel of a later row.
proof fn lemma_row_below(x1: int, y1: int, x2: int, y2: int, width: int)
    requires
        0 <= x1 < width,
        0 <= x2 < width,
        0 <= y1 < y2,
    ensures
        spec_row_major(x1, y1, width) < spec_row_major(x2, y2, width),
{
    assert(y1 * width + width <= y2 * width) by (nonlinear_arith)
        requires
            y1 < y2,
            width > 0,
    ;
}

/// Joins per-row results into the flat field buffer, in row order.  Each
/// worker produces one row of `width` values; the result holds row `y` at
/// offsets `[y * width, (y + 1) * width)`, so value `(x, y)` lands at its
/// row-major index.
pub fn assemble_rows<T: Copy>(rows: &Vec<Vec<T>>, width: usize) -> (r: Vec<T>)
    requires
        forall|y: int| 0 <= y < rows@.len() ==> rows@[y]@.len() == width,
        rows@.len() * width <= usize::MAX,
    ensures
        r@.len() == rows@.len() * width,
        forall|y: int, x: int|
            0 <= y < rows@.len() && 0 <= x < width ==> r@[spec_row_major(x, y, width as int)]
                == rows@[y]@[x],
{
    let mut r: Vec<T> = Vec::new();
    let n = rows.len();
    let mut y: usize = 0;
    while y < n
        invariant
            n == rows@.len(),
            forall|k: int| 0 <= k < n ==> rows@[k]@.len() == width,
            n * width <= usize::MAX,
            y <= n,
            r@.len() == y * width,
            forall|k: int, x: int|
                0 <= k < y && 0 <= x < width ==> r@[spec_row_major(x, k, width as int)]
                    == rows@[k]@[x],
        decreases n - y,
    {
        proof {
            assert((y + 1) * width <= n * width) by (nonlinear_arith)
                requires
                    y < n,
                    width >= 0,
            ;
        }
        let row = &rows[y];
        let mut x: usize = 0;
        while x < width
            invariant
                n == rows@.len(),
                forall|k: int| 0 <= k < n ==> rows@[k]@.len() == width,
                y < n,
                (y + 1) * width <= usize::MAX,
                row@ == rows@[y as int]@,
                x <= width,
                r@.len() == y * width + x,
                forall|k: int, x2: int|
                    0 <= k < y && 0 <= x2 < width ==> r@[spec_row_major(x2, k, width as int)]
                        == rows@[k]@[x2],
                forall|x2: int|
                    0 <= x2 < x ==> r@[spec_row_major(x2, y as int, width as int)]
                        == rows@[y as int]@[x2],
            decreases width - x,
        {
            proof {
                assert(y * width + x < (y + 1) * width) by (nonlinear_arith)
                    requires
                        x < width,
                        y >= 0,
                ;
            }
            r.push(row[x]);
            proof {
                assert forall|k: int, x2: int|
                    0 <= k < y && 0 <= x2 < width implies r@[spec_row_major(
                    x2,
                    k,
                    width as int,
                )] == rows@[k]@[x2] by {
                    assert(k * width + x2 < y * width + x) by (nonlinear_arith)
                        requires
                            0 <= k < y,
                            0 <= x2 < width,
                            0 <= x,
                    ;
                }
                let xi = x as int;
                assert(r@[spec_row_major(xi, y as int, width as int)] == rows@[y as int]@[xi]);
            }
            x = x + 1;
        }
        y = y + 1;
        proof {
            assert((y - 1) * width + width == y * width) by (nonlinear_arith);
        }
    }
    r
}

} // verus!
