use vstd::arithmetic::div_mod::{
    lemma_fundamental_div_mod_converse_div, lemma_fundamental_div_mod_converse_mod,
};
use vstd::prelude::*;

verus! {

/// The row-major walk of the square integer range `[from, to) x [from, to)`:
/// position `k` holds the pair `(from + k / n, from + k % n)` where
/// `n = to - from`. Empty when `from >= to`.
pub open spec fn square_range(from: int, to: int) -> Seq<(i32, i32)> {
    if from >= to {
        Seq::empty()
    } else {
        let n = to - from;
        Seq::new((n * n) as nat, |k: int| ((from + k / n) as i32, (from + k % n) as i32))
    }
}

/// Returns every pair `(a, b)` with `a` and `b` in `[from, to)`, in row-major
/// order (`a` outermost). The renderer walks `gen_2d_range(-1, 2)` for the
/// nine supersampling offsets of each pixel.
pub fn gen_2d_range(from: i32, to: i32) -> (pairs: Vec<(i32, i32)>)
    ensures
        pairs@ == square_range(from as int, to as int),
{
    let mut pairs: Vec<(i32, i32)> = Vec::new();
    if from >= to {
        proof {
            assert(pairs@ =~= square_range(from as int, to as int));
        }
        return pairs;
    }
    let ghost n: int = to - from;
    let mut a: i32 = from;
    while a < to
        invariant
            from <= a <= to,
            from < to,
            n == to - from,
            pairs@.len() == (a - from) * n,
            forall|k: int|
                0 <= k < pairs@.len() ==> pairs@[k] == #[trigger] square_range(
                    from as int,
                    to as int,
                )[k],
        decreases to - a,
    {
        let mut b: i32 = from;
        while b < to
            invariant
                from <= a < to,
                from <= b <= to,
                n == to - from,
                pairs@.len() == (a - from) * n + (b - from),
                forall|k: int|
                    0 <= k < pairs@.len() ==> pairs@[k] == #[trigger] square_range(
                        from as int,
                        to as int,
                    )[k],
            decreases to - b,
        {
            proof {
                let k: int = (a - from) * n + (b - from);
                assert(0 <= k < n * n) by (nonlinear_arith)
                    requires
                        n == to - from,
                        from <= a < to,
                        from <= b < to,
                        k == (a - from) * n + (b - from),
                ;
                lemma_fundamental_div_mod_converse_div(k, n, a - from, b - from);
                lemma_fundamental_div_mod_converse_mod(k, n, a - from, b - from);
                assert(square_range(from as int, to as int)[k] == (a, b));
            }
            pairs.push((a, b));
            b = b + 1;
        }
        proof {
            assert((a - from) * n + n == ((a + 1) - from) * n) by (nonlinear_arith);
        }
        a = a + 1;
    }
    proof {
        assert(pairs@ =~= square_range(from as int, to as int));
    }
    pairs
}

/// The row-major walk of a `width x height` raster with the origin at the top
/// left: position `k` holds the pixel coordinate `(k % width, k / width)`, so
/// `x` varies fastest and `y = 0` is the top row. Empty when either side is
/// zero.
pub open spec fn raster_walk(width: int, height: int) -> Seq<(u32, u32)> {
    Seq::new((width * height) as nat, |k: int| ((k % width) as u32, (k / width) as u32))
}

/// Returns every pixel coordinate `(x, y)` of a `width x height` image in
/// row-major order with the origin at the top left: `y` walks the rows from
/// the top and `x` runs along each row. The renderer visits pixels in this
/// order, which is also the order in which `rgb_bytes` and `rgba_bytes` lay
/// the finished colors out.
pub fn pixel_coords(width: u32, height: u32) -> (coords: Vec<(u32, u32)>)
    ensures
        coords@ == raster_walk(width as int, height as int),
        forall|x: int, y: int|
            0 <= x < width && 0 <= y < height ==> #[trigger] coords@[y * width + x] == (
                x as u32,
                y as u32,
            ),
{
    let mut coords: Vec<(u32, u32)> = Vec::new();
    let mut y: u32 = 0;
    while y < height
        invariant
            y <= height,
            coords@.len() == y * width,
            forall|k: int|
                0 <= k < coords@.len() ==> coords@[k] == #[trigger] raster_walk(
                    width as int,
                    height as int,
                )[k],
        decreases height - y,
    {
        let mut x: u32 = 0;
        while x < width
            invariant
                y < height,
                x <= width,
                coords@.len() == y * width + x,
                forall|k: int|
                    0 <= k < coords@.len() ==> coords@[k] == #[trigger] raster_walk(
                        width as int,
                        height as int,
                    )[k],
            decreases width - x,
        {
            proof {
                let k: int = y * width + x;
                assert(0 <= k < width * height) by (nonlinear_arith)
                    requires
                        0 <= y < height,
                        0 <= x < width,
                        k == y * width + x,
                ;
                lemma_fundamental_div_mod_converse_div(k, width as int, y as int, x as int);
                lemma_fundamental_div_mod_converse_mod(k, width as int, y as int, x as int);
                assert(raster_walk(width as int, height as int)[k] == (x, y));
            }
            coords.push((x, y));
            x = x + 1;
        }
        proof {
            assert(y * width + width == (y + 1) * width) by (nonlinear_arith);
        }
        y = y + 1;
    }
    proof {
        assert(height * width == width * height) by (nonlinear_arith);
        assert(coords@ =~= raster_walk(width as int, height as int));
        assert forall|x: int, y: int| 0 <= x < width && 0 <= y < height implies #[trigger] coords@[y
            * width + x] == (x as u32, y as u32) by {
            assert(0 <= y * width + x < width * height) by (nonlinear_arith)
                requires
                    0 <= y < height,
                    0 <= x < width,
            ;
            lemma_fundamental_div_mod_converse_div(y * width + x, width as int, y, x);
            lemma_fundamental_div_mod_converse_mod(y * width + x, width as int, y, x);
        };
    }
    coords
}

} // verus!
